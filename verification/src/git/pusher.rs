//! Pushing the current branch: what is pushed, to which address, and the
//! steps that lead there.
//!
//! The caller carries out each step and reports its outcome;
//! [`GitPusher::push_changes`] names the first step and
//! [`GitPusher::step`] the one that follows. Every failure is fatal: there
//! is no forced push and no second attempt.

use vstd::prelude::*;
use vstd::string::{StrSliceExecFns, StringExecFns};

use crate::error::{
    describe_failure, describe_out_of_turn, failure, out_of_turn, Error, ErrorKind, ErrorView,
};
use crate::git::event::{GitEvent, GitEventView};
use crate::text::{chars_of, has_prefix, starts_with, text_of};

verus! {

/// The refspec that pushes the local branch `branch` to the branch of the
/// same name on the remote.
pub open spec fn branch_refspec(branch: Seq<char>) -> Seq<char> {
    "refs/heads/"@ + branch + ":refs/heads/"@ + branch
}

/// The address to push to in place of the stored one, if any.
///
/// With a token, an address in the SSH shorthand `git@github.com:` is
/// pushed to over HTTPS, where the token is accepted; the stored address
/// of the remote is used in every other case.
pub open spec fn push_address(origin_url: Seq<char>, has_token: bool) -> Option<Seq<char>> {
    if has_token && starts_with(origin_url, "git@github.com:"@) {
        Some("https://github.com/"@ + origin_url.skip("git@github.com:"@.len() as int))
    } else {
        None
    }
}

/// The step whose outcome is awaited.
#[derive(Clone, Copy, Debug, PartialEq, Eq, Structural)]
pub enum PushStage {
    Opening,
    ReadingHead,
    FindingRemote,
    CreatingRemote,
    Pushing,
    /// Finished or failed: no further outcome is awaited.
    Closed,
}

/// How far the push has come.
#[derive(Clone, Debug, PartialEq, Eq)]
pub struct PushRun {
    pub stage: PushStage,
    /// The service token that was supplied, if any.
    pub github_token: Option<String>,
    /// The refspec to push; empty until the branch is known.
    pub refspec: String,
}

/// A push under way, with its strings as sequences of characters.
pub struct PushRunView {
    pub stage: PushStage,
    pub github_token: Option<Seq<char>>,
    pub refspec: Seq<char>,
}

impl View for PushRun {
    type V = PushRunView;

    open spec fn view(&self) -> PushRunView {
        PushRunView {
            stage: self.stage,
            github_token: text_of(self.github_token),
            refspec: self.refspec@,
        }
    }
}

/// The step that the caller is asked to carry out next.
#[derive(Clone, Debug, PartialEq, Eq)]
pub enum PushAction {
    /// Open the repository in the current directory.
    OpenRepository,
    /// Read the short name of the branch that `HEAD` is on; there is none
    /// where `HEAD` is detached.
    ReadHeadBranch,
    /// Look up the remote `name` and read its stored address; there is
    /// none where the address is not text.
    FindRemote { name: String },
    /// Set up a remote for `url` in memory, for this push alone. The stored
    /// remote stays as it is.
    CreateAnonymousRemote { url: String },
    /// Push the one refspec to the remote that was found or set up,
    /// offering what the credentials for a push with `token` are.
    Push { refspec: String, token: Option<String> },
    /// The branch has been pushed.
    Finish,
    /// Give up with this error.
    Fail(Error),
}

/// A step, with its strings as sequences of characters.
pub enum PushActionView {
    OpenRepository,
    ReadHeadBranch,
    FindRemote { name: Seq<char> },
    CreateAnonymousRemote { url: Seq<char> },
    Push { refspec: Seq<char>, token: Option<Seq<char>> },
    Finish,
    Fail(ErrorView),
}

impl View for PushAction {
    type V = PushActionView;

    open spec fn view(&self) -> PushActionView {
        match self {
            PushAction::OpenRepository => PushActionView::OpenRepository,
            PushAction::ReadHeadBranch => PushActionView::ReadHeadBranch,
            PushAction::FindRemote { name } => PushActionView::FindRemote { name: name@ },
            PushAction::CreateAnonymousRemote { url } => PushActionView::CreateAnonymousRemote {
                url: url@,
            },
            PushAction::Push { refspec, token } => PushActionView::Push {
                refspec: refspec@,
                token: text_of(*token),
            },
            PushAction::Finish => PushActionView::Finish,
            PushAction::Fail(e) => PushActionView::Fail(e@),
        }
    }
}

/// The error when `HEAD` is on no branch.
pub open spec fn no_branch() -> ErrorView {
    ErrorView { kind: ErrorKind::GitState, message: "Failed to get branch name"@ }
}

/// The push `s`, closed.
pub open spec fn push_closed(s: PushRunView) -> PushRunView {
    PushRunView { stage: PushStage::Closed, ..s }
}

/// The push itself, as the step that follows once the remote is at hand.
pub open spec fn push_now(s: PushRunView) -> (PushRunView, PushActionView) {
    (
        PushRunView { stage: PushStage::Pushing, ..s },
        PushActionView::Push { refspec: s.refspec, token: s.github_token },
    )
}

/// The first step of a push: open the repository.
pub open spec fn push_first(github_token: Option<Seq<char>>) -> (PushRunView, PushActionView) {
    (
        PushRunView { stage: PushStage::Opening, github_token, refspec: Seq::empty() },
        PushActionView::OpenRepository,
    )
}

/// The push after the outcome `e` of the step that `s` awaits, and the
/// step to carry out next.
///
/// The branch that `HEAD` is on is pushed to the branch of the same name
/// on the remote `origin`; a detached `HEAD` is an error.
pub open spec fn push_next(s: PushRunView, e: GitEventView) -> (PushRunView, PushActionView) {
    let unexpected = (push_closed(s), PushActionView::Fail(out_of_turn(ErrorKind::GitState)));
    match s.stage {
        PushStage::Opening => match e {
            GitEventView::Completed => (
                PushRunView { stage: PushStage::ReadingHead, ..s },
                PushActionView::ReadHeadBranch,
            ),
            GitEventView::Failed(cause) => (
                push_closed(s),
                PushActionView::Fail(
                    failure(ErrorKind::GitState, "Failed to open Git repository"@, cause),
                ),
            ),
            _ => unexpected,
        },
        PushStage::ReadingHead => match e {
            GitEventView::Text(Some(branch)) => (
                PushRunView { stage: PushStage::FindingRemote, refspec: branch_refspec(branch), ..s },
                PushActionView::FindRemote { name: "origin"@ },
            ),
            GitEventView::Text(None) => (push_closed(s), PushActionView::Fail(no_branch())),
            GitEventView::Failed(cause) => (
                push_closed(s),
                PushActionView::Fail(failure(ErrorKind::GitState, "Failed to get HEAD"@, cause)),
            ),
            _ => unexpected,
        },
        PushStage::FindingRemote => match e {
            GitEventView::Text(url) => {
                let stored = match url {
                    Some(u) => u,
                    None => ""@,
                };
                match push_address(stored, s.github_token is Some) {
                    Some(address) => (
                        PushRunView { stage: PushStage::CreatingRemote, ..s },
                        PushActionView::CreateAnonymousRemote { url: address },
                    ),
                    None => push_now(s),
                }
            },
            GitEventView::Failed(cause) => (
                push_closed(s),
                PushActionView::Fail(
                    failure(ErrorKind::GitState, "Failed to find remote 'origin'"@, cause),
                ),
            ),
            _ => unexpected,
        },
        PushStage::CreatingRemote => match e {
            GitEventView::Completed => push_now(s),
            GitEventView::Failed(cause) => (
                push_closed(s),
                PushActionView::Fail(
                    failure(ErrorKind::GitState, "Failed to create anonymous remote"@, cause),
                ),
            ),
            _ => unexpected,
        },
        PushStage::Pushing => match e {
            GitEventView::Completed => (push_closed(s), PushActionView::Finish),
            GitEventView::Failed(cause) => (
                push_closed(s),
                PushActionView::Fail(
                    failure(ErrorKind::GitState, "Failed to push changes"@, cause),
                ),
            ),
            _ => unexpected,
        },
        PushStage::Closed => unexpected,
    }
}

pub struct GitPusher;

impl GitPusher {
    /// The refspec that pushes `branch` to the branch of the same name.
    pub fn refspec(branch: &str) -> (refspec: String)
        ensures
            refspec@ == branch_refspec(branch@),
    {
        let mut refspec = String::from_str("refs/heads/");
        refspec.append(branch);
        refspec.append(":refs/heads/");
        refspec.append(branch);
        refspec
    }

    /// The address to push to in place of the stored address `origin_url`,
    /// if any.
    pub fn address(origin_url: &str, has_token: bool) -> (address: Option<String>)
        ensures
            text_of(address) == push_address(origin_url@, has_token),
    {
        let url = chars_of(origin_url);
        let len: usize = url.len();
        if has_token && has_prefix(url.as_slice(), chars_of("git@github.com:").as_slice()) {
            let skipped: usize = "git@github.com:".unicode_len();
            let mut https = String::from_str("https://github.com/");
            https.append(origin_url.substring_char(skipped, len));
            Some(https)
        } else {
            None
        }
    }

    /// Begins a push with the service token `github_token`, and names its
    /// first step.
    pub fn push_changes(github_token: Option<String>) -> (r: (PushRun, PushAction))
        ensures
            (r.0@, r.1@) == push_first(text_of(github_token)),
    {
        (
            PushRun { stage: PushStage::Opening, github_token, refspec: String::new() },
            PushAction::OpenRepository,
        )
    }

    fn fail(run: PushRun, error: Error) -> (r: (PushRun, PushAction))
        ensures
            r.0@ == push_closed(run@),
            r.1@ == PushActionView::Fail(error@),
    {
        (PushRun { stage: PushStage::Closed, ..run }, PushAction::Fail(error))
    }

    fn push_now(run: PushRun) -> (r: (PushRun, PushAction))
        ensures
            (r.0@, r.1@) == push_now(run@),
    {
        let action = PushAction::Push {
            refspec: run.refspec.clone(),
            token: run.github_token.clone(),
        };
        (PushRun { stage: PushStage::Pushing, ..run }, action)
    }

    /// Takes the outcome `event` of the step that `run` awaits, and names
    /// the step to carry out next.
    pub fn step(run: PushRun, event: GitEvent) -> (r: (PushRun, PushAction))
        ensures
            (r.0@, r.1@) == push_next(run@, event@),
    {
        match run.stage {
            PushStage::Opening => match event {
                GitEvent::Completed => (
                    PushRun { stage: PushStage::ReadingHead, ..run },
                    PushAction::ReadHeadBranch,
                ),
                GitEvent::Failed(cause) => {
                    let error = describe_failure(
                        ErrorKind::GitState,
                        "Failed to open Git repository",
                        cause.as_str(),
                    );
                    Self::fail(run, error)
                },
                _ => Self::fail(run, describe_out_of_turn(ErrorKind::GitState)),
            },
            PushStage::ReadingHead => match event {
                GitEvent::Text(Some(branch)) => (
                    PushRun {
                        stage: PushStage::FindingRemote,
                        refspec: Self::refspec(branch.as_str()),
                        ..run
                    },
                    PushAction::FindRemote { name: String::from_str("origin") },
                ),
                GitEvent::Text(None) => Self::fail(
                    run,
                    Error::new(ErrorKind::GitState, String::from_str("Failed to get branch name")),
                ),
                GitEvent::Failed(cause) => {
                    let error = describe_failure(
                        ErrorKind::GitState,
                        "Failed to get HEAD",
                        cause.as_str(),
                    );
                    Self::fail(run, error)
                },
                _ => Self::fail(run, describe_out_of_turn(ErrorKind::GitState)),
            },
            PushStage::FindingRemote => match event {
                GitEvent::Text(url) => {
                    let has_token = run.github_token.is_some();
                    let address = match &url {
                        Some(u) => Self::address(u.as_str(), has_token),
                        None => Self::address("", has_token),
                    };
                    match address {
                        Some(address) => (
                            PushRun { stage: PushStage::CreatingRemote, ..run },
                            PushAction::CreateAnonymousRemote { url: address },
                        ),
                        None => Self::push_now(run),
                    }
                },
                GitEvent::Failed(cause) => {
                    let error = describe_failure(
                        ErrorKind::GitState,
                        "Failed to find remote 'origin'",
                        cause.as_str(),
                    );
                    Self::fail(run, error)
                },
                _ => Self::fail(run, describe_out_of_turn(ErrorKind::GitState)),
            },
            PushStage::CreatingRemote => match event {
                GitEvent::Completed => Self::push_now(run),
                GitEvent::Failed(cause) => {
                    let error = describe_failure(
                        ErrorKind::GitState,
                        "Failed to create anonymous remote",
                        cause.as_str(),
                    );
                    Self::fail(run, error)
                },
                _ => Self::fail(run, describe_out_of_turn(ErrorKind::GitState)),
            },
            PushStage::Pushing => match event {
                GitEvent::Completed => (
                    PushRun { stage: PushStage::Closed, ..run },
                    PushAction::Finish,
                ),
                GitEvent::Failed(cause) => {
                    let error = describe_failure(
                        ErrorKind::GitState,
                        "Failed to push changes",
                        cause.as_str(),
                    );
                    Self::fail(run, error)
                },
                _ => Self::fail(run, describe_out_of_turn(ErrorKind::GitState)),
            },
            PushStage::Closed => Self::fail(run, describe_out_of_turn(ErrorKind::GitState)),
        }
    }
}

} // verus!
