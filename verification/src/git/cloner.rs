//! Acquiring a working tree: the address a repository locator stands for,
//! and the steps that turn the current directory into a checkout of it.
//!
//! The steps themselves touch the disk and the network, so the caller
//! carries them out. What is decided here is which step comes next:
//! [`GitCloner::ensure_repository`] names the first one, and
//! [`GitCloner::step`] takes the outcome of a step and names the one that
//! follows, until it says to finish or to fail.

use vstd::prelude::*;
use vstd::string::{StrSliceExecFns, StringExecFns};

use crate::error::{
    describe_failure, describe_out_of_turn, failure, out_of_turn, Error, ErrorKind, ErrorView,
};
use crate::git::credentials::{credential_of, fetch_credential, Credential, CredentialView};
use crate::git::event::{GitEvent, GitEventView};
use crate::text::{
    chars_of, contains, ends_with, find_from, has_char, has_prefix, has_suffix, occurs_at,
    starts_with, text_of,
};

verus! {

/// `locator` names its transport: it holds `://`.
pub open spec fn has_scheme(locator: Seq<char>) -> bool {
    contains(locator, "://"@)
}

/// `locator` is the shorthand `owner/repo`: it holds a slash and names no
/// transport.
pub open spec fn is_shorthand(locator: Seq<char>) -> bool {
    locator.contains('/') && !has_scheme(locator)
}

/// The address that `locator` is fetched from.
///
/// A `git://github.com/` address is fetched over `https://`; a shorthand
/// `owner/repo` stands for the repository of that name on GitHub; an
/// `https://github.com/` address ends in `.git`; anything else is taken as
/// it is.
pub open spec fn clone_url(locator: Seq<char>) -> Seq<char> {
    if starts_with(locator, "git://github.com/"@) {
        "https://"@ + locator.skip("git://"@.len() as int)
    } else if is_shorthand(locator) {
        "https://github.com/"@ + locator + ".git"@
    } else if starts_with(locator, "https://github.com/"@) && !ends_with(locator, ".git"@) {
        locator + ".git"@
    } else {
        locator
    }
}

/// The branch that a fetch asks for.
#[derive(Clone, Copy, Debug, PartialEq, Eq, Structural)]
pub enum Branch {
    Main,
    Master,
}

impl Branch {
    /// The name of the branch.
    pub open spec fn name(self) -> Seq<char> {
        match self {
            Branch::Main => "main"@,
            Branch::Master => "master"@,
        }
    }

    /// The name of the branch.
    pub fn as_str(self) -> (name: &'static str)
        ensures
            name@ == self.name(),
    {
        match self {
            Branch::Main => "main",
            Branch::Master => "master",
        }
    }
}

/// The step whose outcome is awaited.
#[derive(Clone, Copy, Debug, PartialEq, Eq, Structural)]
pub enum AcquireStage {
    /// Asked whether the directory is a repository already.
    Probing,
    /// Asked whether the directory is empty.
    Inspecting,
    Cloning,
    Initializing,
    FindingRemote,
    AddingRemote,
    FetchingMain,
    FetchingMaster,
    FindingFetchHead,
    ReadingFetchCommit,
    FindingCommit,
    Resetting,
    Branching,
    /// Finished or failed: no further outcome is awaited.
    Closed,
}

/// How far the acquisition has come.
#[derive(Clone, Debug, PartialEq, Eq)]
pub struct Acquisition {
    pub stage: AcquireStage,
    /// The repository locator that was supplied, if any.
    pub repository: Option<String>,
    /// The service token that was supplied, if any.
    pub token: Option<String>,
    /// The address to fetch from; empty until the locator has been read.
    pub url: String,
    /// The branch that was fetched; `Main` until a fetch has succeeded.
    pub branch: Branch,
}

/// An acquisition, with its strings as sequences of characters.
pub struct AcquisitionView {
    pub stage: AcquireStage,
    pub repository: Option<Seq<char>>,
    pub token: Option<Seq<char>>,
    pub url: Seq<char>,
    pub branch: Branch,
}

impl View for Acquisition {
    type V = AcquisitionView;

    open spec fn view(&self) -> AcquisitionView {
        AcquisitionView {
            stage: self.stage,
            repository: text_of(self.repository),
            token: text_of(self.token),
            url: self.url@,
            branch: self.branch,
        }
    }
}

/// The step that the caller is asked to carry out next.
#[derive(Clone, Debug, PartialEq, Eq)]
pub enum AcquireAction {
    /// Mark the current directory as safe, as far as that is possible, and
    /// answer whether it opens as a repository.
    ProbeRepository,
    /// Answer whether the current directory is empty.
    InspectDirectory,
    /// Clone `url` into the current directory, `depth` commits deep.
    Clone { url: String, depth: u32, credential: Option<Credential> },
    /// Create a repository in the current directory, or reuse the one that
    /// is there, with `initial_head` as the branch of a new one.
    InitRepository { initial_head: String },
    /// Answer whether the repository has a remote called `name`.
    FindRemote { name: String },
    /// Add the remote `name` with the address `url`.
    AddRemote { name: String, url: String },
    /// Fetch `branch` from the remote, `depth` commits deep.
    Fetch { branch: String, depth: u32, credential: Option<Credential> },
    /// Look up the reference `FETCH_HEAD`.
    FindFetchHead,
    /// Read the commit that `FETCH_HEAD` points at.
    ReadFetchCommit,
    /// Look up that commit in the repository.
    FindCommit,
    /// Reset the index and the working tree to that commit.
    ResetHard,
    /// Point the local branch `name` at that commit, replacing a branch of
    /// that name if `force` is set.
    CreateBranch { name: String, force: bool },
    /// The directory holds a usable repository.
    Finish,
    /// Give up with this error.
    Fail(Error),
}

/// A step, with its strings as sequences of characters.
pub enum AcquireActionView {
    ProbeRepository,
    InspectDirectory,
    Clone { url: Seq<char>, depth: u32, credential: Option<CredentialView> },
    InitRepository { initial_head: Seq<char> },
    FindRemote { name: Seq<char> },
    AddRemote { name: Seq<char>, url: Seq<char> },
    Fetch { branch: Seq<char>, depth: u32, credential: Option<CredentialView> },
    FindFetchHead,
    ReadFetchCommit,
    FindCommit,
    ResetHard,
    CreateBranch { name: Seq<char>, force: bool },
    Finish,
    Fail(ErrorView),
}

impl View for AcquireAction {
    type V = AcquireActionView;

    open spec fn view(&self) -> AcquireActionView {
        match self {
            AcquireAction::ProbeRepository => AcquireActionView::ProbeRepository,
            AcquireAction::InspectDirectory => AcquireActionView::InspectDirectory,
            AcquireAction::Clone { url, depth, credential } => AcquireActionView::Clone {
                url: url@,
                depth: *depth,
                credential: credential_of(*credential),
            },
            AcquireAction::InitRepository { initial_head } => AcquireActionView::InitRepository {
                initial_head: initial_head@,
            },
            AcquireAction::FindRemote { name } => AcquireActionView::FindRemote { name: name@ },
            AcquireAction::AddRemote { name, url } => AcquireActionView::AddRemote {
                name: name@,
                url: url@,
            },
            AcquireAction::Fetch { branch, depth, credential } => AcquireActionView::Fetch {
                branch: branch@,
                depth: *depth,
                credential: credential_of(*credential),
            },
            AcquireAction::FindFetchHead => AcquireActionView::FindFetchHead,
            AcquireAction::ReadFetchCommit => AcquireActionView::ReadFetchCommit,
            AcquireAction::FindCommit => AcquireActionView::FindCommit,
            AcquireAction::ResetHard => AcquireActionView::ResetHard,
            AcquireAction::CreateBranch { name, force } => AcquireActionView::CreateBranch {
                name: name@,
                force: *force,
            },
            AcquireAction::Finish => AcquireActionView::Finish,
            AcquireAction::Fail(e) => AcquireActionView::Fail(e@),
        }
    }
}

/// How many commits deep a clone or a fetch goes.
pub const SHALLOW_DEPTH: u32 = 1;

/// The error when the directory is no repository and no locator says what
/// to fetch.
pub open spec fn no_repository() -> ErrorView {
    ErrorView {
        kind: ErrorKind::Configuration,
        message: "Not in a git repository and no repository parameter provided. Either use checkout action or provide repository parameter."@,
    }
}

/// The acquisition `s` at the stage `stage`.
pub open spec fn at_stage(s: AcquisitionView, stage: AcquireStage) -> AcquisitionView {
    AcquisitionView { stage, ..s }
}

/// The fetch of `branch` with the credential that `s` has.
pub open spec fn fetch_of(s: AcquisitionView, branch: Branch) -> AcquireActionView {
    AcquireActionView::Fetch {
        branch: branch.name(),
        depth: SHALLOW_DEPTH,
        credential: fetch_credential(s.token),
    }
}

/// Giving up at `s` with the error `e`.
pub open spec fn give_up(s: AcquisitionView, e: ErrorView) -> (AcquisitionView, AcquireActionView) {
    (at_stage(s, AcquireStage::Closed), AcquireActionView::Fail(e))
}

/// What follows the outcome of a step that either completes or fails
/// fatally: on `Completed` the acquisition goes on with `then`, on `Failed`
/// it gives up with an error of kind `kind` that names the step as `what`.
pub open spec fn completed_or_fatal(
    s: AcquisitionView,
    e: GitEventView,
    then: (AcquisitionView, AcquireActionView),
    kind: ErrorKind,
    what: Seq<char>,
) -> (AcquisitionView, AcquireActionView) {
    match e {
        GitEventView::Completed => then,
        GitEventView::Failed(cause) => give_up(s, failure(kind, what, cause)),
        _ => give_up(s, out_of_turn(ErrorKind::GitState)),
    }
}

/// The first step of an acquisition: ask whether the directory is a
/// repository already.
pub open spec fn acquire_first(repository: Option<Seq<char>>, token: Option<Seq<char>>) -> (
    AcquisitionView,
    AcquireActionView,
) {
    (
        AcquisitionView {
            stage: AcquireStage::Probing,
            repository,
            token,
            url: Seq::empty(),
            branch: Branch::Main,
        },
        AcquireActionView::ProbeRepository,
    )
}

/// The acquisition after the outcome `e` of the step that `s` awaits, and
/// the step to carry out next.
///
/// A directory that is a repository already is left as it is. Otherwise a
/// locator is needed. An empty directory is cloned into. A directory that
/// holds files gets a repository and the remote `origin`; the branch `main`
/// is fetched, or `master` where that fails; the working tree is reset to
/// the fetched commit, and the local branch of the fetched name is pointed
/// at it.
pub open spec fn acquire_next(s: AcquisitionView, e: GitEventView) -> (
    AcquisitionView,
    AcquireActionView,
) {
    match s.stage {
        AcquireStage::Probing => match e {
            GitEventView::Answer(true) => (
                at_stage(s, AcquireStage::Closed),
                AcquireActionView::Finish,
            ),
            GitEventView::Answer(false) => match s.repository {
                Some(locator) if locator.len() > 0 => (
                    AcquisitionView {
                        stage: AcquireStage::Inspecting,
                        url: clone_url(locator),
                        ..s
                    },
                    AcquireActionView::InspectDirectory,
                ),
                _ => give_up(s, no_repository()),
            },
            _ => give_up(s, out_of_turn(ErrorKind::GitState)),
        },
        AcquireStage::Inspecting => match e {
            GitEventView::Answer(true) => (
                at_stage(s, AcquireStage::Cloning),
                AcquireActionView::Clone {
                    url: s.url,
                    depth: SHALLOW_DEPTH,
                    credential: fetch_credential(s.token),
                },
            ),
            GitEventView::Answer(false) => (
                at_stage(s, AcquireStage::Initializing),
                AcquireActionView::InitRepository { initial_head: Branch::Main.name() },
            ),
            _ => give_up(s, out_of_turn(ErrorKind::GitState)),
        },
        AcquireStage::Cloning => completed_or_fatal(
            s,
            e,
            (at_stage(s, AcquireStage::Closed), AcquireActionView::Finish),
            ErrorKind::Network,
            "Failed to clone repository"@,
        ),
        AcquireStage::Initializing => completed_or_fatal(
            s,
            e,
            (
                at_stage(s, AcquireStage::FindingRemote),
                AcquireActionView::FindRemote { name: "origin"@ },
            ),
            ErrorKind::GitState,
            "Failed to init repository"@,
        ),
        AcquireStage::FindingRemote => match e {
            GitEventView::Answer(true) => (
                at_stage(s, AcquireStage::FetchingMain),
                fetch_of(s, Branch::Main),
            ),
            GitEventView::Answer(false) | GitEventView::Failed(_) => (
                at_stage(s, AcquireStage::AddingRemote),
                AcquireActionView::AddRemote { name: "origin"@, url: s.url },
            ),
            _ => give_up(s, out_of_turn(ErrorKind::GitState)),
        },
        AcquireStage::AddingRemote => completed_or_fatal(
            s,
            e,
            (at_stage(s, AcquireStage::FetchingMain), fetch_of(s, Branch::Main)),
            ErrorKind::GitState,
            "Failed to add remote"@,
        ),
        AcquireStage::FetchingMain => match e {
            GitEventView::Completed => (
                AcquisitionView { stage: AcquireStage::FindingFetchHead, branch: Branch::Main, ..s },
                AcquireActionView::FindFetchHead,
            ),
            GitEventView::Failed(_) => (
                at_stage(s, AcquireStage::FetchingMaster),
                fetch_of(s, Branch::Master),
            ),
            _ => give_up(s, out_of_turn(ErrorKind::GitState)),
        },
        AcquireStage::FetchingMaster => completed_or_fatal(
            s,
            e,
            (
                AcquisitionView {
                    stage: AcquireStage::FindingFetchHead,
                    branch: Branch::Master,
                    ..s
                },
                AcquireActionView::FindFetchHead,
            ),
            ErrorKind::Network,
            "Failed to fetch from remote"@,
        ),
        AcquireStage::FindingFetchHead => completed_or_fatal(
            s,
            e,
            (at_stage(s, AcquireStage::ReadingFetchCommit), AcquireActionView::ReadFetchCommit),
            ErrorKind::GitState,
            "Failed to find FETCH_HEAD"@,
        ),
        AcquireStage::ReadingFetchCommit => completed_or_fatal(
            s,
            e,
            (at_stage(s, AcquireStage::FindingCommit), AcquireActionView::FindCommit),
            ErrorKind::GitState,
            "Failed to get fetch commit"@,
        ),
        AcquireStage::FindingCommit => completed_or_fatal(
            s,
            e,
            (at_stage(s, AcquireStage::Resetting), AcquireActionView::ResetHard),
            ErrorKind::GitState,
            "Failed to find commit"@,
        ),
        AcquireStage::Resetting => completed_or_fatal(
            s,
            e,
            (
                at_stage(s, AcquireStage::Branching),
                AcquireActionView::CreateBranch { name: s.branch.name(), force: true },
            ),
            ErrorKind::GitState,
            "Failed to reset to commit"@,
        ),
        AcquireStage::Branching => match e {
            GitEventView::Completed | GitEventView::Failed(_) => (
                at_stage(s, AcquireStage::Closed),
                AcquireActionView::Finish,
            ),
            _ => give_up(s, out_of_turn(ErrorKind::GitState)),
        },
        AcquireStage::Closed => give_up(s, out_of_turn(ErrorKind::GitState)),
    }
}

pub struct GitCloner;

impl GitCloner {
    /// The address that `locator` is fetched from.
    pub fn clone_url(locator: &str) -> (url: String)
        ensures
            url@ == clone_url(locator@),
    {
        let chars = chars_of(locator);
        let len: usize = chars.len();
        if has_prefix(chars.as_slice(), chars_of("git://github.com/").as_slice()) {
            proof {
                reveal_strlit("git://github.com/");
                reveal_strlit("git://");
            }
            let skipped: usize = "git://".unicode_len();
            let mut url = String::from_str("https://");
            url.append(locator.substring_char(skipped, len));
            return url;
        }
        let scheme = find_from(chars.as_slice(), chars_of("://").as_slice(), 0);
        proof {
            if scheme is None {
                assert forall|i: int| !occurs_at(locator@, "://"@, i) by {}
            }
        }
        if has_char(chars.as_slice(), '/') && scheme.is_none() {
            let mut url = String::from_str("https://github.com/");
            url.append(locator);
            url.append(".git");
            return url;
        }
        if has_prefix(chars.as_slice(), chars_of("https://github.com/").as_slice()) && !has_suffix(
            chars.as_slice(),
            chars_of(".git").as_slice(),
        ) {
            let mut url = String::from_str(locator);
            url.append(".git");
            return url;
        }
        String::from_str(locator)
    }

    /// Begins an acquisition for the locator `repository` and the service
    /// token `token`, and names its first step.
    pub fn ensure_repository(repository: Option<String>, token: Option<String>) -> (r: (
        Acquisition,
        AcquireAction,
    ))
        ensures
            (r.0@, r.1@) == acquire_first(text_of(repository), text_of(token)),
    {
        (
            Acquisition {
                stage: AcquireStage::Probing,
                repository,
                token,
                url: String::new(),
                branch: Branch::Main,
            },
            AcquireAction::ProbeRepository,
        )
    }

    fn give_up(state: Acquisition, error: Error) -> (r: (Acquisition, AcquireAction))
        ensures
            (r.0@, r.1@) == give_up(state@, error@),
    {
        (Acquisition { stage: AcquireStage::Closed, ..state }, AcquireAction::Fail(error))
    }

    fn fetch(state: &Acquisition, branch: Branch) -> (action: AcquireAction)
        ensures
            action@ == fetch_of(state@, branch),
    {
        let credential = match &state.token {
            Some(t) => Credential::for_fetch(Some(t.as_str())),
            None => Credential::for_fetch(None),
        };
        AcquireAction::Fetch {
            branch: String::from_str(branch.as_str()),
            depth: SHALLOW_DEPTH,
            credential,
        }
    }

    fn completed_or_fatal(
        state: Acquisition,
        event: GitEvent,
        then: (Acquisition, AcquireAction),
        kind: ErrorKind,
        what: &str,
    ) -> (r: (Acquisition, AcquireAction))
        ensures
            (r.0@, r.1@) == completed_or_fatal(state@, event@, (then.0@, then.1@), kind, what@),
    {
        match event {
            GitEvent::Completed => then,
            GitEvent::Failed(cause) => {
                let error = describe_failure(kind, what, cause.as_str());
                Self::give_up(state, error)
            },
            _ => Self::give_up(state, describe_out_of_turn(ErrorKind::GitState)),
        }
    }

    fn at_stage(state: &Acquisition, stage: AcquireStage) -> (next: Acquisition)
        ensures
            next@ == at_stage(state@, stage),
    {
        Acquisition {
            stage,
            repository: state.repository.clone(),
            token: state.token.clone(),
            url: state.url.clone(),
            branch: state.branch,
        }
    }

    /// Takes the outcome `event` of the step that `state` awaits, and names
    /// the step to carry out next.
    pub fn step(state: Acquisition, event: GitEvent) -> (r: (Acquisition, AcquireAction))
        ensures
            (r.0@, r.1@) == acquire_next(state@, event@),
    {
        match state.stage {
            AcquireStage::Probing => match event {
                GitEvent::Answer(true) => (
                    Self::at_stage(&state, AcquireStage::Closed),
                    AcquireAction::Finish,
                ),
                GitEvent::Answer(false) => {
                    let url = match &state.repository {
                        Some(locator) => {
                            if locator.as_str().is_empty() {
                                None
                            } else {
                                Some(Self::clone_url(locator.as_str()))
                            }
                        },
                        None => None,
                    };
                    match url {
                        Some(url) => (
                            Acquisition { stage: AcquireStage::Inspecting, url, ..state },
                            AcquireAction::InspectDirectory,
                        ),
                        None => Self::give_up(
                            state,
                            Error::new(
                                ErrorKind::Configuration,
                                String::from_str(
                                    "Not in a git repository and no repository parameter provided. Either use checkout action or provide repository parameter.",
                                ),
                            ),
                        ),
                    }
                },
                _ => Self::give_up(state, describe_out_of_turn(ErrorKind::GitState)),
            },
            AcquireStage::Inspecting => match event {
                GitEvent::Answer(true) => {
                    let credential = match &state.token {
                        Some(t) => Credential::for_fetch(Some(t.as_str())),
                        None => Credential::for_fetch(None),
                    };
                    let action = AcquireAction::Clone {
                        url: state.url.clone(),
                        depth: SHALLOW_DEPTH,
                        credential,
                    };
                    (Self::at_stage(&state, AcquireStage::Cloning), action)
                },
                GitEvent::Answer(false) => (
                    Self::at_stage(&state, AcquireStage::Initializing),
                    AcquireAction::InitRepository {
                        initial_head: String::from_str(Branch::Main.as_str()),
                    },
                ),
                _ => Self::give_up(state, describe_out_of_turn(ErrorKind::GitState)),
            },
            AcquireStage::Cloning => {
                let then = (Self::at_stage(&state, AcquireStage::Closed), AcquireAction::Finish);
                Self::completed_or_fatal(
                    state,
                    event,
                    then,
                    ErrorKind::Network,
                    "Failed to clone repository",
                )
            },
            AcquireStage::Initializing => {
                let then = (
                    Self::at_stage(&state, AcquireStage::FindingRemote),
                    AcquireAction::FindRemote { name: String::from_str("origin") },
                );
                Self::completed_or_fatal(
                    state,
                    event,
                    then,
                    ErrorKind::GitState,
                    "Failed to init repository",
                )
            },
            AcquireStage::FindingRemote => match event {
                GitEvent::Answer(true) => (
                    Self::at_stage(&state, AcquireStage::FetchingMain),
                    Self::fetch(&state, Branch::Main),
                ),
                GitEvent::Answer(false) | GitEvent::Failed(_) => (
                    Self::at_stage(&state, AcquireStage::AddingRemote),
                    AcquireAction::AddRemote {
                        name: String::from_str("origin"),
                        url: state.url.clone(),
                    },
                ),
                _ => Self::give_up(state, describe_out_of_turn(ErrorKind::GitState)),
            },
            AcquireStage::AddingRemote => {
                let then = (
                    Self::at_stage(&state, AcquireStage::FetchingMain),
                    Self::fetch(&state, Branch::Main),
                );
                Self::completed_or_fatal(
                    state,
                    event,
                    then,
                    ErrorKind::GitState,
                    "Failed to add remote",
                )
            },
            AcquireStage::FetchingMain => match event {
                GitEvent::Completed => (
                    Acquisition {
                        stage: AcquireStage::FindingFetchHead,
                        branch: Branch::Main,
                        ..state
                    },
                    AcquireAction::FindFetchHead,
                ),
                GitEvent::Failed(_) => (
                    Self::at_stage(&state, AcquireStage::FetchingMaster),
                    Self::fetch(&state, Branch::Master),
                ),
                _ => Self::give_up(state, describe_out_of_turn(ErrorKind::GitState)),
            },
            AcquireStage::FetchingMaster => {
                let mut fetched = Self::at_stage(&state, AcquireStage::FindingFetchHead);
                fetched.branch = Branch::Master;
                Self::completed_or_fatal(
                    state,
                    event,
                    (fetched, AcquireAction::FindFetchHead),
                    ErrorKind::Network,
                    "Failed to fetch from remote",
                )
            },
            AcquireStage::FindingFetchHead => {
                let then = (
                    Self::at_stage(&state, AcquireStage::ReadingFetchCommit),
                    AcquireAction::ReadFetchCommit,
                );
                Self::completed_or_fatal(
                    state,
                    event,
                    then,
                    ErrorKind::GitState,
                    "Failed to find FETCH_HEAD",
                )
            },
            AcquireStage::ReadingFetchCommit => {
                let then = (
                    Self::at_stage(&state, AcquireStage::FindingCommit),
                    AcquireAction::FindCommit,
                );
                Self::completed_or_fatal(
                    state,
                    event,
                    then,
                    ErrorKind::GitState,
                    "Failed to get fetch commit",
                )
            },
            AcquireStage::FindingCommit => {
                let then = (
                    Self::at_stage(&state, AcquireStage::Resetting),
                    AcquireAction::ResetHard,
                );
                Self::completed_or_fatal(
                    state,
                    event,
                    then,
                    ErrorKind::GitState,
                    "Failed to find commit",
                )
            },
            AcquireStage::Resetting => {
                let then = (
                    Self::at_stage(&state, AcquireStage::Branching),
                    AcquireAction::CreateBranch {
                        name: String::from_str(state.branch.as_str()),
                        force: true,
                    },
                );
                Self::completed_or_fatal(
                    state,
                    event,
                    then,
                    ErrorKind::GitState,
                    "Failed to reset to commit",
                )
            },
            AcquireStage::Branching => match event {
                GitEvent::Completed | GitEvent::Failed(_) => (
                    Self::at_stage(&state, AcquireStage::Closed),
                    AcquireAction::Finish,
                ),
                _ => Self::give_up(state, describe_out_of_turn(ErrorKind::GitState)),
            },
            AcquireStage::Closed => Self::give_up(state, describe_out_of_turn(ErrorKind::GitState)),
        }
    }
}

/// The shorthand `owner/repo` is fetched from
/// `https://github.com/owner/repo.git`.
pub proof fn lemma_shorthand_is_expanded(owner: Seq<char>, repo: Seq<char>)
    requires
        !has_scheme(owner + "/"@ + repo),
    ensures
        clone_url(owner + "/"@ + repo) == "https://github.com/"@ + owner + "/"@ + repo + ".git"@,
{
    reveal_strlit("/");
    reveal_strlit("://");
    reveal_strlit("git://github.com/");
    let locator = owner + "/"@ + repo;
    assert(locator[owner.len() as int] == '/');
    assert(locator.contains('/'));
    if starts_with(locator, "git://github.com/"@) {
        assert(locator.subrange(0, "git://github.com/"@.len() as int).subrange(3, 6) =~= "://"@);
        assert(locator.subrange(3, 6) =~= locator.subrange(
            0,
            "git://github.com/"@.len() as int,
        ).subrange(3, 6));
        assert(occurs_at(locator, "://"@, 3));
    }
    assert("https://github.com/"@ + locator + ".git"@ =~= "https://github.com/"@ + owner + "/"@
        + repo + ".git"@);
}

/// The address `git://github.com/x` is fetched from `https://github.com/x`.
pub proof fn lemma_git_scheme_is_rewritten(rest: Seq<char>)
    ensures
        clone_url("git://github.com/"@ + rest) == "https://github.com/"@ + rest,
{
    reveal_strlit("git://github.com/");
    reveal_strlit("git://");
    reveal_strlit("https://github.com/");
    reveal_strlit("https://");
    let locator = "git://github.com/"@ + rest;
    assert(locator.subrange(0, "git://github.com/"@.len() as int) =~= "git://github.com/"@);
    assert("https://"@ + locator.skip("git://"@.len() as int) =~= "https://github.com/"@ + rest);
}

/// An address that names its transport and ends in `.git` is taken as it
/// is, unless it begins with `git://github.com/`.
pub proof fn lemma_dot_git_address_is_kept(locator: Seq<char>)
    requires
        has_scheme(locator),
        ends_with(locator, ".git"@),
        !starts_with(locator, "git://github.com/"@),
    ensures
        clone_url(locator) == locator,
{
}

/// A directory that is a repository already is left as it is: the
/// acquisition finishes at once, whatever the locator and the token.
pub proof fn lemma_existing_repository_is_kept(
    repository: Option<Seq<char>>,
    token: Option<Seq<char>>,
)
    ensures
        acquire_next(acquire_first(repository, token).0, GitEventView::Answer(true)).1
            == AcquireActionView::Finish,
{
}

/// Without a repository in the directory, a locator is needed: where none
/// is given, or an empty one, the acquisition fails before anything is
/// fetched; with one, the directory is looked at next.
pub proof fn lemma_locator_is_required(repository: Option<Seq<char>>, token: Option<Seq<char>>)
    ensures
        ({
            let next = acquire_next(acquire_first(repository, token).0, GitEventView::Answer(false));
            match repository {
                Some(locator) if locator.len() > 0 => {
                    &&& next.1 == AcquireActionView::InspectDirectory
                    &&& next.0.url == clone_url(locator)
                },
                _ => next.1 == AcquireActionView::Fail(no_repository()),
            }
        }),
{
}

/// An empty directory is cloned into, one commit deep, from the address
/// that the locator stands for; the token is offered if there is one. A
/// clone that completes ends the acquisition.
pub proof fn lemma_empty_directory_is_cloned_into(s: AcquisitionView)
    requires
        s.stage == AcquireStage::Inspecting,
    ensures
        ({
            let cloning = acquire_next(s, GitEventView::Answer(true));
            &&& cloning.1 == AcquireActionView::Clone {
                url: s.url,
                depth: 1,
                credential: fetch_credential(s.token),
            }
            &&& acquire_next(cloning.0, GitEventView::Completed).1 == AcquireActionView::Finish
        }),
{
}

/// Where the fetch of `main` fails, `master` is fetched; once that has
/// completed, the working tree is reset to the fetched commit and the local
/// branch `master` is pointed at it, and the acquisition finishes whether
/// or not the branch could be created.
pub proof fn lemma_master_is_the_fallback(
    s: AcquisitionView,
    cause: Seq<char>,
    branch_outcome: GitEventView,
)
    requires
        s.stage == AcquireStage::FetchingMain,
        branch_outcome is Completed || branch_outcome is Failed,
    ensures
        ({
            let done = GitEventView::Completed;
            let retry = acquire_next(s, GitEventView::Failed(cause));
            let fetched = acquire_next(retry.0, done);
            let found = acquire_next(fetched.0, done);
            let read = acquire_next(found.0, done);
            let located = acquire_next(read.0, done);
            let reset = acquire_next(located.0, done);
            let end = acquire_next(reset.0, branch_outcome);
            &&& retry.1 == fetch_of(s, Branch::Master)
            &&& fetched.1 == AcquireActionView::FindFetchHead
            &&& found.1 == AcquireActionView::ReadFetchCommit
            &&& read.1 == AcquireActionView::FindCommit
            &&& located.1 == AcquireActionView::ResetHard
            &&& reset.1 == AcquireActionView::CreateBranch { name: "master"@, force: true }
            &&& end.1 == AcquireActionView::Finish
        }),
{
}

/// Once an acquisition has said to finish or to fail, it is closed, and a
/// closed acquisition names no further step.
pub proof fn lemma_acquisition_ends(s: AcquisitionView, e: GitEventView)
    ensures
        ({
            let next = acquire_next(s, e);
            &&& (next.1 is Finish || next.1 is Fail) ==> next.0.stage == AcquireStage::Closed
            &&& s.stage == AcquireStage::Closed ==> next.1 is Fail && next.0.stage
                == AcquireStage::Closed
        }),
{
}

} // verus!
