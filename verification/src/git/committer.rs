//! Committing one file: the steps from opening the repository to the new
//! commit on `HEAD`.
//!
//! The caller carries out each step and reports its outcome;
//! [`GitCommitter::commit_changes`] names the first step and
//! [`GitCommitter::step`] the one that follows. Every failure is fatal.

use vstd::prelude::*;
use vstd::string::StringExecFns;

use crate::error::{
    describe_failure, describe_out_of_turn, failure, out_of_turn, Error, ErrorKind, ErrorView,
};
use crate::git::event::{GitEvent, GitEventView};

verus! {

/// The step whose outcome is awaited.
#[derive(Clone, Copy, Debug, PartialEq, Eq, Structural)]
pub enum CommitStage {
    Opening,
    ReadingIndex,
    Staging,
    WritingIndex,
    WritingTree,
    FindingTree,
    ReadingHead,
    ReadingParent,
    Signing,
    Committing,
    /// Finished or failed: no further outcome is awaited.
    Closed,
}

impl CommitStage {
    /// The stage that follows when the awaited step has completed.
    pub open spec fn following(self) -> CommitStage {
        match self {
            CommitStage::Opening => CommitStage::ReadingIndex,
            CommitStage::ReadingIndex => CommitStage::Staging,
            CommitStage::Staging => CommitStage::WritingIndex,
            CommitStage::WritingIndex => CommitStage::WritingTree,
            CommitStage::WritingTree => CommitStage::FindingTree,
            CommitStage::FindingTree => CommitStage::ReadingHead,
            CommitStage::ReadingHead => CommitStage::ReadingParent,
            CommitStage::ReadingParent => CommitStage::Signing,
            CommitStage::Signing => CommitStage::Committing,
            CommitStage::Committing => CommitStage::Closed,
            CommitStage::Closed => CommitStage::Closed,
        }
    }

    /// How the failure of the awaited step is named.
    pub open spec fn failure_label(self) -> Seq<char> {
        match self {
            CommitStage::Opening => "Failed to open Git repository"@,
            CommitStage::ReadingIndex => "Failed to get Git index"@,
            CommitStage::Staging => "Failed to add file to staging area"@,
            CommitStage::WritingIndex => "Failed to write index"@,
            CommitStage::WritingTree => "Failed to create tree"@,
            CommitStage::FindingTree => "Failed to find tree"@,
            CommitStage::ReadingHead => "Failed to get HEAD"@,
            CommitStage::ReadingParent => "Failed to get parent commit"@,
            CommitStage::Signing => "Failed to create signature"@,
            CommitStage::Committing => "Failed to create commit"@,
            CommitStage::Closed => ""@,
        }
    }

    #[verifier::when_used_as_spec(following)]
    pub fn next(self) -> (stage: CommitStage)
        ensures
            stage == self.following(),
    {
        match self {
            CommitStage::Opening => CommitStage::ReadingIndex,
            CommitStage::ReadingIndex => CommitStage::Staging,
            CommitStage::Staging => CommitStage::WritingIndex,
            CommitStage::WritingIndex => CommitStage::WritingTree,
            CommitStage::WritingTree => CommitStage::FindingTree,
            CommitStage::FindingTree => CommitStage::ReadingHead,
            CommitStage::ReadingHead => CommitStage::ReadingParent,
            CommitStage::ReadingParent => CommitStage::Signing,
            CommitStage::Signing => CommitStage::Committing,
            CommitStage::Committing => CommitStage::Closed,
            CommitStage::Closed => CommitStage::Closed,
        }
    }

    pub fn label(self) -> (label: &'static str)
        ensures
            label@ == self.failure_label(),
    {
        match self {
            CommitStage::Opening => "Failed to open Git repository",
            CommitStage::ReadingIndex => "Failed to get Git index",
            CommitStage::Staging => "Failed to add file to staging area",
            CommitStage::WritingIndex => "Failed to write index",
            CommitStage::WritingTree => "Failed to create tree",
            CommitStage::FindingTree => "Failed to find tree",
            CommitStage::ReadingHead => "Failed to get HEAD",
            CommitStage::ReadingParent => "Failed to get parent commit",
            CommitStage::Signing => "Failed to create signature",
            CommitStage::Committing => "Failed to create commit",
            CommitStage::Closed => "",
        }
    }
}

/// How far the commit has come, and what is being committed.
#[derive(Clone, Debug, PartialEq, Eq)]
pub struct CommitRun {
    pub stage: CommitStage,
    /// The one path that is staged.
    pub file_path: String,
    pub commit_message: String,
    pub user_name: String,
    pub user_email: String,
}

/// A commit under way, with its strings as sequences of characters.
pub struct CommitRunView {
    pub stage: CommitStage,
    pub file_path: Seq<char>,
    pub commit_message: Seq<char>,
    pub user_name: Seq<char>,
    pub user_email: Seq<char>,
}

impl View for CommitRun {
    type V = CommitRunView;

    open spec fn view(&self) -> CommitRunView {
        CommitRunView {
            stage: self.stage,
            file_path: self.file_path@,
            commit_message: self.commit_message@,
            user_name: self.user_name@,
            user_email: self.user_email@,
        }
    }
}

/// The step that the caller is asked to carry out next.
#[derive(Clone, Debug, PartialEq, Eq)]
pub enum CommitAction {
    /// Open the repository in the current directory.
    OpenRepository,
    /// Read the index of the repository.
    ReadIndex,
    /// Add the one file `path` to the index, and nothing else.
    StagePath { path: String },
    /// Write the index to disk.
    WriteIndex,
    /// Write the index as a tree.
    WriteTree,
    /// Look up that tree.
    FindTree,
    /// Read `HEAD`.
    ReadHead,
    /// Read the commit that `HEAD` points at: the one parent of the new
    /// commit. A branch without a commit makes this step fail.
    ReadParentCommit,
    /// Make the signature of author and committer, at the current time.
    MakeSignature { name: String, email: String },
    /// Create the commit on top of the parent and move `reference` to it.
    Commit { reference: String, message: String },
    /// The commit exists.
    Finish,
    /// Give up with this error.
    Fail(Error),
}

/// A step, with its strings as sequences of characters.
pub enum CommitActionView {
    OpenRepository,
    ReadIndex,
    StagePath { path: Seq<char> },
    WriteIndex,
    WriteTree,
    FindTree,
    ReadHead,
    ReadParentCommit,
    MakeSignature { name: Seq<char>, email: Seq<char> },
    Commit { reference: Seq<char>, message: Seq<char> },
    Finish,
    Fail(ErrorView),
}

impl View for CommitAction {
    type V = CommitActionView;

    open spec fn view(&self) -> CommitActionView {
        match self {
            CommitAction::OpenRepository => CommitActionView::OpenRepository,
            CommitAction::ReadIndex => CommitActionView::ReadIndex,
            CommitAction::StagePath { path } => CommitActionView::StagePath { path: path@ },
            CommitAction::WriteIndex => CommitActionView::WriteIndex,
            CommitAction::WriteTree => CommitActionView::WriteTree,
            CommitAction::FindTree => CommitActionView::FindTree,
            CommitAction::ReadHead => CommitActionView::ReadHead,
            CommitAction::ReadParentCommit => CommitActionView::ReadParentCommit,
            CommitAction::MakeSignature { name, email } => CommitActionView::MakeSignature {
                name: name@,
                email: email@,
            },
            CommitAction::Commit { reference, message } => CommitActionView::Commit {
                reference: reference@,
                message: message@,
            },
            CommitAction::Finish => CommitActionView::Finish,
            CommitAction::Fail(e) => CommitActionView::Fail(e@),
        }
    }
}

/// The step whose outcome the stage `stage` of the commit `s` awaits.
pub open spec fn commit_action(s: CommitRunView, stage: CommitStage) -> CommitActionView {
    match stage {
        CommitStage::Opening => CommitActionView::OpenRepository,
        CommitStage::ReadingIndex => CommitActionView::ReadIndex,
        CommitStage::Staging => CommitActionView::StagePath { path: s.file_path },
        CommitStage::WritingIndex => CommitActionView::WriteIndex,
        CommitStage::WritingTree => CommitActionView::WriteTree,
        CommitStage::FindingTree => CommitActionView::FindTree,
        CommitStage::ReadingHead => CommitActionView::ReadHead,
        CommitStage::ReadingParent => CommitActionView::ReadParentCommit,
        CommitStage::Signing => CommitActionView::MakeSignature {
            name: s.user_name,
            email: s.user_email,
        },
        CommitStage::Committing => CommitActionView::Commit {
            reference: "HEAD"@,
            message: s.commit_message,
        },
        CommitStage::Closed => CommitActionView::Finish,
    }
}

/// The first step of a commit: open the repository.
pub open spec fn commit_first(
    file_path: Seq<char>,
    commit_message: Seq<char>,
    user_name: Seq<char>,
    user_email: Seq<char>,
) -> (CommitRunView, CommitActionView) {
    (
        CommitRunView {
            stage: CommitStage::Opening,
            file_path,
            commit_message,
            user_name,
            user_email,
        },
        CommitActionView::OpenRepository,
    )
}

/// The commit after the outcome `e` of the step that `s` awaits, and the
/// step to carry out next: the following one when the step completed, and
/// none when it failed.
pub open spec fn commit_next(s: CommitRunView, e: GitEventView) -> (
    CommitRunView,
    CommitActionView,
) {
    let closed = CommitRunView { stage: CommitStage::Closed, ..s };
    if s.stage == CommitStage::Closed {
        (closed, CommitActionView::Fail(out_of_turn(ErrorKind::GitState)))
    } else {
        match e {
            GitEventView::Completed => (
                CommitRunView { stage: s.stage.following(), ..s },
                commit_action(s, s.stage.following()),
            ),
            GitEventView::Failed(cause) => (
                closed,
                CommitActionView::Fail(
                    failure(ErrorKind::GitState, s.stage.failure_label(), cause),
                ),
            ),
            _ => (closed, CommitActionView::Fail(out_of_turn(ErrorKind::GitState))),
        }
    }
}

pub struct GitCommitter;

impl GitCommitter {
    /// Begins the commit of the one file `file_path` with the message
    /// `commit_message`, signed by `user_name` and `user_email`, and names
    /// its first step.
    pub fn commit_changes(
        file_path: &str,
        commit_message: &str,
        user_name: &str,
        user_email: &str,
    ) -> (r: (CommitRun, CommitAction))
        ensures
            (r.0@, r.1@) == commit_first(file_path@, commit_message@, user_name@, user_email@),
    {
        (
            CommitRun {
                stage: CommitStage::Opening,
                file_path: String::from_str(file_path),
                commit_message: String::from_str(commit_message),
                user_name: String::from_str(user_name),
                user_email: String::from_str(user_email),
            },
            CommitAction::OpenRepository,
        )
    }

    fn action(run: &CommitRun, stage: CommitStage) -> (action: CommitAction)
        ensures
            action@ == commit_action(run@, stage),
    {
        match stage {
            CommitStage::Opening => CommitAction::OpenRepository,
            CommitStage::ReadingIndex => CommitAction::ReadIndex,
            CommitStage::Staging => CommitAction::StagePath { path: run.file_path.clone() },
            CommitStage::WritingIndex => CommitAction::WriteIndex,
            CommitStage::WritingTree => CommitAction::WriteTree,
            CommitStage::FindingTree => CommitAction::FindTree,
            CommitStage::ReadingHead => CommitAction::ReadHead,
            CommitStage::ReadingParent => CommitAction::ReadParentCommit,
            CommitStage::Signing => CommitAction::MakeSignature {
                name: run.user_name.clone(),
                email: run.user_email.clone(),
            },
            CommitStage::Committing => CommitAction::Commit {
                reference: String::from_str("HEAD"),
                message: run.commit_message.clone(),
            },
            CommitStage::Closed => CommitAction::Finish,
        }
    }

    /// Takes the outcome `event` of the step that `run` awaits, and names
    /// the step to carry out next.
    pub fn step(run: CommitRun, event: GitEvent) -> (r: (CommitRun, CommitAction))
        ensures
            (r.0@, r.1@) == commit_next(run@, event@),
    {
        let stage = run.stage;
        if stage == CommitStage::Closed {
            return (run, CommitAction::Fail(describe_out_of_turn(ErrorKind::GitState)));
        }
        match event {
            GitEvent::Completed => {
                let following = stage.next();
                let action = Self::action(&run, following);
                (CommitRun { stage: following, ..run }, action)
            },
            GitEvent::Failed(cause) => {
                let error = describe_failure(ErrorKind::GitState, stage.label(), cause.as_str());
                (CommitRun { stage: CommitStage::Closed, ..run }, CommitAction::Fail(error))
            },
            _ => (
                CommitRun { stage: CommitStage::Closed, ..run },
                CommitAction::Fail(describe_out_of_turn(ErrorKind::GitState)),
            ),
        }
    }
}

/// A commit whose steps all complete carries out the ten steps in their
/// order and then finishes: after `n` completed steps the commit awaits the
/// stage that is `n` stages after the first.
pub proof fn lemma_commit_runs_in_order(s: CommitRunView)
    requires
        s.stage == CommitStage::Opening,
    ensures
        ({
            let done = GitEventView::Completed;
            let s1 = commit_next(s, done);
            let s2 = commit_next(s1.0, done);
            let s3 = commit_next(s2.0, done);
            let s4 = commit_next(s3.0, done);
            let s5 = commit_next(s4.0, done);
            let s6 = commit_next(s5.0, done);
            let s7 = commit_next(s6.0, done);
            let s8 = commit_next(s7.0, done);
            let s9 = commit_next(s8.0, done);
            let s10 = commit_next(s9.0, done);
            &&& s1.1 == CommitActionView::ReadIndex
            &&& s2.1 == CommitActionView::StagePath { path: s.file_path }
            &&& s3.1 == CommitActionView::WriteIndex
            &&& s4.1 == CommitActionView::WriteTree
            &&& s5.1 == CommitActionView::FindTree
            &&& s6.1 == CommitActionView::ReadHead
            &&& s7.1 == CommitActionView::ReadParentCommit
            &&& s8.1 == CommitActionView::MakeSignature { name: s.user_name, email: s.user_email }
            &&& s9.1 == CommitActionView::Commit { reference: "HEAD"@, message: s.commit_message }
            &&& s10.1 == CommitActionView::Finish
            &&& s10.0.stage == CommitStage::Closed
        }),
{
}

} // verus!
