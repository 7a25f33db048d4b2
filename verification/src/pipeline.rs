//! The order of a run: acquire the repository, check the markers, fetch
//! the statistics, update the document, and commit and push where that is
//! asked for and there is something to commit.
//!
//! Each stage is carried out by the caller. A stage that fails ends the
//! run with its error; there is no way back to an earlier stage.

use vstd::prelude::*;

verus! {

/// A stage of a run.
#[derive(Clone, Copy, Debug, PartialEq, Eq, Structural)]
pub enum Stage {
    /// Make sure that the directory holds a repository.
    AcquireRepository,
    /// Make sure that the document has both markers, before the
    /// statistics are asked for.
    ValidateSection,
    /// Fetch the statistics.
    FetchStats,
    /// Render the statistics and update the document.
    UpdateReadme,
    /// Commit the document.
    Commit,
    /// Push the commit.
    Push,
    /// Nothing is left to do.
    Finished,
}

/// The stage that follows `stage` once it has succeeded. `updated` says
/// whether the update changed the document; it is read after
/// `UpdateReadme` alone.
///
/// The document is committed only if it changed and committing is asked
/// for, and the commit is pushed only if pushing is asked for.
pub open spec fn following(stage: Stage, updated: bool, auto_commit: bool, auto_push: bool) -> Stage {
    match stage {
        Stage::AcquireRepository => Stage::ValidateSection,
        Stage::ValidateSection => Stage::FetchStats,
        Stage::FetchStats => Stage::UpdateReadme,
        Stage::UpdateReadme => if updated && auto_commit {
            Stage::Commit
        } else {
            Stage::Finished
        },
        Stage::Commit => if auto_push {
            Stage::Push
        } else {
            Stage::Finished
        },
        Stage::Push => Stage::Finished,
        Stage::Finished => Stage::Finished,
    }
}

impl Stage {
    /// The stage that a run begins with.
    pub fn first() -> (stage: Stage)
        ensures
            stage == Stage::AcquireRepository,
    {
        Stage::AcquireRepository
    }

    /// The stage that follows this one once it has succeeded.
    pub fn next(self, updated: bool, auto_commit: bool, auto_push: bool) -> (stage: Stage)
        ensures
            stage == following(self, updated, auto_commit, auto_push),
    {
        match self {
            Stage::AcquireRepository => Stage::ValidateSection,
            Stage::ValidateSection => Stage::FetchStats,
            Stage::FetchStats => Stage::UpdateReadme,
            Stage::UpdateReadme => if updated && auto_commit {
                Stage::Commit
            } else {
                Stage::Finished
            },
            Stage::Commit => if auto_push {
                Stage::Push
            } else {
                Stage::Finished
            },
            Stage::Push => Stage::Finished,
            Stage::Finished => Stage::Finished,
        }
    }
}

/// The number of stages that lie before `stage` in the longest run.
pub open spec fn position(stage: Stage) -> nat {
    match stage {
        Stage::AcquireRepository => 0,
        Stage::ValidateSection => 1,
        Stage::FetchStats => 2,
        Stage::UpdateReadme => 3,
        Stage::Commit => 4,
        Stage::Push => 5,
        Stage::Finished => 6,
    }
}

/// A run only moves forward, so it ends after six stages at most.
pub proof fn lemma_run_moves_forward(
    stage: Stage,
    updated: bool,
    auto_commit: bool,
    auto_push: bool,
)
    requires
        stage != Stage::Finished,
    ensures
        position(stage) < position(following(stage, updated, auto_commit, auto_push)),
{
}

/// A document that did not change is neither committed nor pushed: the run
/// is over after the update. A commit is made only right after an update
/// that changed the document, and a push only right after a commit.
pub proof fn lemma_no_commit_without_change(
    stage: Stage,
    updated: bool,
    auto_commit: bool,
    auto_push: bool,
)
    ensures
        following(Stage::UpdateReadme, false, auto_commit, auto_push) == Stage::Finished,
        following(stage, updated, auto_commit, auto_push) == Stage::Commit ==> stage
            == Stage::UpdateReadme && updated && auto_commit,
        following(stage, updated, auto_commit, auto_push) == Stage::Push ==> stage == Stage::Commit
            && auto_push,
{
}

} // verus!
