//! What the caller reports back after it has carried out a step on the
//! repository.

use vstd::prelude::*;

verus! {

/// The outcome of one step on the repository.
#[derive(Clone, Debug, PartialEq, Eq)]
pub enum GitEvent {
    /// The step was carried out.
    Completed,
    /// The step failed; the string says why.
    Failed(String),
    /// The answer to a yes-or-no question.
    Answer(bool),
    /// A text that was read, or `None` where there is none to read.
    Text(Option<String>),
}

/// An outcome, with its strings as sequences of characters.
pub enum GitEventView {
    Completed,
    Failed(Seq<char>),
    Answer(bool),
    Text(Option<Seq<char>>),
}

impl View for GitEvent {
    type V = GitEventView;

    open spec fn view(&self) -> GitEventView {
        match self {
            GitEvent::Completed => GitEventView::Completed,
            GitEvent::Failed(cause) => GitEventView::Failed(cause@),
            GitEvent::Answer(answer) => GitEventView::Answer(*answer),
            GitEvent::Text(text) => GitEventView::Text(
                match text {
                    Some(t) => Some(t@),
                    None => None,
                },
            ),
        }
    }
}

} // verus!
