//! Keeps a section of a README in step with the coding statistics of
//! WakaTime, and commits and pushes the document when it has changed.
//!
//! This library holds every decision of such a run and none of its
//! effects. It validates the range that is asked for, names the address of
//! the request, judges each answer of the service, renders the statistics,
//! finds and rewrites the managed section of the document, and says, step
//! by step, what is to be done with the repository. Reading and writing
//! files, talking to git and to the network, and waiting are left to the
//! caller: where a task alternates between such effects and decisions, the
//! library names the next step, the caller carries it out and reports its
//! outcome, and the library names the step after that.
//!
//! The modules, in the order of a run:
//!
//! - [`cli`] and [`config`]: the settings, and how they are resolved;
//! - [`pipeline`]: the stages of a run and their order;
//! - [`git`]: acquiring the repository, committing and pushing;
//! - [`readme`]: the managed section, its markers and its replacement;
//! - [`wakatime`]: range tokens, the fetch and its retries, the snapshot;
//! - [`formatter`]: the text that goes into the section;
//! - [`error`] and [`text`]: what the others share.

pub mod cli;
pub mod config;
pub mod error;
pub mod formatter;
pub mod git;
pub mod pipeline;
pub mod readme;
pub mod text;
pub mod wakatime;
