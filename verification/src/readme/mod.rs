//! The managed section of a document: its markers, the check that they are
//! present, and the replacement of what stands between them.

pub mod markers;
pub mod updater;
pub mod validator;

pub use markers::MarkerPair;
pub use updater::ReadmeUpdater;
pub use validator::ReadmeValidator;
