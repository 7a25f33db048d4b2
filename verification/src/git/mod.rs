//! The decisions around the repository: which address to fetch from, which
//! credentials to offer, what to commit and what to push.

pub mod cloner;
pub mod committer;
pub mod credentials;
pub mod event;
pub mod pusher;

pub use cloner::GitCloner;
pub use committer::GitCommitter;
pub use credentials::Credential;
pub use pusher::GitPusher;
