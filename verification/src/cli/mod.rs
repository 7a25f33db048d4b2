//! What the command line and the environment supply.

pub mod args;

pub use args::Cli;
