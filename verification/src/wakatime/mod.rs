//! The statistics service: range tokens, the request address and the
//! policy for snapshots that are not yet up to date.

pub mod client;
pub mod stats;

pub use client::WakaTimeClient;
