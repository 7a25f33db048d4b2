pub mod api;
pub mod types;

pub use types::{validate_range, StatItem, StatsData, StatsResponse};
