//! Operations on the API key itself: its details and its usage stats.

pub mod details;
pub mod stats;
