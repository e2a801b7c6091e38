//! Live event engine of a contest leaderboard server: the current-event state
//! machine, the store operations it plans, the membership batch transaction,
//! the leaderboard and live-search registries, and the admin guard.

pub mod error;
pub mod ids;
pub mod model;
pub mod decode;
pub mod store;
pub mod tables;
pub mod lifecycle;
pub mod machine;
pub mod laws;
pub mod batch;
pub mod registry;
pub mod hub;
pub mod fts;
pub mod guard;
