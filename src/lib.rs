//! Report lifecycle engine for a community-moderation assistant: the report
//! state machine, the report store with deduplication and message archiving,
//! the read-through server configuration cache, the per-user setup guard, the
//! view synchronizer and the reaction router.
pub mod status;
pub mod emoji;
pub mod models;
pub mod cache;
pub mod transitions;
pub mod database;
pub mod view;
pub mod state;
pub mod router;
pub mod setup;
