//! DANEEL - architecture-based alignment: the verified core.
//!
//! The cognitive architecture's rules (the Four Laws, the architectural
//! invariants, bounded working memory, the thought cache, the sleep state
//! machine, volition, supervision, rate limiting and token authentication)
//! live here with their contracts.
pub mod the_box;
pub mod time;
pub mod ieee;
pub mod text;
pub mod actors;
pub mod api;
pub mod embeddings;
pub mod resilience;
pub mod schedule;
