//! Resilience: Erlang-style supervision of actors and crash logs.
pub mod crash_log;
pub mod supervisor;
