//! The injection API's rules: token authentication and rate limiting.
pub mod auth;
pub mod rate_limit;
