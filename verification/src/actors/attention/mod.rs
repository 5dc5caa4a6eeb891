//! Attention - "the I": competitive selection of the memory window that gets
//! conscious focus, by salience.
pub mod types;

pub use types::{AttentionError, AttentionMap, AttentionResponse, FocusState};
