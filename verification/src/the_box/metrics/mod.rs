//! Cognitive metrics: the thresholds of the cognitive states and the
//! constants of the entropy and fractality measures.
pub mod entropy;
pub mod fractality;
pub mod thresholds;
