//! THE BOX - the protected core: the Four Laws and the architectural invariants.
pub mod cognitive_loop;
pub mod injection;
pub mod invariants;
pub mod laws;
pub mod metrics;
pub mod types;
