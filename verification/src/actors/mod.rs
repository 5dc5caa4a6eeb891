//! The cognitive actors' state and rules: memory windows, thought assembly,
//! sleep, volition, salience, attention and continuity.
pub mod attention;
pub mod continuity;
pub mod memory;
pub mod salience;
pub mod sleep;
pub mod thought;
pub mod volition;
