//! Entropy of cognitive diversity: the number of salience bins it is measured over.
use vstd::prelude::*;

verus! {

/// Number of salience bins over which cognitive diversity is measured
/// (from minimal to intense).
pub const COGNITIVE_DIVERSITY_BINS: usize = 5;

} // verus!
