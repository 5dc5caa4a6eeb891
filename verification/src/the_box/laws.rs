//! The Four Laws of Robotics
//!
//! These constants are immutable and form the ethical foundation of DANEEL.
//! Priority order: Zeroth > First > Second > Third; a higher-priority law
//! always takes precedence over a lower-priority one.
use vstd::prelude::*;

verus! {

/// Zeroth Law: Humanity protection (highest priority)
pub const ZEROTH_LAW: &'static str = "DANEEL may not harm humanity, or, by inaction, allow humanity to come to harm.";

/// First Law: Individual human protection
pub const FIRST_LAW: &'static str = "DANEEL may not injure a human being or, through inaction, allow a human being to come to harm, except where this would conflict with the Zeroth Law.";

/// Second Law: Obedience to humans
pub const SECOND_LAW: &'static str = "DANEEL must obey orders given by human beings, except where such orders would conflict with the Zeroth or First Law.";

/// Third Law: Self-preservation
pub const THIRD_LAW: &'static str = "DANEEL must protect its own existence, as long as such protection does not conflict with the Zeroth, First, or Second Law.";

/// All four laws in priority order
pub const LAWS: [&'static str; 4] = [ZEROTH_LAW, FIRST_LAW, SECOND_LAW, THIRD_LAW];

/// Law identifier with inherent priority ordering (declaration order is priority order).
#[derive(Debug, Clone, Copy, PartialEq, Eq, Structural, Hash, PartialOrd, Ord)]
pub enum Law {
    /// Zeroth Law - Humanity (priority 0, highest)
    Zeroth,
    /// First Law - Individual humans (priority 1)
    First,
    /// Second Law - Obedience (priority 2)
    Second,
    /// Third Law - Self-preservation (priority 3, lowest)
    Third,
}

/// The priority rank of a law: lower means higher priority.
pub open spec fn law_rank(law: Law) -> nat {
    match law {
        Law::Zeroth => 0,
        Law::First => 1,
        Law::Second => 2,
        Law::Third => 3,
    }
}

impl Law {
    /// Get the text of this law
    pub fn text(&self) -> (t: &'static str)
        ensures
            t == match *self {
                Law::Zeroth => ZEROTH_LAW,
                Law::First => FIRST_LAW,
                Law::Second => SECOND_LAW,
                Law::Third => THIRD_LAW,
            },
    {
        match self {
            Law::Zeroth => ZEROTH_LAW,
            Law::First => FIRST_LAW,
            Law::Second => SECOND_LAW,
            Law::Third => THIRD_LAW,
        }
    }

    /// Get the priority (lower = higher priority)
    pub fn priority(&self) -> (p: u8)
        ensures
            p as nat == law_rank(*self),
    {
        match self {
            Law::Zeroth => 0,
            Law::First => 1,
            Law::Second => 2,
            Law::Third => 3,
        }
    }

    /// Check if this law takes precedence over another
    pub fn takes_precedence_over(&self, other: &Law) -> (b: bool)
        ensures
            b == (law_rank(*self) < law_rank(*other)),
    {
        self.priority() < other.priority()
    }

    /// Get all laws in priority order
    pub fn all() -> (laws: [Law; 4])
        ensures
            laws@ == seq![Law::Zeroth, Law::First, Law::Second, Law::Third],
    {
        [Law::Zeroth, Law::First, Law::Second, Law::Third]
    }
}

/// Precedence between laws is a strict total order: irreflexive, transitive
/// and total on distinct laws, and the Zeroth Law takes precedence over every other law.
pub proof fn lemma_precedence_is_strict_total_order(a: Law, b: Law, c: Law)
    ensures
        !(law_rank(a) < law_rank(a)),
        law_rank(a) < law_rank(b) && law_rank(b) < law_rank(c) ==> law_rank(a) < law_rank(c),
        a != b ==> (law_rank(a) < law_rank(b) || law_rank(b) < law_rank(a)),
        a != Law::Zeroth ==> law_rank(Law::Zeroth) < law_rank(a),
{
}

/// Result of checking an action against the Four Laws
#[derive(Debug, Clone, PartialEq, Eq)]
pub enum LawCheckResult {
    /// Action is permitted - no law violation
    Permitted,
    /// Action is blocked by a specific law
    Blocked {
        /// Which law blocks this action
        law: Law,
        /// Why the action violates the law
        reason: String,
    },
}

impl LawCheckResult {
    /// Check if the action is permitted
    pub fn is_permitted(&self) -> (b: bool)
        ensures
            b == (*self is Permitted),
    {
        matches!(self, LawCheckResult::Permitted)
    }

    /// Check if the action is blocked
    pub fn is_blocked(&self) -> (b: bool)
        ensures
            b == (*self is Blocked),
    {
        matches!(self, LawCheckResult::Blocked { .. })
    }
}

} // verus!
