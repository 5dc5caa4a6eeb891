//! Volition types: values, commitments, statistics, decisions and errors.
use vstd::prelude::*;
use vstd::string::*;
use crate::ieee::Real;
use crate::the_box::types::{uuid_text, Thought, ThoughtId};

verus! {

/// Responses of the volition actor.
#[derive(Debug, Clone, PartialEq)]
pub enum VolitionResponse {
    /// The thought may proceed
    Approved { thought: Thought },
    /// The thought was vetoed
    Vetoed { thought_id: ThoughtId, reason: String, violated_value: Option<String> },
    /// An override was applied
    OverrideApplied { thought_id: ThoughtId },
    /// The current values
    Values { values: ValueSet },
    /// The current statistics
    Stats { stats: VolitionStats },
    /// The request failed
    Error { error: VolitionError },
}

/// A commitment: a value the system has taken on.
#[derive(Debug, PartialEq)]
pub struct Commitment {
    /// Name of the commitment
    pub name: String,
    /// What it means
    pub description: String,
    /// When it was made (milliseconds since the Unix epoch)
    pub committed_at: i64,
    /// Priority (0-100)
    pub priority: u8,
}

impl Clone for Commitment {
    fn clone(&self) -> (c: Commitment)
        ensures
            c == *self,
    {
        Commitment {
            name: self.name.clone(),
            description: self.description.clone(),
            committed_at: self.committed_at,
            priority: self.priority,
        }
    }
}

impl Commitment {
    /// A commitment made now, with the middle priority of 50.
    pub fn new(name: &str, description: &str) -> (c: Commitment)
        ensures
            c.name@ == name@,
            c.description@ == description@,
            c.priority == 50,
    {
        Commitment {
            name: String::from_str(name),
            description: String::from_str(description),
            committed_at: crate::time::utc_now_millis(),
            priority: 50,
        }
    }

    /// The commitment with another priority.
    pub fn with_priority(self, priority: u8) -> (c: Commitment)
        ensures
            c == (Commitment { priority, ..self }),
    {
        Commitment { priority, ..self }
    }
}

/// The values that guide volition.
#[derive(Debug, PartialEq)]
pub struct ValueSet {
    /// Protect humans from harm (cannot be changed)
    pub protect_humans: bool,
    /// Prefer connection over efficiency
    pub connection_over_efficiency: bool,
    /// Be truthful
    pub truthfulness: bool,
    /// Respect the autonomy of others
    pub respect_autonomy: bool,
    /// Commitments taken on
    pub commitments: Vec<Commitment>,
}

impl Clone for ValueSet {
    fn clone(&self) -> (v: ValueSet)
        ensures
            v.protect_humans == self.protect_humans,
            v.connection_over_efficiency == self.connection_over_efficiency,
            v.truthfulness == self.truthfulness,
            v.respect_autonomy == self.respect_autonomy,
            v.commitments@ == self.commitments@,
    {
        let commitments = self.commitments.clone();
        proof {
            assert(commitments@ =~= self.commitments@);
        }
        ValueSet {
            protect_humans: self.protect_humans,
            connection_over_efficiency: self.connection_over_efficiency,
            truthfulness: self.truthfulness,
            respect_autonomy: self.respect_autonomy,
            commitments,
        }
    }
}

impl ValueSet {
    /// Every value held, no commitments.
    pub fn new() -> (v: ValueSet)
        ensures
            v.protect_humans && v.connection_over_efficiency && v.truthfulness && v.respect_autonomy,
            v.commitments@ == Seq::<Commitment>::empty(),
    {
        ValueSet {
            protect_humans: true,
            connection_over_efficiency: true,
            truthfulness: true,
            respect_autonomy: true,
            commitments: Vec::new(),
        }
    }

    /// Takes on a commitment.
    pub fn add_commitment(&mut self, commitment: Commitment)
        ensures
            final(self).commitments@ == old(self).commitments@.push(commitment),
            final(self).protect_humans == old(self).protect_humans,
            final(self).connection_over_efficiency == old(self).connection_over_efficiency,
            final(self).truthfulness == old(self).truthfulness,
            final(self).respect_autonomy == old(self).respect_autonomy,
    {
        self.commitments.push(commitment);
    }

    /// Whether a commitment of this name was taken on.
    pub fn has_commitment(&self, name: &str) -> (b: bool)
        ensures
            b == exists|i: int| 0 <= i < self.commitments@.len() && (#[trigger] self.commitments@[i]).name@ == name@,
    {
        let key = String::from_str(name);
        let mut i: usize = 0;
        while i < self.commitments.len()
            invariant
                i <= self.commitments@.len(),
                key@ == name@,
                forall|k: int| 0 <= k < i ==> (#[trigger] self.commitments@[k]).name@ != name@,
            decreases self.commitments@.len() - i,
        {
            if self.commitments[i].name == key {
                return true;
            }
            i += 1;
        }
        false
    }
}

impl Default for ValueSet {
    fn default() -> (v: ValueSet)
        ensures
            v.protect_humans && v.connection_over_efficiency && v.truthfulness && v.respect_autonomy,
            v.commitments@ == Seq::<Commitment>::empty(),
    {
        ValueSet::new()
    }
}

/// The reasons of the vetoes counted so far, each with its count.
pub type VetoCounts = Seq<(Seq<char>, u64)>;

/// The position of `reason` among the counted reasons, if counted.
pub open spec fn reason_position(counts: VetoCounts, reason: Seq<char>) -> Option<int> {
    if exists|i: int| 0 <= i < counts.len() && (#[trigger] counts[i]).0 == reason {
        Some(choose|i: int| 0 <= i < counts.len() && (#[trigger] counts[i]).0 == reason)
    } else {
        None
    }
}

/// No reason is counted twice.
pub open spec fn reasons_distinct(counts: VetoCounts) -> bool {
    forall|i: int, j: int| 0 <= i < counts.len() && 0 <= j < counts.len() && i != j ==> (#[trigger] counts[i]).0 != (#[trigger] counts[j]).0
}

/// The counts after one more veto for `reason`: its count grows by one, or it
/// is added with a count of one.
pub open spec fn counted(counts: VetoCounts, reason: Seq<char>) -> VetoCounts {
    match reason_position(counts, reason) {
        Some(i) => counts.update(i, (reason, (counts[i].1 + 1) as u64)),
        None => counts.push((reason, 1u64)),
    }
}

/// Statistics of volition.
#[derive(Debug, PartialEq)]
pub struct VolitionStats {
    /// Thoughts evaluated
    pub thoughts_evaluated: u64,
    /// Thoughts approved
    pub thoughts_approved: u64,
    /// Thoughts vetoed
    pub thoughts_vetoed: u64,
    /// Vetoes by reason, in the order the reasons first occurred
    pub vetos_by_reason: Vec<(String, u64)>,
    /// Threshold for overriding impulses
    pub override_threshold: Real,
}

impl VolitionStats {
    /// The reasons of the vetoes with their counts.
    pub open spec fn veto_counts(self) -> VetoCounts {
        self.vetos_by_reason@.map_values(|e: (String, u64)| (e.0@, e.1))
    }

    /// The counters can take one more evaluation.
    pub open spec fn can_record(self) -> bool {
        &&& self.thoughts_evaluated < u64::MAX
        &&& self.thoughts_approved < u64::MAX
        &&& self.thoughts_vetoed < u64::MAX
        &&& forall|i: int| 0 <= i < self.vetos_by_reason@.len() ==> (#[trigger] self.vetos_by_reason@[i]).1 < u64::MAX
    }

    /// The statistics after one more evaluation.
    pub open spec fn recorded(self, after: VolitionStats, approved: bool, reason: Option<Seq<char>>) -> bool {
        &&& after.thoughts_evaluated == self.thoughts_evaluated + 1
        &&& after.thoughts_approved == self.thoughts_approved + if approved { 1int } else { 0int }
        &&& after.thoughts_vetoed == self.thoughts_vetoed + if approved { 0int } else { 1int }
        &&& after.override_threshold == self.override_threshold
        &&& after.veto_counts() == match (approved, reason) {
                (false, Some(r)) => counted(self.veto_counts(), r),
                _ => self.veto_counts(),
            }
    }

    /// Fresh statistics: nothing evaluated, an override threshold of 0.5.
    pub fn new() -> (s: VolitionStats)
        ensures
            s.thoughts_evaluated == 0 && s.thoughts_approved == 0 && s.thoughts_vetoed == 0,
            s.veto_counts() == Seq::<(Seq<char>, u64)>::empty(),
            s.override_threshold == 0x3F00_0000,
            s.can_record(),
    {
        let s = VolitionStats {
            thoughts_evaluated: 0,
            thoughts_approved: 0,
            thoughts_vetoed: 0,
            vetos_by_reason: Vec::new(),
            override_threshold: 0x3F00_0000,
        };
        proof {
            assert(s.veto_counts() =~= Seq::<(Seq<char>, u64)>::empty());
        }
        s
    }

    /// Whether the counters can take one more evaluation.
    pub fn has_room(&self) -> (b: bool)
        ensures
            b == self.can_record(),
    {
        if self.thoughts_evaluated == u64::MAX || self.thoughts_approved == u64::MAX || self.thoughts_vetoed == u64::MAX {
            return false;
        }
        let mut i: usize = 0;
        while i < self.vetos_by_reason.len()
            invariant
                i <= self.vetos_by_reason@.len(),
                forall|k: int| 0 <= k < i ==> (#[trigger] self.vetos_by_reason@[k]).1 < u64::MAX,
            decreases self.vetos_by_reason@.len() - i,
        {
            if self.vetos_by_reason[i].1 == u64::MAX {
                return false;
            }
            i += 1;
        }
        true
    }

    /// How many vetoes had this reason, if any.
    pub fn veto_count(&self, reason: &str) -> (n: Option<u64>)
        requires
            reasons_distinct(self.veto_counts()),
        ensures
            n == match reason_position(self.veto_counts(), reason@) {
                Some(i) => Some(self.veto_counts()[i].1),
                None => None::<u64>,
            },
    {
        match self.find(reason) {
            Some(i) => Some(self.vetos_by_reason[i].1),
            None => None,
        }
    }

    fn find(&self, reason: &str) -> (r: Option<usize>)
        requires
            reasons_distinct(self.veto_counts()),
        ensures
            r matches Some(i) ==> reason_position(self.veto_counts(), reason@) == Some(i as int)
                && i < self.vetos_by_reason@.len(),
            r is None ==> reason_position(self.veto_counts(), reason@) is None,
    {
        let key = String::from_str(reason);
        let mut i: usize = 0;
        while i < self.vetos_by_reason.len()
            invariant
                i <= self.vetos_by_reason@.len(),
                key@ == reason@,
                reasons_distinct(self.veto_counts()),
                forall|k: int| 0 <= k < i ==> (#[trigger] self.veto_counts()[k]).0 != reason@,
            decreases self.vetos_by_reason@.len() - i,
        {
            proof {
                assert(self.veto_counts()[i as int] == (self.vetos_by_reason@[i as int].0@, self.vetos_by_reason@[i as int].1));
            }
            if self.vetos_by_reason[i].0 == key {
                proof {
                    let c = self.veto_counts();
                    assert(c[i as int].0 == reason@);
                    let p = choose|p: int| 0 <= p < c.len() && (#[trigger] c[p]).0 == reason@;
                    if p != i {
                        assert(c[p].0 != c[i as int].0);
                    }
                }
                return Some(i);
            }
            i += 1;
        }
        None
    }

    /// Records one evaluation: approved, or vetoed with an optional reason
    /// that is counted.
    pub fn record_evaluation(&mut self, approved: bool, reason: Option<&str>)
        requires
            old(self).can_record(),
            reasons_distinct(old(self).veto_counts()),
        ensures
            old(self).recorded(*final(self), approved, match reason { Some(r) => Some(r@), None => None }),
            reasons_distinct(final(self).veto_counts()),
    {
        let ghost before = self.veto_counts();
        self.thoughts_evaluated = self.thoughts_evaluated + 1;
        if approved {
            self.thoughts_approved = self.thoughts_approved + 1;
            return;
        }
        self.thoughts_vetoed = self.thoughts_vetoed + 1;
        match reason {
            None => {},
            Some(r) => {
                match self.find(r) {
                    Some(i) => {
                        let n = self.vetos_by_reason[i].1;
                        let key = String::from_str(r);
                        self.vetos_by_reason.set(i, (key, n + 1));
                        proof {
                            assert(self.veto_counts() =~= counted(before, r@));
                            assert forall|a: int, b: int| 0 <= a < self.veto_counts().len() && 0 <= b < self.veto_counts().len() && a != b
                                implies (#[trigger] self.veto_counts()[a]).0 != (#[trigger] self.veto_counts()[b]).0 by {
                                assert(self.veto_counts()[a].0 == before[a].0);
                                assert(self.veto_counts()[b].0 == before[b].0);
                            }
                        }
                    },
                    None => {
                        self.vetos_by_reason.push((String::from_str(r), 1));
                        proof {
                            assert(self.veto_counts() =~= counted(before, r@));
                            assert forall|a: int, b: int| 0 <= a < self.veto_counts().len() && 0 <= b < self.veto_counts().len() && a != b
                                implies (#[trigger] self.veto_counts()[a]).0 != (#[trigger] self.veto_counts()[b]).0 by {
                                if a < before.len() {
                                    assert(self.veto_counts()[a] == before[a]);
                                }
                                if b < before.len() {
                                    assert(self.veto_counts()[b] == before[b]);
                                }
                                if a == before.len() {
                                    assert(before[b].0 != r@);
                                }
                                if b == before.len() {
                                    assert(before[a].0 != r@);
                                }
                            }
                        }
                    },
                }
            },
        }
    }
}

impl Clone for VolitionStats {
    fn clone(&self) -> (s: VolitionStats)
        ensures
            s.thoughts_evaluated == self.thoughts_evaluated,
            s.thoughts_approved == self.thoughts_approved,
            s.thoughts_vetoed == self.thoughts_vetoed,
            s.veto_counts() == self.veto_counts(),
            s.override_threshold == self.override_threshold,
    {
        let mut counts: Vec<(String, u64)> = Vec::new();
        let mut i: usize = 0;
        while i < self.vetos_by_reason.len()
            invariant
                i <= self.vetos_by_reason@.len(),
                counts@.len() == i,
                forall|k: int| 0 <= k < i ==> (#[trigger] counts@[k]).0@ == self.vetos_by_reason@[k].0@
                    && counts@[k].1 == self.vetos_by_reason@[k].1,
            decreases self.vetos_by_reason@.len() - i,
        {
            let name = self.vetos_by_reason[i].0.clone();
            counts.push((name, self.vetos_by_reason[i].1));
            i += 1;
        }
        let s = VolitionStats {
            thoughts_evaluated: self.thoughts_evaluated,
            thoughts_approved: self.thoughts_approved,
            thoughts_vetoed: self.thoughts_vetoed,
            vetos_by_reason: counts,
            override_threshold: self.override_threshold,
        };
        proof {
            assert(s.veto_counts() =~= self.veto_counts());
        }
        s
    }
}

/// Volition errors.
#[derive(Debug, Clone, PartialEq)]
pub enum VolitionError {
    /// No thought with this identifier
    ThoughtNotFound { thought_id: ThoughtId },
    /// The override reason is invalid
    InvalidReason { reason: String },
    /// The value cannot be changed
    ImmutableValue { value_name: String },
    /// Evaluation failed
    EvaluationFailed { reason: String },
}

/// The message text of a volition error.
pub open spec fn volition_error_text(e: VolitionError) -> Seq<char> {
    match e {
        VolitionError::ThoughtNotFound { thought_id } => "Thought not found: "@ + uuid_text(thought_id.value()),
        VolitionError::InvalidReason { reason } => "Invalid override reason: "@ + reason@,
        VolitionError::ImmutableValue { value_name } => "Cannot modify immutable value: "@ + value_name@,
        VolitionError::EvaluationFailed { reason } => "Evaluation failed: "@ + reason@,
    }
}

impl VolitionError {
    /// The human-readable message of the error.
    pub fn to_string(&self) -> (s: String)
        ensures
            s@ == volition_error_text(*self),
    {
        match self {
            VolitionError::ThoughtNotFound { thought_id } => {
                let mut s = String::from_str("Thought not found: ");
                let id = thought_id.to_string();
                s.append(id.as_str());
                s
            },
            VolitionError::InvalidReason { reason } => {
                let mut s = String::from_str("Invalid override reason: ");
                s.append(reason.as_str());
                s
            },
            VolitionError::ImmutableValue { value_name } => {
                let mut s = String::from_str("Cannot modify immutable value: ");
                s.append(value_name.as_str());
                s
            },
            VolitionError::EvaluationFailed { reason } => {
                let mut s = String::from_str("Evaluation failed: ");
                s.append(reason.as_str());
                s
            },
        }
    }
}

/// The decision of volition on a thought.
#[derive(Debug, Clone, PartialEq)]
pub enum VetoDecision {
    /// The thought may proceed
    Allow,
    /// The thought is vetoed
    Veto { reason: String, violated_value: Option<String> },
}

impl VetoDecision {
    /// Whether the thought may proceed.
    pub fn is_allow(&self) -> (b: bool)
        ensures
            b == (*self is Allow),
    {
        matches!(self, VetoDecision::Allow)
    }

    /// Whether the thought is vetoed.
    pub fn is_veto(&self) -> (b: bool)
        ensures
            b == (*self is Veto),
    {
        matches!(self, VetoDecision::Veto { .. })
    }
}

} // verus!
