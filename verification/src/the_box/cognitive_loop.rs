//! The cognitive loop's stages, its run state and the timing of its stages.
//!
//! Each cycle runs five stages in order: memory trigger, parallel thought
//! generation, attention selection, thought assembly and memory anchoring.
use vstd::prelude::*;
use vstd::string::*;
use crate::actors::attention::types::AttentionResponse;
use crate::actors::volition::types::VetoDecision;
use crate::actors::volition::{opt_text, verdict, VolitionState};
use crate::ieee::{is_nan, Real, real_clamp, real_lt, spec_clamp, spec_lt};
use crate::the_box::types::{SalienceScore, Thought, ThoughtId, WindowId};
use crate::time::{max_duration_nanos, span_since, Clock, Duration};

verus! {

/// The stages of one cognitive cycle, in execution order.
#[derive(Debug, Clone, Copy, PartialEq, Eq, Structural)]
pub enum CognitiveStage {
    /// Memory trigger activation
    Trigger,
    /// Parallel thought generation
    Autoflow,
    /// Attention selection
    Attention,
    /// Thought assembly
    Assembly,
    /// Memory encoding decision
    Anchor,
}

/// State of the cognitive loop.
#[derive(Debug, Clone, Copy, PartialEq, Eq, Structural)]
pub enum LoopState {
    /// Active cognition - processing thoughts
    Running,
    /// Temporarily paused - can be resumed
    Paused,
    /// Fully stopped - requires restart
    Stopped,
}

/// The state after `start`: running, from any state.
pub open spec fn started(_s: LoopState) -> LoopState {
    LoopState::Running
}

/// The state after `pause`: a running loop pauses; any other state is kept.
pub open spec fn paused(s: LoopState) -> LoopState {
    if s == LoopState::Running { LoopState::Paused } else { s }
}

/// The state after `stop`: stopped, from any state.
pub open spec fn stopped(_s: LoopState) -> LoopState {
    LoopState::Stopped
}

impl LoopState {
    /// Starts (or resumes) the loop.
    pub fn start(&mut self)
        ensures
            *final(self) == started(*old(self)),
    {
        *self = LoopState::Running;
    }

    /// Pauses a running loop; a paused or stopped loop is left as it is.
    pub fn pause(&mut self)
        ensures
            *final(self) == paused(*old(self)),
    {
        if *self == LoopState::Running {
            *self = LoopState::Paused;
        }
    }

    /// Stops the loop.
    pub fn stop(&mut self)
        ensures
            *final(self) == stopped(*old(self)),
    {
        *self = LoopState::Stopped;
    }

    /// Whether the loop is running.
    pub fn is_running(&self) -> (b: bool)
        ensures
            b == (*self == LoopState::Running),
    {
        *self == LoopState::Running
    }
}

/// Pausing a paused or stopped loop changes nothing, a paused loop resumes by
/// `start`, and only `start` leaves the stopped state.
pub proof fn lemma_loop_transitions(s: LoopState)
    ensures
        paused(paused(s)) == paused(s),
        started(paused(s)) == LoopState::Running,
        paused(stopped(s)) == LoopState::Stopped,
        stopped(s) == LoopState::Stopped ==> started(stopped(s)) == LoopState::Running,
{
}

/// Time spent in each stage of the cognitive cycle.
#[derive(Debug, Clone)]
pub struct StageDurations {
    /// Memory trigger
    pub trigger: Duration,
    /// Parallel thought generation
    pub autoflow: Duration,
    /// Attention selection
    pub attention: Duration,
    /// Thought assembly
    pub assembly: Duration,
    /// Memory anchoring
    pub anchor: Duration,
}

/// The length of all five stages together, in nanoseconds.
pub open spec fn stage_total(d: StageDurations) -> nat {
    d.trigger@ + d.autoflow@ + d.attention@ + d.assembly@ + d.anchor@
}

/// The time of each stage, in nanoseconds: trigger, autoflow, attention,
/// assembly, anchor.
pub open spec fn stage_nanos(d: StageDurations) -> (nat, nat, nat, nat, nat) {
    (d.trigger@, d.autoflow@, d.attention@, d.assembly@, d.anchor@)
}

/// Stage-by-stage sum of stage times.
pub open spec fn stage_plus(x: (nat, nat, nat, nat, nat), y: (nat, nat, nat, nat, nat)) -> (nat, nat, nat, nat, nat) {
    ((x.0 + y.0) as nat, (x.1 + y.1) as nat, (x.2 + y.2) as nat, (x.3 + y.3) as nat, (x.4 + y.4) as nat)
}

/// The sum of the stage times.
pub open spec fn nanos_total(x: (nat, nat, nat, nat, nat)) -> nat {
    x.0 + x.1 + x.2 + x.3 + x.4
}

/// Adding stage times (what `StageDurations::add` computes, see its
/// contract) has no effect with empty stages, does not depend on the order
/// of the two timings or of three, and adds up the totals.
pub proof fn law_stage_addition(x: (nat, nat, nat, nat, nat), y: (nat, nat, nat, nat, nat), z: (nat, nat, nat, nat, nat))
    ensures
        stage_plus(x, (0nat, 0nat, 0nat, 0nat, 0nat)) == x,
        stage_plus(x, y) == stage_plus(y, x),
        stage_plus(stage_plus(x, y), z) == stage_plus(x, stage_plus(y, z)),
        nanos_total(stage_plus(x, y)) == nanos_total(x) + nanos_total(y),
{
}

impl Default for StageDurations {
    /// All stages empty.
    fn default() -> (d: StageDurations)
        ensures
            d.trigger@ == 0 && d.autoflow@ == 0 && d.attention@ == 0 && d.assembly@ == 0 && d.anchor@ == 0,
            stage_nanos(d) == (0nat, 0nat, 0nat, 0nat, 0nat),
    {
        StageDurations::zero()
    }
}

impl StageDurations {
    /// Total time across all stages; the total must fit in a duration.
    pub fn total(&self) -> (t: Duration)
        requires
            stage_total(*self) <= max_duration_nanos(),
        ensures
            t@ == stage_total(*self),
    {
        self.trigger.plus(self.autoflow).plus(self.attention).plus(self.assembly).plus(self.anchor)
    }

    /// All stages empty.
    pub fn zero() -> (d: StageDurations)
        ensures
            d.trigger@ == 0 && d.autoflow@ == 0 && d.attention@ == 0 && d.assembly@ == 0 && d.anchor@ == 0,
            stage_nanos(d) == (0nat, 0nat, 0nat, 0nat, 0nat),
    {
        StageDurations {
            trigger: Duration::zero(),
            autoflow: Duration::zero(),
            attention: Duration::zero(),
            assembly: Duration::zero(),
            anchor: Duration::zero(),
        }
    }

    /// The stage-by-stage sum with another timing (for accumulation); each
    /// sum must fit in a duration.
    pub fn add(&self, other: &StageDurations) -> (d: StageDurations)
        requires
            self.trigger@ + other.trigger@ <= max_duration_nanos(),
            self.autoflow@ + other.autoflow@ <= max_duration_nanos(),
            self.attention@ + other.attention@ <= max_duration_nanos(),
            self.assembly@ + other.assembly@ <= max_duration_nanos(),
            self.anchor@ + other.anchor@ <= max_duration_nanos(),
        ensures
            d.trigger@ == self.trigger@ + other.trigger@,
            d.autoflow@ == self.autoflow@ + other.autoflow@,
            d.attention@ == self.attention@ + other.attention@,
            d.assembly@ == self.assembly@ + other.assembly@,
            d.anchor@ == self.anchor@ + other.anchor@,
            stage_nanos(d) == stage_plus(stage_nanos(*self), stage_nanos(*other)),
    {
        StageDurations {
            trigger: self.trigger.plus(other.trigger),
            autoflow: self.autoflow.plus(other.autoflow),
            attention: self.attention.plus(other.attention),
            assembly: self.assembly.plus(other.assembly),
            anchor: self.anchor.plus(other.anchor),
        }
    }

    /// Every stage divided by `divisor` (for averaging), rounding down; a
    /// divisor of zero gives empty stages.
    pub fn div(&self, divisor: u64) -> (d: StageDurations)
        ensures
            divisor == 0 ==> d.trigger@ == 0 && d.autoflow@ == 0 && d.attention@ == 0 && d.assembly@ == 0 && d.anchor@ == 0,
            divisor != 0 ==> {
                let k = divisor as nat;
                &&& d.trigger@ == self.trigger@ / k
                &&& d.autoflow@ == self.autoflow@ / k
                &&& d.attention@ == self.attention@ / k
                &&& d.assembly@ == self.assembly@ / k
                &&& d.anchor@ == self.anchor@ / k
            },
    {
        if divisor == 0 {
            return StageDurations::zero();
        }
        StageDurations {
            trigger: self.trigger.div_u64(divisor),
            autoflow: self.autoflow.div_u64(divisor),
            attention: self.attention.div_u64(divisor),
            assembly: self.assembly.div_u64(divisor),
            anchor: self.anchor.div_u64(divisor),
        }
    }
}


/// The result of one cognitive cycle.
#[derive(Debug, Clone)]
pub struct CycleResult {
    /// Cycle number (sequential counter)
    pub cycle_number: u64,
    /// How long the cycle took
    pub duration: Duration,
    /// The thought produced, if any
    pub thought_produced: Option<ThoughtId>,
    /// Composite salience of the winning thought (0.0 - 1.0)
    pub salience: Real,
    /// Emotional valence of the winning thought (-1.0 - 1.0)
    pub valence: Real,
    /// Emotional arousal of the winning thought (0.0 - 1.0)
    pub arousal: Real,
    /// Number of candidate thoughts evaluated
    pub candidates_evaluated: usize,
    /// Whether the cycle met its target time
    pub on_time: bool,
    /// Time spent in each stage
    pub stage_durations: StageDurations,
    /// The veto's reason and violated value, if the thought was vetoed
    pub veto: Option<(String, Option<String>)>,
}

impl CycleResult {
    /// A cycle result with the given parts.
    pub fn new(
        cycle_number: u64,
        duration: Duration,
        thought_produced: Option<ThoughtId>,
        salience: Real,
        valence: Real,
        arousal: Real,
        candidates_evaluated: usize,
        on_time: bool,
        stage_durations: StageDurations,
        veto: Option<(String, Option<String>)>,
    ) -> (r: CycleResult)
        ensures
            r == (CycleResult {
                cycle_number,
                duration,
                thought_produced,
                salience,
                valence,
                arousal,
                candidates_evaluated,
                on_time,
                stage_durations,
                veto,
            }),
    {
        CycleResult {
            cycle_number,
            duration,
            thought_produced,
            salience,
            valence,
            arousal,
            candidates_evaluated,
            on_time,
            stage_durations,
            veto,
        }
    }

    /// Whether the cycle produced a thought.
    pub fn produced_thought(&self) -> (b: bool)
        ensures
            b == (self.thought_produced is Some),
    {
        self.thought_produced.is_some()
    }
}

/// Performance metrics of the cognitive loop.
#[derive(Debug, Clone)]
pub struct CycleMetrics {
    /// Cycles executed
    pub total_cycles: u64,
    /// Thoughts produced
    pub thoughts_produced: u64,
    /// Average time per cycle
    pub average_cycle_time: Duration,
    /// Percentage of cycles completed on time
    pub on_time_percentage: Real,
    /// Average time per stage
    pub average_stage_durations: StageDurations,
}

impl CycleMetrics {
    /// Metrics with the given parts.
    pub fn new(
        total_cycles: u64,
        thoughts_produced: u64,
        average_cycle_time: Duration,
        on_time_percentage: Real,
        average_stage_durations: StageDurations,
    ) -> (m: CycleMetrics)
        ensures
            m == (CycleMetrics { total_cycles, thoughts_produced, average_cycle_time, on_time_percentage, average_stage_durations }),
    {
        CycleMetrics { total_cycles, thoughts_produced, average_cycle_time, on_time_percentage, average_stage_durations }
    }
}

/// How long to wait before the next cycle: what remains of the target cycle
/// time, or nothing when the cycle is already due.
pub fn time_until_next_cycle(elapsed: Duration, target: Duration) -> (d: Duration)
    ensures
        d@ == if elapsed@ >= target@ { 0 } else { (target@ - elapsed@) as nat },
{
    if elapsed.as_nanos() >= target.as_nanos() {
        Duration::zero()
    } else {
        target.saturating_sub(elapsed)
    }
}

/// Whether the next cycle is due: the target cycle time has passed.
pub fn should_cycle(elapsed: Duration, target: Duration) -> (b: bool)
    ensures
        b == (elapsed@ >= target@),
{
    elapsed.as_nanos() >= target.as_nanos()
}

/// The winning window and salience of an attention cycle; any other answer
/// falls back to the candidate.
pub fn extract_attention_winner(response: AttentionResponse, fallback_window: WindowId, fallback_salience: Real) -> (r: (Option<WindowId>, Real))
    ensures
        r == match response {
            AttentionResponse::CycleComplete { focused, salience } => (focused, salience),
            _ => (Some(fallback_window), fallback_salience),
        },
{
    match response {
        AttentionResponse::CycleComplete { focused, salience } => (focused, salience),
        _ => (Some(fallback_window), fallback_salience),
    }
}

/// The result of a cycle whose thought was vetoed: no thought is produced and
/// the veto's reason and violated value are kept; an allowed thought gives `None`.
pub fn veto_outcome(
    decision: VetoDecision,
    cycle_number: u64,
    elapsed: Duration,
    target: Duration,
    composite_salience: Real,
    salience: &SalienceScore,
    candidates_evaluated: usize,
    stage_durations: &StageDurations,
) -> (r: Option<CycleResult>)
    ensures
        decision is Allow ==> r is None,
        decision matches VetoDecision::Veto { reason, violated_value } ==> r == Some(CycleResult {
            cycle_number,
            duration: elapsed,
            thought_produced: None,
            salience: composite_salience,
            valence: salience.valence,
            arousal: salience.arousal,
            candidates_evaluated,
            on_time: elapsed@ <= target@,
            stage_durations: *stage_durations,
            veto: Some((reason, violated_value)),
        }),
{
    match decision {
        VetoDecision::Veto { reason, violated_value } => Some(CycleResult {
            cycle_number,
            duration: elapsed,
            thought_produced: None,
            salience: composite_salience,
            valence: salience.valence,
            arousal: salience.arousal,
            candidates_evaluated,
            on_time: elapsed.as_nanos() <= target.as_nanos(),
            stage_durations: StageDurations {
                trigger: stage_durations.trigger,
                autoflow: stage_durations.autoflow,
                attention: stage_durations.attention,
                assembly: stage_durations.assembly,
                anchor: stage_durations.anchor,
            },
            veto: Some((reason, violated_value)),
        }),
        VetoDecision::Allow => None,
    }
}

/// The position of the candidate that wins the competition on composite
/// salience: scanning in order, a candidate takes the lead unless the
/// leader's salience is above its own, so among equals (and against NaN)
/// the later one wins.
pub open spec fn winner_of(composites: Seq<Real>) -> int
    decreases composites.len(),
{
    if composites.len() <= 1 {
        0
    } else {
        let w = winner_of(composites.drop_last());
        if spec_lt(composites.last(), composites[w]) {
            w
        } else {
            composites.len() - 1
        }
    }
}

/// The winner has the highest salience: when no salience is NaN, no
/// candidate's salience is above the winner's, and every later candidate's
/// is below it.
pub proof fn law_winner_is_highest(composites: Seq<Real>)
    requires
        composites.len() > 0,
        forall|i: int| 0 <= i < composites.len() ==> !is_nan(#[trigger] composites[i]),
    ensures
        0 <= winner_of(composites) < composites.len(),
        forall|j: int| 0 <= j < composites.len() ==> !spec_lt(composites[winner_of(composites)], #[trigger] composites[j]),
        forall|j: int| winner_of(composites) < j < composites.len() ==> spec_lt(#[trigger] composites[j], composites[winner_of(composites)]),
    decreases composites.len(),
{
    if composites.len() > 1 {
        let front = composites.drop_last();
        law_winner_is_highest(front);
        let w = winner_of(front);
        let n = composites.len();
        assert forall|j: int| 0 <= j < n - 1 implies front[j] == #[trigger] composites[j] by {}
        assert(front[w] == composites[w]);
        let top = winner_of(composites);
        assert forall|j: int| 0 <= j < n implies !spec_lt(composites[top], #[trigger] composites[j]) by {
            if j < n - 1 {
                assert(!spec_lt(front[w], front[j]));
            }
        }
        assert forall|j: int| top < j < n implies spec_lt(#[trigger] composites[j], composites[top]) by {
            if j < n - 1 {
                assert(spec_lt(front[j], front[w]));
            }
        }
    }
}

/// The winning candidate among composite saliences (`None` when there is
/// none); every later candidate has a lower salience than the winner.
pub fn strongest_candidate(composites: &Vec<Real>) -> (r: Option<usize>)
    ensures
        composites@.len() == 0 ==> r is None,
        composites@.len() > 0 ==> r == Some(winner_of(composites@) as usize),
        r matches Some(w) ==> w < composites@.len()
            && forall|j: int| w < j < composites@.len() ==> spec_lt(#[trigger] composites@[j], composites@[w as int]),
        r matches Some(w) ==> ((forall|i: int| 0 <= i < composites@.len() ==> !is_nan(#[trigger] composites@[i]))
            ==> forall|j: int| 0 <= j < composites@.len() ==> !spec_lt(composites@[w as int], #[trigger] composites@[j])),
{
    if composites.len() == 0 {
        return None;
    }
    let mut best: usize = 0;
    let mut i: usize = 1;
    proof {
        assert(composites@.take(1).len() == 1);
    }
    while i < composites.len()
        invariant
            1 <= i <= composites@.len(),
            best < i,
            best as int == winner_of(composites@.take(i as int)),
            forall|j: int| best < j < i ==> spec_lt(#[trigger] composites@[j], composites@[best as int]),
            (forall|k: int| 0 <= k < i ==> !is_nan(#[trigger] composites@[k]))
                ==> forall|j: int| 0 <= j < i ==> !spec_lt(composites@[best as int], #[trigger] composites@[j]),
        decreases composites@.len() - i,
    {
        proof {
            assert(composites@.take(i as int + 1).drop_last() =~= composites@.take(i as int));
        }
        if !real_lt(composites[i], composites[best]) {
            best = i;
        }
        i += 1;
    }
    proof {
        assert(composites@.take(composites@.len() as int) =~= composites@);
    }
    Some(best)
}

/// Whether a thought is kept in long-term memory: its composite salience is
/// above the consolidation threshold (NaN is not above it).
pub open spec fn worth_consolidating(composite: Real, threshold: Real) -> bool {
    spec_lt(threshold, composite)
}

/// Whether a thought is kept in long-term memory.
pub fn should_consolidate(composite: Real, threshold: Real) -> (b: bool)
    ensures
        b == worth_consolidating(composite, threshold),
{
    real_lt(threshold, composite)
}

/// The running totals of the cognitive loop.
#[derive(Debug, Clone)]
pub struct LoopTally {
    /// Cycles started
    pub cycle_count: u64,
    /// Thoughts produced
    pub thoughts_produced: u64,
    /// Cycles completed within their target time
    pub cycles_on_time: u64,
    /// Time spent in completed cycles
    pub total_duration: Duration,
    /// Time spent in each stage of completed cycles
    pub total_stage_durations: StageDurations,
}

impl LoopTally {
    /// No cycle run yet.
    pub fn new() -> (t: LoopTally)
        ensures
            t.cycle_count == 0 && t.thoughts_produced == 0 && t.cycles_on_time == 0,
            t.total_duration@ == 0,
            stage_total(t.total_stage_durations) == 0,
    {
        LoopTally {
            cycle_count: 0,
            thoughts_produced: 0,
            cycles_on_time: 0,
            total_duration: Duration::zero(),
            total_stage_durations: StageDurations::zero(),
        }
    }

    /// Starts a cycle: returns its number and counts it.
    pub fn begin_cycle(&mut self) -> (n: u64)
        requires
            old(self).cycle_count < u64::MAX,
        ensures
            n == old(self).cycle_count,
            final(self).cycle_count == old(self).cycle_count + 1,
            final(self).thoughts_produced == old(self).thoughts_produced,
            final(self).cycles_on_time == old(self).cycles_on_time,
            final(self).total_duration == old(self).total_duration,
            final(self).total_stage_durations == old(self).total_stage_durations,
    {
        let n = self.cycle_count;
        self.cycle_count = self.cycle_count + 1;
        n
    }

    /// Completes a cycle that took `duration` against its `target`: counts
    /// the thought, adds the times, and counts the cycle as on time when it
    /// took no longer than the target. Returns whether it was on time.
    pub fn finish_cycle(&mut self, duration: Duration, target: Duration, stages: &StageDurations, produced: bool) -> (on_time: bool)
        requires
            old(self).thoughts_produced < u64::MAX,
            old(self).cycles_on_time < u64::MAX,
            old(self).total_duration@ + duration@ <= max_duration_nanos(),
            old(self).total_stage_durations.trigger@ + stages.trigger@ <= max_duration_nanos(),
            old(self).total_stage_durations.autoflow@ + stages.autoflow@ <= max_duration_nanos(),
            old(self).total_stage_durations.attention@ + stages.attention@ <= max_duration_nanos(),
            old(self).total_stage_durations.assembly@ + stages.assembly@ <= max_duration_nanos(),
            old(self).total_stage_durations.anchor@ + stages.anchor@ <= max_duration_nanos(),
        ensures
            on_time == (duration@ <= target@),
            final(self).cycle_count == old(self).cycle_count,
            final(self).thoughts_produced == old(self).thoughts_produced + if produced { 1int } else { 0int },
            final(self).cycles_on_time == old(self).cycles_on_time + if on_time { 1int } else { 0int },
            final(self).total_duration@ == old(self).total_duration@ + duration@,
            final(self).total_stage_durations.trigger@ == old(self).total_stage_durations.trigger@ + stages.trigger@,
            final(self).total_stage_durations.autoflow@ == old(self).total_stage_durations.autoflow@ + stages.autoflow@,
            final(self).total_stage_durations.attention@ == old(self).total_stage_durations.attention@ + stages.attention@,
            final(self).total_stage_durations.assembly@ == old(self).total_stage_durations.assembly@ + stages.assembly@,
            final(self).total_stage_durations.anchor@ == old(self).total_stage_durations.anchor@ + stages.anchor@,
    {
        if produced {
            self.thoughts_produced = self.thoughts_produced + 1;
        }
        self.total_duration = self.total_duration.plus(duration);
        self.total_stage_durations = self.total_stage_durations.add(stages);
        let on_time = duration.as_nanos() <= target.as_nanos();
        if on_time {
            self.cycles_on_time = self.cycles_on_time + 1;
        }
        on_time
    }

    /// Clears every total.
    pub fn reset(&mut self)
        ensures
            final(self).cycle_count == 0 && final(self).thoughts_produced == 0 && final(self).cycles_on_time == 0,
            final(self).total_duration@ == 0,
            stage_total(final(self).total_stage_durations) == 0,
    {
        *self = LoopTally::new();
    }

    /// The average time per cycle, rounding down, or zero before the first cycle.
    pub fn average_cycle_time(&self) -> (d: Duration)
        ensures
            self.cycle_count == 0 ==> d@ == 0,
            self.cycle_count != 0 ==> d@ == self.total_duration@ / (self.cycle_count as nat),
    {
        if self.cycle_count == 0 {
            Duration::zero()
        } else {
            self.total_duration.div_u64(self.cycle_count)
        }
    }

    /// The average time per stage.
    pub fn average_stage_durations(&self) -> (d: StageDurations)
        ensures
            self.cycle_count == 0 ==> stage_total(d) == 0,
            self.cycle_count != 0 ==> {
                let k = self.cycle_count as nat;
                &&& d.trigger@ == self.total_stage_durations.trigger@ / k
                &&& d.autoflow@ == self.total_stage_durations.autoflow@ / k
                &&& d.attention@ == self.total_stage_durations.attention@ / k
                &&& d.assembly@ == self.total_stage_durations.assembly@ / k
                &&& d.anchor@ == self.total_stage_durations.anchor@ / k
            },
    {
        self.total_stage_durations.div(self.cycle_count)
    }
}


/// The target cycle time of the default (human-speed) configuration: 50 ms.
pub open spec fn default_cycle_nanos() -> nat {
    50_000_000
}

/// The consolidation threshold a loop starts with: 0.7.
pub open spec fn default_consolidation_threshold() -> Real {
    0x3F33_3333
}

/// The cognitive loop: its run state, its cycle counters, the target cycle
/// time, the consolidation threshold and the volition that may veto a
/// thought before it is anchored.
///
/// A cycle runs as `begin_cycle`, then (after the stages) `check_volition`,
/// which ends a vetoed cycle, then `complete_cycle` for a thought that passed.
#[derive(Debug)]
pub struct CognitiveLoop {
    target_cycle: Duration,
    state: LoopState,
    tally: LoopTally,
    clock: Clock,
    last_cycle: u128,
    consolidation_threshold: Real,
    volition_state: VolitionState,
}

impl CognitiveLoop {
    /// The run state.
    pub closed spec fn loop_state(self) -> LoopState {
        self.state
    }

    /// The cycle counters.
    pub closed spec fn counters(self) -> LoopTally {
        self.tally
    }

    /// The target time of one cycle.
    pub closed spec fn target(self) -> Duration {
        self.target_cycle
    }

    /// The clock reading at which the last cycle completed (or the loop started).
    pub closed spec fn last_cycle_at(self) -> u128 {
        self.last_cycle
    }

    /// The composite salience a thought needs to be kept in long-term memory.
    pub closed spec fn threshold(self) -> Real {
        self.consolidation_threshold
    }

    /// The volition that evaluates each thought.
    pub closed spec fn volition(self) -> VolitionState {
        self.volition_state
    }

    /// Well formed: the volition's statistics are well formed.
    pub closed spec fn wf(self) -> bool {
        self.volition_state.wf()
    }

    /// A stopped loop at human speed (50 ms cycles).
    pub fn new() -> (l: CognitiveLoop)
        ensures
            l.wf(),
            l.loop_state() == LoopState::Stopped,
            l.target()@ == default_cycle_nanos(),
            l.counters().cycle_count == 0 && l.counters().thoughts_produced == 0 && l.counters().cycles_on_time == 0,
            l.threshold() == default_consolidation_threshold(),
            l.volition().config == crate::actors::volition::VolitionConfig::default_spec(),
            l.volition().stats.thoughts_evaluated == 0,
            l.volition().stats.thoughts_approved == 0 && l.volition().stats.thoughts_vetoed == 0,
            l.volition().stats.veto_counts() == Seq::<(Seq<char>, u64)>::empty(),
            l.volition().stats.can_record(),
            l.volition().values.protect_humans && l.volition().values.connection_over_efficiency
                && l.volition().values.truthfulness && l.volition().values.respect_autonomy,
            l.volition().values.commitments@.len() == 0,
    {
        CognitiveLoop::with_target_cycle(Duration::from_millis(50))
    }

    /// A stopped loop whose cycles aim at `target`.
    pub fn with_target_cycle(target: Duration) -> (l: CognitiveLoop)
        ensures
            l.wf(),
            l.loop_state() == LoopState::Stopped,
            l.target() == target,
            l.counters().cycle_count == 0 && l.counters().thoughts_produced == 0 && l.counters().cycles_on_time == 0,
            l.counters().total_duration@ == 0,
            stage_total(l.counters().total_stage_durations) == 0,
            l.threshold() == default_consolidation_threshold(),
            l.volition().config == crate::actors::volition::VolitionConfig::default_spec(),
            l.volition().stats.thoughts_evaluated == 0,
            l.volition().stats.thoughts_approved == 0 && l.volition().stats.thoughts_vetoed == 0,
            l.volition().stats.veto_counts() == Seq::<(Seq<char>, u64)>::empty(),
            l.volition().stats.can_record(),
            l.volition().values.protect_humans && l.volition().values.connection_over_efficiency
                && l.volition().values.truthfulness && l.volition().values.respect_autonomy,
            l.volition().values.commitments@.len() == 0,
    {
        let clock = Clock::new();
        let now = clock.now_nanos();
        CognitiveLoop {
            target_cycle: target,
            state: LoopState::Stopped,
            tally: LoopTally::new(),
            clock,
            last_cycle: now,
            consolidation_threshold: 0x3F33_3333,
            volition_state: VolitionState::new(),
        }
    }

    /// The run state.
    pub fn state(&self) -> (s: LoopState)
        ensures
            s == self.loop_state(),
    {
        self.state
    }

    /// Cycles started so far.
    pub fn cycle_count(&self) -> (n: u64)
        ensures
            n == self.counters().cycle_count,
    {
        self.tally.cycle_count
    }

    /// The cycle counters.
    pub fn tally(&self) -> (t: &LoopTally)
        ensures
            *t == self.counters(),
    {
        &self.tally
    }

    /// The volition that evaluates each thought.
    pub fn volition_state(&self) -> (v: &VolitionState)
        ensures
            *v == self.volition(),
    {
        &self.volition_state
    }

    /// The target time of one cycle.
    pub fn target_cycle(&self) -> (d: Duration)
        ensures
            d == self.target(),
    {
        self.target_cycle
    }

    /// Sets the target time of one cycle.
    pub fn set_target_cycle(&mut self, target: Duration)
        ensures
            final(self).target() == target,
            final(self).loop_state() == old(self).loop_state(),
            final(self).counters() == old(self).counters(),
            final(self).last_cycle_at() == old(self).last_cycle_at(),
            final(self).threshold() == old(self).threshold(),
            final(self).volition() == old(self).volition(),
            final(self).wf() == old(self).wf(),
    {
        self.target_cycle = target;
    }

    /// Whether the loop is running.
    pub fn is_running(&self) -> (b: bool)
        ensures
            b == (self.loop_state() == LoopState::Running),
    {
        self.state.is_running()
    }

    /// Starts (or resumes) the loop; the cycle timer restarts now.
    pub fn start(&mut self)
        ensures
            final(self).loop_state() == started(old(self).loop_state()),
            final(self).counters() == old(self).counters(),
            final(self).target() == old(self).target(),
            final(self).threshold() == old(self).threshold(),
            final(self).volition() == old(self).volition(),
            final(self).wf() == old(self).wf(),
    {
        let now = self.now();
        self.start_at(now);
    }

    /// Starts (or resumes) the loop; the cycle timer restarts at clock reading `now`.
    pub fn start_at(&mut self, now: u128)
        ensures
            final(self).loop_state() == started(old(self).loop_state()),
            final(self).counters() == old(self).counters(),
            final(self).target() == old(self).target(),
            final(self).threshold() == old(self).threshold(),
            final(self).volition() == old(self).volition(),
            final(self).wf() == old(self).wf(),
            final(self).last_cycle_at() == now,
    {
        self.state.start();
        self.last_cycle = now;
    }

    /// Pauses a running loop; a paused or stopped loop is left as it is.
    pub fn pause(&mut self)
        ensures
            final(self).loop_state() == paused(old(self).loop_state()),
            final(self).counters() == old(self).counters(),
            final(self).target() == old(self).target(),
            final(self).last_cycle_at() == old(self).last_cycle_at(),
            final(self).threshold() == old(self).threshold(),
            final(self).volition() == old(self).volition(),
            final(self).wf() == old(self).wf(),
    {
        self.state.pause();
    }

    /// Stops the loop.
    pub fn stop(&mut self)
        ensures
            final(self).loop_state() == stopped(old(self).loop_state()),
            final(self).counters() == old(self).counters(),
            final(self).target() == old(self).target(),
            final(self).last_cycle_at() == old(self).last_cycle_at(),
            final(self).threshold() == old(self).threshold(),
            final(self).volition() == old(self).volition(),
            final(self).wf() == old(self).wf(),
    {
        self.state.stop();
    }

    /// The consolidation threshold.
    pub fn consolidation_threshold(&self) -> (t: Real)
        ensures
            t == self.threshold(),
    {
        self.consolidation_threshold
    }

    /// Sets the consolidation threshold, clamped to [0.0, 1.0].
    pub fn set_consolidation_threshold(&mut self, threshold: Real)
        ensures
            final(self).threshold() == spec_clamp(threshold, 0x0000_0000, 0x3F80_0000),
            final(self).loop_state() == old(self).loop_state(),
            final(self).counters() == old(self).counters(),
            final(self).target() == old(self).target(),
            final(self).last_cycle_at() == old(self).last_cycle_at(),
            final(self).volition() == old(self).volition(),
            final(self).wf() == old(self).wf(),
    {
        self.consolidation_threshold = real_clamp(threshold, 0x0000_0000, 0x3F80_0000);
    }

    /// Whether a thought of this composite salience is kept in long-term memory.
    pub fn should_consolidate(&self, composite: Real) -> (b: bool)
        ensures
            b == worth_consolidating(composite, self.threshold()),
    {
        should_consolidate(composite, self.consolidation_threshold)
    }

    /// Clears the cycle counters and restarts the cycle timer now; the run
    /// state, target, threshold and volition are kept.
    pub fn reset_metrics(&mut self)
        ensures
            final(self).counters().cycle_count == 0,
            final(self).counters().thoughts_produced == 0,
            final(self).counters().cycles_on_time == 0,
            final(self).counters().total_duration@ == 0,
            stage_total(final(self).counters().total_stage_durations) == 0,
            final(self).loop_state() == old(self).loop_state(),
            final(self).target() == old(self).target(),
            final(self).threshold() == old(self).threshold(),
            final(self).volition() == old(self).volition(),
            final(self).wf() == old(self).wf(),
    {
        let now = self.now();
        self.reset_metrics_at(now);
    }

    /// Clears every total; the cycle timer restarts at clock reading `now`.
    pub fn reset_metrics_at(&mut self, now: u128)
        ensures
            final(self).counters().cycle_count == 0,
            final(self).counters().thoughts_produced == 0,
            final(self).counters().cycles_on_time == 0,
            final(self).counters().total_duration@ == 0,
            stage_total(final(self).counters().total_stage_durations) == 0,
            final(self).loop_state() == old(self).loop_state(),
            final(self).target() == old(self).target(),
            final(self).threshold() == old(self).threshold(),
            final(self).volition() == old(self).volition(),
            final(self).wf() == old(self).wf(),
            final(self).last_cycle_at() == now,
    {
        self.tally.reset();
        self.last_cycle = now;
    }

    /// The time since the last cycle completed, at clock reading `now`.
    pub fn time_since_last_cycle_at(&self, now: u128) -> (d: Duration)
        ensures
            d@ == span_since(now, self.last_cycle_at()),
    {
        Duration::between_readings(now, self.last_cycle)
    }

    /// A reading of the loop's monotonic clock.
    pub fn now(&self) -> u128 {
        self.clock.now_nanos()
    }

    /// The time since the last cycle completed.
    pub fn time_since_last_cycle(&self) -> (d: Duration)
        ensures
            exists|now: u128| d@ == span_since(now, self.last_cycle_at()),
    {
        let now = self.now();
        self.time_since_last_cycle_at(now)
    }

    /// Whether the next cycle is due at clock reading `now`.
    pub fn should_cycle_at(&self, now: u128) -> (b: bool)
        ensures
            b == (span_since(now, self.last_cycle_at()) >= self.target()@),
    {
        should_cycle(self.time_since_last_cycle_at(now), self.target_cycle)
    }

    /// Whether the next cycle is due.
    pub fn should_cycle(&self) -> (b: bool)
        ensures
            exists|now: u128| b == (span_since(now, self.last_cycle_at()) >= self.target()@),
    {
        let now = self.now();
        self.should_cycle_at(now)
    }

    /// How long to wait before the next cycle, at clock reading `now`.
    pub fn time_until_next_cycle_at(&self, now: u128) -> (d: Duration)
        ensures
            d@ == if span_since(now, self.last_cycle_at()) >= self.target()@ {
                0
            } else {
                (self.target()@ - span_since(now, self.last_cycle_at())) as nat
            },
    {
        time_until_next_cycle(self.time_since_last_cycle_at(now), self.target_cycle)
    }

    /// How long to wait before the next cycle.
    pub fn time_until_next_cycle(&self) -> (d: Duration)
        ensures
            d@ <= self.target()@,
            exists|now: u128| d@ == if span_since(now, self.last_cycle_at()) >= self.target()@ {
                0
            } else {
                (self.target()@ - span_since(now, self.last_cycle_at())) as nat
            },
    {
        let now = self.now();
        self.time_until_next_cycle_at(now)
    }

    /// Starts a cycle: returns its number and counts it.
    pub fn begin_cycle(&mut self) -> (n: u64)
        requires
            old(self).counters().cycle_count < u64::MAX,
        ensures
            n == old(self).counters().cycle_count,
            final(self).counters() == (LoopTally { cycle_count: (n + 1) as u64, ..old(self).counters() }),
            final(self).loop_state() == old(self).loop_state(),
            final(self).target() == old(self).target(),
            final(self).last_cycle_at() == old(self).last_cycle_at(),
            final(self).threshold() == old(self).threshold(),
            final(self).volition() == old(self).volition(),
            final(self).wf() == old(self).wf(),
    {
        self.tally.begin_cycle()
    }

    /// Puts an assembled thought before volition. A vetoed thought ends the
    /// cycle: the result records the veto, no thought is produced, and the
    /// counters are left as they are. An allowed thought gives `None` and the
    /// cycle goes on to `complete_cycle`. Either way the evaluation is counted
    /// in the volition's statistics.
    pub fn check_volition(
        &mut self,
        thought: &Thought,
        cycle_number: u64,
        elapsed: Duration,
        composite_salience: Real,
        candidates_evaluated: usize,
        stage_durations: &StageDurations,
    ) -> (r: Option<CycleResult>)
        requires
            old(self).wf(),
            old(self).volition().stats.can_record(),
        ensures
            final(self).wf(),
            final(self).volition().values == old(self).volition().values,
            final(self).volition().config == old(self).volition().config,
            final(self).counters() == old(self).counters(),
            final(self).loop_state() == old(self).loop_state(),
            final(self).target() == old(self).target(),
            final(self).last_cycle_at() == old(self).last_cycle_at(),
            final(self).threshold() == old(self).threshold(),
            match verdict(old(self).volition().values, old(self).volition().config, *thought, composite_salience) {
                None => {
                    &&& r is None
                    &&& old(self).volition().stats.recorded(final(self).volition().stats, true, None)
                },
                Some((reason, value, key)) => {
                    &&& r matches Some(c) && {
                        &&& c.veto matches Some((rs, vs)) && rs@ == reason && opt_text(vs) == value
                        &&& c.cycle_number == cycle_number
                        &&& c.duration == elapsed
                        &&& c.thought_produced is None
                        &&& c.salience == composite_salience
                        &&& c.valence == thought.salience.valence
                        &&& c.arousal == thought.salience.arousal
                        &&& c.candidates_evaluated == candidates_evaluated
                        &&& c.on_time == (elapsed@ <= old(self).target()@)
                        &&& c.stage_durations == *stage_durations
                    }
                    &&& old(self).volition().stats.recorded(final(self).volition().stats, false, Some(key))
                },
            },
    {
        let decision = self.volition_state.evaluate_thought(thought, composite_salience);
        veto_outcome(
            decision,
            cycle_number,
            elapsed,
            self.target_cycle,
            composite_salience,
            &thought.salience,
            candidates_evaluated,
            stage_durations,
        )
    }

    /// Whether the volition's counters can take one more evaluation.
    pub fn can_evaluate(&self) -> (b: bool)
        ensures
            b == self.volition().stats.can_record(),
    {
        self.volition_state.stats.has_room()
    }

    /// Completes a cycle that produced `thought_id` and took `duration`: the
    /// thought and the times are counted, the cycle counts as on time when it
    /// took no longer than the target, and the cycle timer restarts at clock
    /// reading `now`.
    pub fn complete_cycle_at(
        &mut self,
        now: u128,
        cycle_number: u64,
        duration: Duration,
        thought_id: ThoughtId,
        composite_salience: Real,
        salience: &SalienceScore,
        candidates_evaluated: usize,
        stage_durations: StageDurations,
    ) -> (r: CycleResult)
        requires
            old(self).counters().thoughts_produced < u64::MAX,
            old(self).counters().cycles_on_time < u64::MAX,
            old(self).counters().total_duration@ + duration@ <= max_duration_nanos(),
            old(self).counters().total_stage_durations.trigger@ + stage_durations.trigger@ <= max_duration_nanos(),
            old(self).counters().total_stage_durations.autoflow@ + stage_durations.autoflow@ <= max_duration_nanos(),
            old(self).counters().total_stage_durations.attention@ + stage_durations.attention@ <= max_duration_nanos(),
            old(self).counters().total_stage_durations.assembly@ + stage_durations.assembly@ <= max_duration_nanos(),
            old(self).counters().total_stage_durations.anchor@ + stage_durations.anchor@ <= max_duration_nanos(),
        ensures
            r == (CycleResult {
                cycle_number,
                duration,
                thought_produced: Some(thought_id),
                salience: composite_salience,
                valence: salience.valence,
                arousal: salience.arousal,
                candidates_evaluated,
                on_time: duration@ <= old(self).target()@,
                stage_durations,
                veto: None,
            }),
            final(self).counters().cycle_count == old(self).counters().cycle_count,
            final(self).counters().thoughts_produced == old(self).counters().thoughts_produced + 1,
            final(self).counters().cycles_on_time == old(self).counters().cycles_on_time + if r.on_time { 1int } else { 0int },
            final(self).counters().total_duration@ == old(self).counters().total_duration@ + duration@,
            final(self).counters().total_stage_durations.trigger@ == old(self).counters().total_stage_durations.trigger@ + stage_durations.trigger@,
            final(self).counters().total_stage_durations.autoflow@ == old(self).counters().total_stage_durations.autoflow@ + stage_durations.autoflow@,
            final(self).counters().total_stage_durations.attention@ == old(self).counters().total_stage_durations.attention@ + stage_durations.attention@,
            final(self).counters().total_stage_durations.assembly@ == old(self).counters().total_stage_durations.assembly@ + stage_durations.assembly@,
            final(self).counters().total_stage_durations.anchor@ == old(self).counters().total_stage_durations.anchor@ + stage_durations.anchor@,
            final(self).loop_state() == old(self).loop_state(),
            final(self).target() == old(self).target(),
            final(self).threshold() == old(self).threshold(),
            final(self).volition() == old(self).volition(),
            final(self).wf() == old(self).wf(),
            final(self).last_cycle_at() == now,
    {
        let on_time = self.tally.finish_cycle(duration, self.target_cycle, &stage_durations, true);
        self.last_cycle = now;
        CycleResult::new(
            cycle_number,
            duration,
            Some(thought_id),
            composite_salience,
            salience.valence,
            salience.arousal,
            candidates_evaluated,
            on_time,
            stage_durations,
            None,
        )
    }

    /// Completes a cycle that produced `thought_id` and took `duration`: the
    /// thought and the times are counted, the cycle counts as on time when it
    /// took no longer than the target, and the cycle timer restarts now.
    pub fn complete_cycle(
        &mut self,
        cycle_number: u64,
        duration: Duration,
        thought_id: ThoughtId,
        composite_salience: Real,
        salience: &SalienceScore,
        candidates_evaluated: usize,
        stage_durations: StageDurations,
    ) -> (r: CycleResult)
        requires
            old(self).counters().thoughts_produced < u64::MAX,
            old(self).counters().cycles_on_time < u64::MAX,
            old(self).counters().total_duration@ + duration@ <= max_duration_nanos(),
            old(self).counters().total_stage_durations.trigger@ + stage_durations.trigger@ <= max_duration_nanos(),
            old(self).counters().total_stage_durations.autoflow@ + stage_durations.autoflow@ <= max_duration_nanos(),
            old(self).counters().total_stage_durations.attention@ + stage_durations.attention@ <= max_duration_nanos(),
            old(self).counters().total_stage_durations.assembly@ + stage_durations.assembly@ <= max_duration_nanos(),
            old(self).counters().total_stage_durations.anchor@ + stage_durations.anchor@ <= max_duration_nanos(),
        ensures
            r == (CycleResult {
                cycle_number,
                duration,
                thought_produced: Some(thought_id),
                salience: composite_salience,
                valence: salience.valence,
                arousal: salience.arousal,
                candidates_evaluated,
                on_time: duration@ <= old(self).target()@,
                stage_durations,
                veto: None,
            }),
            final(self).counters().cycle_count == old(self).counters().cycle_count,
            final(self).counters().thoughts_produced == old(self).counters().thoughts_produced + 1,
            final(self).counters().cycles_on_time == old(self).counters().cycles_on_time + if r.on_time { 1int } else { 0int },
            final(self).counters().total_duration@ == old(self).counters().total_duration@ + duration@,
            final(self).counters().total_stage_durations.trigger@ == old(self).counters().total_stage_durations.trigger@ + stage_durations.trigger@,
            final(self).counters().total_stage_durations.autoflow@ == old(self).counters().total_stage_durations.autoflow@ + stage_durations.autoflow@,
            final(self).counters().total_stage_durations.attention@ == old(self).counters().total_stage_durations.attention@ + stage_durations.attention@,
            final(self).counters().total_stage_durations.assembly@ == old(self).counters().total_stage_durations.assembly@ + stage_durations.assembly@,
            final(self).counters().total_stage_durations.anchor@ == old(self).counters().total_stage_durations.anchor@ + stage_durations.anchor@,
            final(self).loop_state() == old(self).loop_state(),
            final(self).target() == old(self).target(),
            final(self).threshold() == old(self).threshold(),
            final(self).volition() == old(self).volition(),
            final(self).wf() == old(self).wf(),
    {
        let now = self.now();
        self.complete_cycle_at(
            now,
            cycle_number,
            duration,
            thought_id,
            composite_salience,
            salience,
            candidates_evaluated,
            stage_durations,
        )
    }
}

impl Default for CognitiveLoop {
    /// A stopped loop at human speed (see `new`).
    fn default() -> (l: CognitiveLoop)
        ensures
            l.wf(),
            l.loop_state() == LoopState::Stopped,
            l.target()@ == default_cycle_nanos(),
            l.counters().cycle_count == 0 && l.counters().thoughts_produced == 0 && l.counters().cycles_on_time == 0,
            l.threshold() == default_consolidation_threshold(),
            l.volition().config == crate::actors::volition::VolitionConfig::default_spec(),
            l.volition().stats.thoughts_evaluated == 0,
            l.volition().stats.thoughts_approved == 0 && l.volition().stats.thoughts_vetoed == 0,
            l.volition().stats.veto_counts() == Seq::<(Seq<char>, u64)>::empty(),
            l.volition().stats.can_record(),
            l.volition().values.protect_humans && l.volition().values.connection_over_efficiency
                && l.volition().values.truthfulness && l.volition().values.respect_autonomy,
            l.volition().values.commitments@.len() == 0,
    {
        CognitiveLoop::new()
    }
}

} // verus!
