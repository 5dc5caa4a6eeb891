//! Sleep types: phases, configuration, cycle reports and summaries.
use vstd::prelude::*;
use crate::ieee::Real;

verus! {

/// The sleep phase of the system.
#[derive(Debug, Clone, Copy, PartialEq, Eq, Structural)]
pub enum SleepState {
    /// Awake and processing
    Awake,
    /// Transitioning into sleep
    EnteringSleep,
    /// Light sleep (interruptible)
    LightSleep,
    /// Deep sleep: consolidation (protected)
    DeepSleep,
    /// Dreaming: integration (protected)
    Dreaming,
    /// Transitioning back to awake
    Waking,
}

/// Sleep scheduling and consolidation parameters.
#[derive(Debug, Clone, Copy, PartialEq, Eq, Structural)]
pub struct SleepConfig {
    /// Idle time before sleep may begin (milliseconds)
    pub idle_threshold_ms: u64,
    /// Minimum time awake before sleep may begin (milliseconds)
    pub min_awake_duration_ms: u64,
    /// Pending consolidations that allow sleep before the minimum awake time
    pub min_consolidation_queue: usize,
    /// Memories replayed per batch
    pub replay_batch_size: usize,
    /// Fraction of a cycle spent in light sleep
    pub light_sleep_duration_pct: Real,
}

impl SleepConfig {
    /// The default configuration, in specifications.
    pub open spec fn spec_default() -> SleepConfig {
        SleepConfig {
            idle_threshold_ms: 300_000,
            min_awake_duration_ms: 3_600_000,
            min_consolidation_queue: 100,
            replay_batch_size: 50,
            light_sleep_duration_pct: 0x3E4C_CCCD,
        }
    }

    /// A configuration for fast cycles: sleep after a second of idleness.
    pub fn fast() -> (c: SleepConfig)
        ensures
            c == (SleepConfig {
                idle_threshold_ms: 1_000,
                min_awake_duration_ms: 0,
                min_consolidation_queue: 1,
                replay_batch_size: 10,
                light_sleep_duration_pct: 0x3E4C_CCCD,
            }),
    {
        SleepConfig {
            idle_threshold_ms: 1_000,
            min_awake_duration_ms: 0,
            min_consolidation_queue: 1,
            replay_batch_size: 10,
            light_sleep_duration_pct: 0x3E4C_CCCD,
        }
    }
}

impl Default for SleepConfig {
    /// Sleep after 5 idle minutes once awake an hour (or with 100 pending
    /// consolidations); batches of 50; a fifth of each cycle in light sleep.
    fn default() -> (c: SleepConfig)
        ensures
            c == SleepConfig::spec_default(),
    {
        SleepConfig {
            idle_threshold_ms: 300_000,
            min_awake_duration_ms: 3_600_000,
            min_consolidation_queue: 100,
            replay_batch_size: 50,
            light_sleep_duration_pct: 0x3E4C_CCCD,
        }
    }
}

/// How a sleep cycle ended.
#[derive(Debug, Clone, Copy, PartialEq, Eq, Structural)]
pub enum SleepCycleStatus {
    /// The cycle ran to completion
    Completed,
    /// The cycle was interrupted
    Interrupted,
}

/// Report of one sleep cycle.
#[derive(Debug, Clone, Copy, PartialEq, Eq, Structural)]
pub struct SleepCycleReport {
    /// Cycle identifier (a uuid value)
    pub cycle_id: u128,
    /// Duration of the cycle (milliseconds)
    pub duration_ms: u64,
    /// Memories replayed
    pub memories_replayed: usize,
    /// Memories consolidated
    pub memories_consolidated: usize,
    /// Associations strengthened
    pub associations_strengthened: usize,
    /// Associations pruned
    pub associations_pruned: usize,
    /// Average replay priority
    pub avg_replay_priority: Real,
    /// Peak emotional intensity replayed
    pub peak_emotional_intensity: Real,
    /// How the cycle ended
    pub status: SleepCycleStatus,
}

/// Totals over the cycles of one sleep.
#[derive(Debug, Clone, Copy, PartialEq, Eq, Structural)]
pub struct SleepSummary {
    /// Cycles completed
    pub cycles_completed: u32,
    /// Memories replayed
    pub total_memories_replayed: usize,
    /// Memories consolidated
    pub total_memories_consolidated: usize,
    /// Associations strengthened
    pub total_associations_strengthened: usize,
    /// Associations pruned
    pub total_associations_pruned: usize,
    /// Total time asleep (milliseconds)
    pub total_duration_ms: u64,
}

impl SleepSummary {
    /// The empty summary, in specifications.
    pub open spec fn spec_default() -> SleepSummary {
        SleepSummary {
            cycles_completed: 0,
            total_memories_replayed: 0,
            total_memories_consolidated: 0,
            total_associations_strengthened: 0,
            total_associations_pruned: 0,
            total_duration_ms: 0,
        }
    }

    /// Whether a cycle's counts can be added without overflow.
    pub open spec fn can_add(self, r: SleepCycleReport) -> bool {
        &&& self.cycles_completed < u32::MAX
        &&& self.total_memories_replayed + r.memories_replayed <= usize::MAX
        &&& self.total_memories_consolidated + r.memories_consolidated <= usize::MAX
        &&& self.total_associations_strengthened + r.associations_strengthened <= usize::MAX
        &&& self.total_associations_pruned + r.associations_pruned <= usize::MAX
        &&& self.total_duration_ms + r.duration_ms <= u64::MAX
    }

    /// The summary with one more cycle's counts added.
    pub open spec fn spec_add_cycle(self, r: SleepCycleReport) -> SleepSummary {
        SleepSummary {
            cycles_completed: (self.cycles_completed + 1) as u32,
            total_memories_replayed: (self.total_memories_replayed + r.memories_replayed) as usize,
            total_memories_consolidated: (self.total_memories_consolidated + r.memories_consolidated) as usize,
            total_associations_strengthened: (self.total_associations_strengthened + r.associations_strengthened) as usize,
            total_associations_pruned: (self.total_associations_pruned + r.associations_pruned) as usize,
            total_duration_ms: (self.total_duration_ms + r.duration_ms) as u64,
        }
    }

    /// Adds one cycle's counts.
    pub fn add_cycle(&mut self, r: &SleepCycleReport)
        requires
            old(self).can_add(*r),
        ensures
            *final(self) == old(self).spec_add_cycle(*r),
    {
        self.cycles_completed = self.cycles_completed + 1;
        self.total_memories_replayed = self.total_memories_replayed + r.memories_replayed;
        self.total_memories_consolidated = self.total_memories_consolidated + r.memories_consolidated;
        self.total_associations_strengthened = self.total_associations_strengthened + r.associations_strengthened;
        self.total_associations_pruned = self.total_associations_pruned + r.associations_pruned;
        self.total_duration_ms = self.total_duration_ms + r.duration_ms;
    }
}

impl Default for SleepSummary {
    /// The empty summary.
    fn default() -> (s: SleepSummary)
        ensures
            s == SleepSummary::spec_default(),
    {
        SleepSummary {
            cycles_completed: 0,
            total_memories_replayed: 0,
            total_memories_consolidated: 0,
            total_associations_strengthened: 0,
            total_associations_pruned: 0,
            total_duration_ms: 0,
        }
    }
}

/// Result of a request to enter sleep.
#[derive(Debug, Clone, PartialEq)]
pub enum SleepResult {
    /// Sleep began
    Started,
    /// Already asleep
    AlreadySleeping,
    /// The conditions for sleep are not met
    ConditionsNotMet { reason: String },
}

} // verus!
