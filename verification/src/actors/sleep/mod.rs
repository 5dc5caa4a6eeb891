//! Sleep: memory consolidation.
//!
//! The system sleeps when it has been idle long enough and has either been
//! awake long enough or has enough memories waiting for consolidation. A
//! sleep runs through light sleep, deep sleep and dreaming; deep sleep and
//! dreaming are protected from external stimuli.
pub mod types;

use vstd::prelude::*;
use vstd::string::*;
use crate::ieee::{Real, spec_lt, real_lt};
use crate::time::Clock;
use types::{SleepConfig, SleepCycleReport, SleepResult, SleepSummary};

verus! {

/// Whole milliseconds from reading `t` to reading `now` (zero if `t` is
/// later), capped at `u64::MAX`.
pub open spec fn millis_since(now: u128, t: u128) -> nat {
    let nanos: nat = if now >= t { (now - t) as nat } else { 0 };
    let ms = nanos / 1_000_000;
    if ms > u64::MAX { u64::MAX as nat } else { ms }
}

fn millis_between(now: u128, t: u128) -> (ms: u64)
    ensures
        ms == millis_since(now, t),
{
    let nanos: u128 = if now >= t { now - t } else { 0 };
    let ms = nanos / 1_000_000;
    if ms > 0xFFFF_FFFF_FFFF_FFFFu128 { 0xFFFF_FFFF_FFFF_FFFFu64 } else { ms as u64 }
}

/// The pattern of `0.7`, the end of deep sleep within a cycle.
pub const DEEP_SLEEP_END_PCT: Real = 0x3F33_3333;

/// The phase at a point of a sleep cycle: light sleep before the configured
/// fraction, deep sleep before 0.7, dreaming after (NaN counts as after).
pub open spec fn phase_at(pct: Real, config: SleepConfig) -> types::SleepState {
    if spec_lt(pct, config.light_sleep_duration_pct) {
        types::SleepState::LightSleep
    } else if spec_lt(pct, DEEP_SLEEP_END_PCT) {
        types::SleepState::DeepSleep
    } else {
        types::SleepState::Dreaming
    }
}

/// Whether a phase yields to external stimuli.
pub open spec fn interruptible(s: types::SleepState) -> bool {
    match s {
        types::SleepState::Awake | types::SleepState::EnteringSleep | types::SleepState::LightSleep
        | types::SleepState::Waking => true,
        types::SleepState::DeepSleep | types::SleepState::Dreaming => false,
    }
}

/// State of the sleep actor.
#[derive(Debug)]
pub struct SleepState {
    /// Current sleep phase
    pub state: types::SleepState,
    /// Configuration
    pub config: SleepConfig,
    /// Summary of the current sleep, if asleep
    pub current_summary: Option<SleepSummary>,
    /// Estimated number of memories waiting for consolidation
    pub consolidation_queue_estimate: usize,
    /// When the system was last active and since when it is awake
    pub timing: SleepTiming,
}

/// The clock of the sleep actor and its readings of the last activity and of
/// the last waking.
#[derive(Debug)]
pub struct SleepTiming {
    clock: Clock,
    last_activity: u128,
    awake_since: u128,
}

impl SleepTiming {
    /// The clock reading of the last activity.
    pub closed spec fn last_activity_at(self) -> u128 {
        self.last_activity
    }

    /// The clock reading at which the system last woke.
    pub closed spec fn awake_since_at(self) -> u128 {
        self.awake_since
    }

    fn start() -> (t: SleepTiming)
        ensures
            t.last_activity_at() == t.awake_since_at(),
    {
        let clock = Clock::new();
        let now = clock.now_nanos();
        SleepTiming { clock, last_activity: now, awake_since: now }
    }

    fn now(&self) -> u128 {
        self.clock.now_nanos()
    }

    fn millis_idle(&self, now: u128) -> (ms: u64)
        ensures
            ms == millis_since(now, self.last_activity_at()),
    {
        millis_between(now, self.last_activity)
    }

    fn millis_awake(&self, now: u128) -> (ms: u64)
        ensures
            ms == millis_since(now, self.awake_since_at()),
    {
        millis_between(now, self.awake_since)
    }

    fn set_active(&mut self, now: u128)
        ensures
            final(self).last_activity_at() == now,
            final(self).awake_since_at() == old(self).awake_since_at(),
    {
        self.last_activity = now;
    }

    fn set_awake(&mut self, now: u128)
        ensures
            final(self).last_activity_at() == now,
            final(self).awake_since_at() == now,
    {
        self.awake_since = now;
        self.last_activity = now;
    }
}

/// What trying to enter sleep at clock reading `now` does: refused with
/// `AlreadySleeping` when not awake and with `ConditionsNotMet` when sleep is
/// not due, changing nothing; otherwise the system enters sleep with an empty
/// summary.
pub open spec fn enter_outcome(before: SleepState, after: SleepState, now: u128, r: SleepResult) -> bool {
    if before.state != types::SleepState::Awake {
        r == SleepResult::AlreadySleeping && after == before
    } else if !before.sleep_due(now) {
        &&& r matches SleepResult::ConditionsNotMet { reason } && reason@ == "Sleep conditions not met"@
        &&& after == before
    } else {
        &&& r == SleepResult::Started
        &&& after == (SleepState {
                state: types::SleepState::EnteringSleep,
                current_summary: Some(SleepSummary::spec_default()),
                ..before
            })
    }
}

/// Sleep is never due within the idle threshold of the last activity, nor,
/// with fewer memories waiting than the queue minimum, within the minimum
/// awake time of waking; and it is never due unless awake.
pub proof fn law_recent_activity_keeps_awake(s: SleepState, now: u128)
    ensures
        now <= s.last_activity_at() + s.config.idle_threshold_ms * 1_000_000 ==> !s.sleep_due(now),
        now <= s.awake_since_at() + s.config.min_awake_duration_ms * 1_000_000
            && s.consolidation_queue_estimate < s.config.min_consolidation_queue ==> !s.sleep_due(now),
        s.state != types::SleepState::Awake ==> !s.sleep_due(now),
{
    let t = s.config.idle_threshold_ms as int;
    if now >= s.last_activity_at() && now <= s.last_activity_at() + t * 1_000_000 {
        let d = (now - s.last_activity_at()) as int;
        assert(d / 1_000_000 <= t) by (nonlinear_arith)
            requires
                0 <= d <= t * 1_000_000,
                t >= 0,
        ;
    }
    let m = s.config.min_awake_duration_ms as int;
    if now >= s.awake_since_at() && now <= s.awake_since_at() + m * 1_000_000 {
        let d = (now - s.awake_since_at()) as int;
        assert(d / 1_000_000 <= m) by (nonlinear_arith)
            requires
                0 <= d <= m * 1_000_000,
                m >= 0,
        ;
    }
}

/// Sleep is due once the system is awake, has been idle for more than the
/// idle threshold and either has been awake for more than the minimum or
/// has enough memories waiting (thresholds below the largest count).
pub proof fn law_long_idleness_brings_sleep(s: SleepState, now: u128)
    requires
        s.state == types::SleepState::Awake,
        s.config.idle_threshold_ms < u64::MAX,
        now >= s.last_activity_at() + (s.config.idle_threshold_ms + 1) * 1_000_000,
        (s.config.min_awake_duration_ms < u64::MAX
            && now >= s.awake_since_at() + (s.config.min_awake_duration_ms + 1) * 1_000_000)
            || s.consolidation_queue_estimate >= s.config.min_consolidation_queue,
    ensures
        s.sleep_due(now),
{
    let t = s.config.idle_threshold_ms as int;
    let d = (now - s.last_activity_at()) as int;
    assert(d / 1_000_000 >= t + 1) by (nonlinear_arith)
        requires
            d >= (t + 1) * 1_000_000,
    ;
    if s.config.min_awake_duration_ms < u64::MAX && now >= s.awake_since_at() + (s.config.min_awake_duration_ms + 1) * 1_000_000 {
        let m = s.config.min_awake_duration_ms as int;
        let e = (now - s.awake_since_at()) as int;
        assert(e / 1_000_000 >= m + 1) by (nonlinear_arith)
            requires
                e >= (m + 1) * 1_000_000,
        ;
    }
}

/// A request to the sleep actor.
#[derive(Debug, Clone)]
pub enum SleepRequest {
    /// Are the conditions for sleep met?
    CheckSleepConditions,
    /// Try to enter sleep
    EnterSleep,
    /// Wake up and hand over the sleep's summary
    Wake,
    /// The current phase
    GetState,
    /// An external stimulus arrived
    ExternalStimulus,
    /// Activity happened (a memory awaits consolidation)
    RecordActivity,
    /// The configuration
    GetConfig,
    /// Replace the configuration
    UpdateConfig { config: SleepConfig },
}

/// The sleep actor's answer to a request.
#[derive(Debug, Clone)]
pub enum SleepReply {
    /// Whether sleep is due
    ShouldSleep(bool),
    /// The outcome of trying to enter sleep
    Entered(SleepResult),
    /// The summary of the sleep just ended
    Woke(SleepSummary),
    /// The current phase
    State(types::SleepState),
    /// Whether the stimulus was taken (false in protected sleep)
    StimulusTaken(bool),
    /// Activity was recorded
    ActivityRecorded,
    /// The configuration
    Config(SleepConfig),
    /// The configuration was replaced
    ConfigUpdated,
}

impl SleepState {
    /// The clock reading of the last activity.
    pub open spec fn last_activity_at(self) -> u128 {
        self.timing.last_activity_at()
    }

    /// The clock reading at which the system last woke.
    pub open spec fn awake_since_at(self) -> u128 {
        self.timing.awake_since_at()
    }

    /// Whether sleep is due at clock reading `now`: awake, idle longer than
    /// the threshold, and either awake longer than the minimum or with
    /// enough memories waiting.
    pub open spec fn sleep_due(self, now: u128) -> bool {
        &&& self.state == types::SleepState::Awake
        &&& millis_since(now, self.last_activity_at()) > self.config.idle_threshold_ms
        &&& (millis_since(now, self.awake_since_at()) > self.config.min_awake_duration_ms
            || self.consolidation_queue_estimate >= self.config.min_consolidation_queue)
    }

    /// Fresh state: awake, nothing waiting, no summary.
    pub fn new(config: SleepConfig) -> (s: SleepState)
        ensures
            s.state == types::SleepState::Awake,
            s.config == config,
            s.current_summary is None,
            s.consolidation_queue_estimate == 0,
            s.last_activity_at() == s.awake_since_at(),
    {
        SleepState {
            state: types::SleepState::Awake,
            config,
            current_summary: None,
            consolidation_queue_estimate: 0,
            timing: SleepTiming::start(),
        }
    }

    /// A reading of this state's monotonic clock.
    pub fn now(&self) -> u128 {
        self.timing.now()
    }

    /// Whether sleep is due at clock reading `now`.
    pub fn should_sleep_at(&self, now: u128) -> (b: bool)
        ensures
            b == self.sleep_due(now),
            now <= self.last_activity_at() + self.config.idle_threshold_ms * 1_000_000 ==> !b,
            now <= self.awake_since_at() + self.config.min_awake_duration_ms * 1_000_000
                && self.consolidation_queue_estimate < self.config.min_consolidation_queue ==> !b,
            self.state != types::SleepState::Awake ==> !b,
    {
        proof {
            law_recent_activity_keeps_awake(*self, now);
        }
        if self.state != types::SleepState::Awake {
            return false;
        }
        let idle = self.timing.millis_idle(now);
        let awake = self.timing.millis_awake(now);
        let idle_trigger = idle > self.config.idle_threshold_ms;
        let awake_trigger = awake > self.config.min_awake_duration_ms;
        let queue_trigger = self.consolidation_queue_estimate >= self.config.min_consolidation_queue;
        idle_trigger && (awake_trigger || queue_trigger)
    }

    /// Whether sleep is due now.
    pub fn should_sleep(&self) -> (b: bool)
        ensures
            exists|now: u128| b == self.sleep_due(now),
            self.state != types::SleepState::Awake ==> !b,
    {
        let now = self.now();
        self.should_sleep_at(now)
    }

    /// Whether the current phase yields to external stimuli.
    pub fn is_interruptible(&self) -> (b: bool)
        ensures
            b == interruptible(self.state),
    {
        match self.state {
            types::SleepState::Awake | types::SleepState::EnteringSleep | types::SleepState::LightSleep
            | types::SleepState::Waking => true,
            types::SleepState::DeepSleep | types::SleepState::Dreaming => false,
        }
    }

    /// Tries to enter sleep at clock reading `now`: refused when not awake or
    /// when sleep is not due; otherwise the system enters sleep with an empty summary.
    pub fn enter_sleep_at(&mut self, now: u128) -> (r: SleepResult)
        ensures
            enter_outcome(*old(self), *final(self), now, r),
    {
        if self.state != types::SleepState::Awake {
            return SleepResult::AlreadySleeping;
        }
        if !self.should_sleep_at(now) {
            return SleepResult::ConditionsNotMet { reason: String::from_str("Sleep conditions not met") };
        }
        self.state = types::SleepState::EnteringSleep;
        self.current_summary = Some(SleepSummary::default());
        SleepResult::Started
    }

    /// Tries to enter sleep now (see `enter_sleep_at`).
    pub fn enter_sleep(&mut self) -> (r: SleepResult)
        ensures
            old(self).state != types::SleepState::Awake ==> r == SleepResult::AlreadySleeping && *final(self) == *old(self),
            r == SleepResult::Started ==> final(self).state == types::SleepState::EnteringSleep
                && final(self).current_summary == Some(SleepSummary::spec_default()),
            r != SleepResult::Started ==> *final(self) == *old(self),
            exists|now: u128| #[trigger] enter_outcome(*old(self), *final(self), now, r),
    {
        let now = self.now();
        self.enter_sleep_at(now)
    }

    /// Wakes up at clock reading `now`: the system is awake, active and awake
    /// since `now`, and the sleep's summary (empty if there was none) is handed over.
    pub fn wake_at(&mut self, now: u128) -> (summary: SleepSummary)
        ensures
            summary == match old(self).current_summary {
                Some(s) => s,
                None => SleepSummary::spec_default(),
            },
            final(self).state == types::SleepState::Awake,
            final(self).current_summary is None,
            final(self).config == old(self).config,
            final(self).consolidation_queue_estimate == old(self).consolidation_queue_estimate,
            final(self).last_activity_at() == now,
            final(self).awake_since_at() == now,
    {
        let summary = match self.current_summary {
            Some(s) => s,
            None => SleepSummary::default(),
        };
        self.current_summary = None;
        self.state = types::SleepState::Awake;
        self.timing.set_awake(now);
        summary
    }

    /// Wakes up now (see `wake_at`).
    pub fn wake(&mut self) -> (summary: SleepSummary)
        ensures
            summary == match old(self).current_summary {
                Some(s) => s,
                None => SleepSummary::spec_default(),
            },
            final(self).state == types::SleepState::Awake,
            final(self).current_summary is None,
            final(self).config == old(self).config,
            final(self).consolidation_queue_estimate == old(self).consolidation_queue_estimate,
    {
        let now = self.now();
        self.wake_at(now)
    }

    /// Records activity at clock reading `now` (resets the idle time).
    pub fn record_activity_at(&mut self, now: u128)
        ensures
            final(self).last_activity_at() == now,
            forall|later: u128| later <= now + final(self).config.idle_threshold_ms * 1_000_000
                ==> !#[trigger] final(self).sleep_due(later),
            final(self).awake_since_at() == old(self).awake_since_at(),
            final(self).state == old(self).state,
            final(self).config == old(self).config,
            final(self).current_summary == old(self).current_summary,
            final(self).consolidation_queue_estimate == old(self).consolidation_queue_estimate,
    {
        self.timing.set_active(now);
        proof {
            assert forall|later: u128| later <= now + self.config.idle_threshold_ms * 1_000_000
                implies !#[trigger] self.sleep_due(later) by {
                law_recent_activity_keeps_awake(*self, later);
            }
        }
    }

    /// Records activity now.
    pub fn record_activity(&mut self)
        ensures
            final(self).awake_since_at() == old(self).awake_since_at(),
            final(self).state == old(self).state,
            final(self).config == old(self).config,
            final(self).current_summary == old(self).current_summary,
            final(self).consolidation_queue_estimate == old(self).consolidation_queue_estimate,
    {
        let now = self.now();
        self.record_activity_at(now);
    }

    /// One more memory waits for consolidation.
    pub fn increment_queue(&mut self)
        requires
            old(self).consolidation_queue_estimate < usize::MAX,
        ensures
            final(self).consolidation_queue_estimate == old(self).consolidation_queue_estimate + 1,
            final(self).state == old(self).state,
            final(self).config == old(self).config,
            final(self).current_summary == old(self).current_summary,
            final(self).last_activity_at() == old(self).last_activity_at(),
            final(self).awake_since_at() == old(self).awake_since_at(),
    {
        self.consolidation_queue_estimate = self.consolidation_queue_estimate + 1;
    }

    /// Nothing waits for consolidation any more.
    pub fn clear_queue(&mut self)
        ensures
            *final(self) == (SleepState { consolidation_queue_estimate: 0, ..*old(self) }),
    {
        self.consolidation_queue_estimate = 0;
    }

    /// Moves to the phase of the current point of the sleep cycle.
    pub fn advance_sleep_phase(&mut self, cycle_elapsed_pct: Real)
        ensures
            *final(self) == (SleepState { state: phase_at(cycle_elapsed_pct, old(self).config), ..*old(self) }),
    {
        self.state = if real_lt(cycle_elapsed_pct, self.config.light_sleep_duration_pct) {
            types::SleepState::LightSleep
        } else if real_lt(cycle_elapsed_pct, DEEP_SLEEP_END_PCT) {
            types::SleepState::DeepSleep
        } else {
            types::SleepState::Dreaming
        };
    }

    /// Adds a cycle's report to the current summary (nothing happens when awake).
    pub fn add_cycle_report(&mut self, report: &SleepCycleReport)
        requires
            old(self).current_summary matches Some(s) ==> s.can_add(*report),
        ensures
            *final(self) == (SleepState {
                current_summary: match old(self).current_summary {
                    Some(s) => Some(s.spec_add_cycle(*report)),
                    None => None,
                },
                ..*old(self)
            }),
    {
        match self.current_summary {
            Some(s) => {
                let mut t = s;
                t.add_cycle(report);
                self.current_summary = Some(t);
            },
            None => {},
        }
    }

    /// Handles a request at clock reading `now`: checking, entering sleep and
    /// waking (which also clears the queue) as described above; an external
    /// stimulus is taken only in an interruptible phase, where it counts as
    /// activity and turns any phase but awake into waking; recorded activity
    /// also adds a memory to the queue.
    pub fn handle_at(&mut self, now: u128, request: SleepRequest) -> (reply: SleepReply)
        requires
            request is RecordActivity ==> old(self).consolidation_queue_estimate < usize::MAX,
        ensures
            request is CheckSleepConditions ==> reply == SleepReply::ShouldSleep(old(self).sleep_due(now)) && *final(self) == *old(self),
            request is GetState ==> reply == SleepReply::State(old(self).state) && *final(self) == *old(self),
            request is GetConfig ==> reply == SleepReply::Config(old(self).config) && *final(self) == *old(self),
            request matches SleepRequest::UpdateConfig { config } ==> reply == SleepReply::ConfigUpdated
                && *final(self) == (SleepState { config, ..*old(self) }),
            request is Wake ==> {
                &&& reply == SleepReply::Woke(match old(self).current_summary {
                        Some(s) => s,
                        None => SleepSummary::spec_default(),
                    })
                &&& final(self).state == types::SleepState::Awake
                &&& final(self).current_summary is None
                &&& final(self).consolidation_queue_estimate == 0
                &&& final(self).config == old(self).config
                &&& final(self).last_activity_at() == now
                &&& final(self).awake_since_at() == now
            },
            request is EnterSleep ==> (reply matches SleepReply::Entered(r) && enter_outcome(*old(self), *final(self), now, r)),
            request is ExternalStimulus ==> {
                &&& !interruptible(old(self).state) ==> reply == SleepReply::StimulusTaken(false) && *final(self) == *old(self)
                &&& interruptible(old(self).state) ==> {
                        &&& reply == SleepReply::StimulusTaken(true)
                        &&& final(self).state == if old(self).state == types::SleepState::Awake {
                                types::SleepState::Awake
                            } else {
                                types::SleepState::Waking
                            }
                        &&& final(self).last_activity_at() == now
                        &&& final(self).awake_since_at() == old(self).awake_since_at()
                        &&& final(self).config == old(self).config
                        &&& final(self).current_summary == old(self).current_summary
                        &&& final(self).consolidation_queue_estimate == old(self).consolidation_queue_estimate
                    }
            },
            request is RecordActivity ==> {
                &&& reply == SleepReply::ActivityRecorded
                &&& final(self).last_activity_at() == now
                &&& final(self).consolidation_queue_estimate == old(self).consolidation_queue_estimate + 1
                &&& final(self).state == old(self).state
                &&& final(self).awake_since_at() == old(self).awake_since_at()
                &&& final(self).config == old(self).config
                &&& final(self).current_summary == old(self).current_summary
            },
    {
        match request {
            SleepRequest::CheckSleepConditions => SleepReply::ShouldSleep(self.should_sleep_at(now)),
            SleepRequest::EnterSleep => SleepReply::Entered(self.enter_sleep_at(now)),
            SleepRequest::Wake => {
                let summary = self.wake_at(now);
                self.clear_queue();
                SleepReply::Woke(summary)
            },
            SleepRequest::GetState => SleepReply::State(self.state),
            SleepRequest::ExternalStimulus => {
                if self.is_interruptible() {
                    self.record_activity_at(now);
                    if self.state != types::SleepState::Awake {
                        self.state = types::SleepState::Waking;
                    }
                    SleepReply::StimulusTaken(true)
                } else {
                    SleepReply::StimulusTaken(false)
                }
            },
            SleepRequest::RecordActivity => {
                self.record_activity_at(now);
                self.increment_queue();
                SleepReply::ActivityRecorded
            },
            SleepRequest::GetConfig => SleepReply::Config(self.config),
            SleepRequest::UpdateConfig { config } => {
                self.config = config;
                SleepReply::ConfigUpdated
            },
        }
    }
}

/// The sleep actor: it makes its state from its configuration.
#[derive(Debug)]
pub struct SleepActor {
    /// Configuration handed to the state
    pub config: SleepConfig,
}

impl SleepActor {
    /// An actor with a custom configuration.
    pub fn with_config(config: SleepConfig) -> (a: SleepActor)
        ensures
            a.config == config,
    {
        SleepActor { config }
    }
}

impl Default for SleepActor {
    /// An actor with the default configuration.
    fn default() -> (a: SleepActor)
        ensures
            a.config == SleepConfig::spec_default(),
    {
        SleepActor { config: SleepConfig::default() }
    }
}

} // verus!
