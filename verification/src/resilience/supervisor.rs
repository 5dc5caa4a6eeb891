//! Supervisor: Erlang-style "let it crash" supervision for actors.
//!
//! Instead of handling every error, crashed actors are restarted
//! automatically, unless they crash more than `max_restarts` times within
//! the restart window, in which case the supervisor escalates.
//!
//! Strategies:
//! - OneForOne: restart only the failed actor
//! - OneForAll: restart all actors if one fails
//! - RestForOne: restart the failed actor and all actors started after it
//!   (currently treated like OneForOne)
use vstd::prelude::*;
use vstd::string::*;
use crate::text::{decimal, push_decimal};
use crate::time::{utc_now_millis, Clock, Duration};

verus! {

/// Supervision strategy
#[derive(Debug, Clone, Copy, PartialEq, Eq, Structural)]
pub enum SupervisionStrategy {
    /// Restart only the failed actor
    OneForOne,
    /// Restart all actors when one fails
    OneForAll,
    /// Restart failed actor and all started after it
    RestForOne,
}

impl Default for SupervisionStrategy {
    fn default() -> (s: SupervisionStrategy)
        ensures
            s == SupervisionStrategy::OneForOne,
    {
        SupervisionStrategy::OneForOne
    }
}

/// Configuration for the supervisor
#[derive(Debug, Clone, Copy)]
pub struct SupervisorConfig {
    /// Supervision strategy
    pub strategy: SupervisionStrategy,
    /// Maximum restarts within the time window before escalating
    pub max_restarts: u32,
    /// Time window for counting restarts
    pub restart_window: Duration,
    /// Delay between restart attempts
    pub restart_delay: Duration,
}

impl Default for SupervisorConfig {
    /// One-for-one, 3 restarts within 10 seconds, 100 ms between attempts.
    fn default() -> (c: SupervisorConfig)
        ensures
            c.strategy == SupervisionStrategy::OneForOne,
            c.max_restarts == 3,
            c.restart_window@ == 10_000_000_000,
            c.restart_delay@ == 100_000_000,
    {
        SupervisorConfig {
            strategy: SupervisionStrategy::OneForOne,
            max_restarts: 3,
            restart_window: Duration::from_secs(10),
            restart_delay: Duration::from_millis(100),
        }
    }
}

impl SupervisorConfig {
    /// The config with a custom maximum number of restarts.
    pub fn with_max_restarts(self, max: u32) -> (c: SupervisorConfig)
        ensures
            c == (SupervisorConfig { max_restarts: max, ..self }),
    {
        SupervisorConfig { max_restarts: max, ..self }
    }

    /// The config with a custom restart window.
    pub fn with_restart_window(self, window: Duration) -> (c: SupervisorConfig)
        ensures
            c == (SupervisorConfig { restart_window: window, ..self }),
    {
        SupervisorConfig { restart_window: window, ..self }
    }

    /// A config is valid when it allows at least one restart within a non-empty window.
    pub open spec fn is_valid(self) -> bool {
        self.max_restarts > 0 && self.restart_window@ > 0
    }

    /// Validates the configuration.
    pub fn validate(&self) -> (r: Result<(), SupervisorError>)
        ensures
            r is Ok <==> self.is_valid(),
            self.max_restarts == 0 ==> (r matches Err(SupervisorError::InvalidConfig(m)) && m@ == "max_restarts must be > 0"@),
            self.max_restarts > 0 && self.restart_window@ == 0 ==> (r matches Err(SupervisorError::InvalidConfig(m)) && m@ == "restart_window must be > 0"@),
    {
        if self.max_restarts == 0 {
            return Err(SupervisorError::InvalidConfig(String::from_str("max_restarts must be > 0")));
        }
        if self.restart_window.is_zero() {
            return Err(SupervisorError::InvalidConfig(String::from_str("restart_window must be > 0")));
        }
        Ok(())
    }
}

/// The text of `std::time::Duration`'s `Debug` rendering for a span of
/// `secs` seconds and `nanos` nanoseconds.
pub uninterp spec fn duration_debug_text(secs: u64, nanos: u32) -> Seq<char>;

/// Renders a span as `std::time::Duration`'s `Debug` does (`Duration::new`,
/// then `format!("{:?}")`). The text is named by `duration_debug_text`.
#[verifier::external_body]
fn duration_debug(secs: u64, nanos: u32) -> (s: String)
    requires
        nanos < 1_000_000_000,
    ensures
        s@ == duration_debug_text(secs, nanos),
{
    format!("{:?}", std::time::Duration::new(secs, nanos))
}

/// Errors that can occur in supervision
#[derive(Debug, Clone)]
pub enum SupervisorError {
    /// Configuration is invalid
    InvalidConfig(String),
    /// Actor restart limit exceeded
    RestartLimitExceeded(String, u32, Duration),
    /// Actor not found
    ActorNotFound(String),
    /// Restart failed
    RestartFailed(String, String),
}

/// The message text of a supervision error.
pub open spec fn supervisor_error_text(e: SupervisorError) -> Seq<char> {
    match e {
        SupervisorError::InvalidConfig(m) => "Invalid supervisor config: "@ + m@,
        SupervisorError::RestartLimitExceeded(a, n, d) => "Actor '"@ + a@ + "' exceeded restart limit ("@ + decimal(n as nat) + " restarts in "@
            + duration_debug_text((d@ / 1_000_000_000) as u64, (d@ % 1_000_000_000) as u32) + ")"@,
        SupervisorError::ActorNotFound(a) => "Actor '"@ + a@ + "' not found"@,
        SupervisorError::RestartFailed(a, r) => "Failed to restart actor '"@ + a@ + "': "@ + r@,
    }
}

impl SupervisorError {
    /// The human-readable message of the error.
    pub fn to_string(&self) -> (s: String)
        ensures
            s@ == supervisor_error_text(*self),
    {
        match self {
            SupervisorError::InvalidConfig(m) => {
                let mut s = String::from_str("Invalid supervisor config: ");
                s.append(m.as_str());
                s
            },
            SupervisorError::RestartLimitExceeded(a, n, d) => {
                let mut s = String::from_str("Actor '");
                s.append(a.as_str());
                s.append("' exceeded restart limit (");
                push_decimal(&mut s, *n as u64);
                s.append(" restarts in ");
                let nanos = d.as_nanos();
                let secs = d.as_secs();
                let sub = (nanos % 1_000_000_000) as u32;
                let shown = duration_debug(secs, sub);
                s.append(shown.as_str());
                s.append(")");
                s
            },
            SupervisorError::ActorNotFound(a) => {
                let mut s = String::from_str("Actor '");
                s.append(a.as_str());
                s.append("' not found");
                s
            },
            SupervisorError::RestartFailed(a, r) => {
                let mut s = String::from_str("Failed to restart actor '");
                s.append(a.as_str());
                s.append("': ");
                s.append(r.as_str());
                s
            },
        }
    }
}

/// Event emitted by the supervisor. Timestamps are wall-clock milliseconds since the Unix epoch.
#[derive(Debug, Clone)]
pub enum SupervisorEvent {
    /// Actor was started
    ActorStarted { actor_id: String, timestamp: i64 },
    /// Actor crashed
    ActorCrashed { actor_id: String, reason: String, timestamp: i64 },
    /// Actor was restarted
    ActorRestarted { actor_id: String, restart_count: u32, timestamp: i64 },
    /// Restart limit exceeded, escalating
    RestartLimitExceeded { actor_id: String, restart_count: u32, timestamp: i64 },
    /// Full system restart triggered
    FullRestartTriggered { reason: String, timestamp: i64 },
}

/// How long before `now` the monotonic reading `t` was taken (zero if it lies after `now`).
pub open spec fn elapsed(now: u128, t: u128) -> nat {
    if now >= t { (now - t) as nat } else { 0 }
}

/// The readings of `ts` taken at most `window` nanoseconds before `now`, in order.
pub open spec fn recent(ts: Seq<u128>, now: u128, window: nat) -> Seq<u128>
    decreases ts.len(),
{
    if ts.len() == 0 {
        ts
    } else {
        let r = recent(ts.drop_last(), now, window);
        if elapsed(now, ts.last()) <= window { r.push(ts.last()) } else { r }
    }
}

/// `recent` keeps a reading exactly when it lies within the window, and never grows the list.
pub proof fn lemma_recent(ts: Seq<u128>, now: u128, window: nat)
    ensures
        recent(ts, now, window).len() <= ts.len(),
        forall|t: u128| recent(ts, now, window).contains(t) <==> (ts.contains(t) && elapsed(now, t) <= window),
    decreases ts.len(),
{
    if ts.len() > 0 {
        lemma_recent(ts.drop_last(), now, window);
        let r = recent(ts.drop_last(), now, window);
        let last = ts.last();
        let front = ts.drop_last();
        assert(ts =~= front.push(last));
        assert forall|t: u128| recent(ts, now, window).contains(t) <==> (ts.contains(t) && elapsed(now, t) <= window) by {
            assert(ts.contains(t) <==> (front.contains(t) || t == last)) by {
                if ts.contains(t) {
                    let k = choose|k: int| 0 <= k < ts.len() && ts[k] == t;
                    if k < ts.len() - 1 {
                        assert(front[k] == t);
                    }
                }
                if front.contains(t) {
                    let k = choose|k: int| 0 <= k < front.len() && front[k] == t;
                    assert(ts[k] == t);
                }
                if t == last {
                    assert(ts[ts.len() - 1] == t);
                }
            }
            if elapsed(now, last) <= window {
                assert(recent(ts, now, window) == r.push(last));
                assert(r.push(last).contains(t) <==> (r.contains(t) || t == last)) by {
                    if r.push(last).contains(t) {
                        let k = choose|k: int| 0 <= k < r.push(last).len() && r.push(last)[k] == t;
                        if k < r.len() {
                            assert(r[k] == t);
                        }
                    }
                    if r.contains(t) {
                        let k = choose|k: int| 0 <= k < r.len() && r[k] == t;
                        assert(r.push(last)[k] == t);
                    }
                    if t == last {
                        assert(r.push(last)[r.len() as int] == t);
                    }
                }
            } else {
                assert(recent(ts, now, window) == r);
            }
        }
    } else {
        assert(recent(ts, now, window) =~= ts);
    }
}

fn keep_recent(ts: &Vec<u128>, now: u128, window: u128) -> (r: Vec<u128>)
    ensures
        r@ == recent(ts@, now, window as nat),
{
    let mut out: Vec<u128> = Vec::new();
    let mut i: usize = 0;
    while i < ts.len()
        invariant
            i <= ts@.len(),
            out@ == recent(ts@.take(i as int), now, window as nat),
        decreases ts@.len() - i,
    {
        let t = ts[i];
        let age = if now >= t { now - t } else { 0 };
        proof {
            assert(ts@.take(i + 1).drop_last() =~= ts@.take(i as int));
            assert(ts@.take(i + 1).last() == t);
        }
        if age <= window {
            out.push(t);
        }
        i += 1;
    }
    proof {
        assert(ts@.take(ts@.len() as int) =~= ts@);
    }
    out
}

/// Tracks the restart history of one actor: the monotonic clock readings of its restarts.
#[derive(Debug, Clone)]
pub struct RestartHistory {
    clock: Clock,
    timestamps: Vec<u128>,
}

impl RestartHistory {
    /// The readings of the recorded restarts, oldest first.
    pub closed spec fn readings(self) -> Seq<u128> {
        self.timestamps@
    }

    /// An empty history.
    pub fn new() -> (h: RestartHistory)
        ensures
            h.readings() == Seq::<u128>::empty(),
    {
        RestartHistory { clock: Clock::new(), timestamps: Vec::new() }
    }

    /// Records a restart at reading `now` and forgets restarts older than the
    /// window; returns how many restarts remain within the window.
    pub fn record_restart_at(&mut self, now: u128, window: Duration) -> (count: u32)
        ensures
            final(self).readings() == recent(old(self).readings().push(now), now, window@),
            count == final(self).readings().len() as u32,
    {
        self.timestamps.push(now);
        let kept = keep_recent(&self.timestamps, now, window.as_nanos());
        self.timestamps = kept;
        self.timestamps.len() as u32
    }

    /// Records a restart now and returns how many restarts lie within the window.
    pub fn record_restart(&mut self, window: Duration) -> (count: u32)
        ensures
            exists|now: u128| final(self).readings() == recent(old(self).readings().push(now), now, window@),
            count == final(self).readings().len() as u32,
    {
        let now = self.clock.now_nanos();
        self.record_restart_at(now, window)
    }

    /// A reading of this history's monotonic clock.
    pub fn now(&self) -> u128 {
        self.clock.now_nanos()
    }

    /// How many recorded restarts lie within the window before reading `now`.
    pub fn count_within_window_at(&self, now: u128, window: Duration) -> (count: u32)
        ensures
            count == recent(self.readings(), now, window@).len() as u32,
    {
        let kept = keep_recent(&self.timestamps, now, window.as_nanos());
        kept.len() as u32
    }

    /// How many recorded restarts lie within the window before now.
    pub fn count_within_window(&self, window: Duration) -> (count: u32)
        ensures
            exists|now: u128| count == recent(self.readings(), now, window@).len() as u32,
    {
        let now = self.clock.now_nanos();
        self.count_within_window_at(now, window)
    }

    /// Clears the history.
    pub fn clear(&mut self)
        ensures
            final(self).readings() == Seq::<u128>::empty(),
    {
        self.timestamps = Vec::new();
    }
}

/// Actor state tracked by supervisor
#[derive(Debug, Clone, Copy, PartialEq, Eq, Structural)]
pub enum ActorState {
    /// Actor is running normally
    Running,
    /// Actor has crashed, pending restart
    Crashed,
    /// Actor is being restarted
    Restarting,
    /// Actor has been stopped (not restarting)
    Stopped,
}

/// Information about a supervised actor
#[derive(Debug)]
struct SupervisedActor {
    id: String,
    state: ActorState,
    restart_history: RestartHistory,
}

/// One supervised actor as seen from outside: its identifier, its state and
/// the readings of its recorded restarts.
pub type ActorRecord = (Seq<char>, ActorState, Seq<u128>);

/// Whether the roster holds an actor with identifier `id`.
pub open spec fn roster_has(roster: Seq<ActorRecord>, id: Seq<char>) -> bool {
    exists|i: int| 0 <= i < roster.len() && (#[trigger] roster[i]).0 == id
}

/// The position of actor `id` in the roster (meaningful when `roster_has`).
pub open spec fn roster_index(roster: Seq<ActorRecord>, id: Seq<char>) -> int {
    choose|i: int| 0 <= i < roster.len() && (#[trigger] roster[i]).0 == id
}

/// No identifier occurs twice in the roster.
pub open spec fn roster_distinct(roster: Seq<ActorRecord>) -> bool {
    forall|i: int, j: int| 0 <= i < roster.len() && 0 <= j < roster.len() && i != j ==> (#[trigger] roster[i]).0 != (#[trigger] roster[j]).0
}

/// The roster after (re-)registering actor `id`: it is running with an empty history.
pub open spec fn roster_after_register(roster: Seq<ActorRecord>, id: Seq<char>) -> Seq<ActorRecord> {
    if roster_has(roster, id) {
        roster.update(roster_index(roster, id), (id, ActorState::Running, Seq::empty()))
    } else {
        roster.push((id, ActorState::Running, Seq::empty()))
    }
}

/// The outcome of reporting a crash of actor `actor_id` at clock reading `now`:
/// an unknown actor gives `ActorNotFound` and changes nothing; a known actor
/// becomes `Crashed`, its restart is recorded (keeping only restarts within the
/// window), an `ActorCrashed` event is emitted, and once more than
/// `max_restarts` restarts lie within the window a `RestartLimitExceeded` event
/// follows and the answer is `Ok(false)`; otherwise it is `Ok(true)`.
pub open spec fn crash_reported(before: Supervisor, after: Supervisor, now: u128, actor_id: Seq<char>, reason: Seq<char>, r: Result<bool, SupervisorError>) -> bool {
    &&& !roster_has(before.roster(), actor_id) ==> {
        &&& r matches Err(SupervisorError::ActorNotFound(a)) && a@ == actor_id
                &&& after.roster() == before.roster()
                &&& after.events() == before.events()
    }
    &&& roster_has(before.roster(), actor_id) ==> {
                let i = roster_index(before.roster(), actor_id);
                let kept = recent(before.roster()[i].2.push(now), now, before.config().restart_window@);
                let count = kept.len() as u32;
                &&& after.roster() == before.roster().update(i, (actor_id, ActorState::Crashed, kept))
                &&& r == Ok::<bool, SupervisorError>(count <= before.config().max_restarts)
                &&& after.events().len() == before.events().len() + if count > before.config().max_restarts { 2int } else { 1int }
                &&& after.events().take(before.events().len() as int) == before.events()
                &&& after.events()[before.events().len() as int] matches SupervisorEvent::ActorCrashed { actor_id: a, reason: why, .. }
                        && a@ == actor_id && why@ == reason
                &&& count > before.config().max_restarts ==> (after.events().last() matches SupervisorEvent::RestartLimitExceeded { actor_id: a, restart_count: n, .. }
                        && a@ == actor_id && n == count)
    }
}

/// The outcome of marking actor `actor_id` as restarted at clock reading
/// `now`: an unknown actor gives `ActorNotFound` and changes nothing; a known
/// actor becomes `Running` (its history unchanged) and an `ActorRestarted`
/// event carries the number of its restarts within the window.
pub open spec fn restart_marked(before: Supervisor, after: Supervisor, now: u128, actor_id: Seq<char>, r: Result<(), SupervisorError>) -> bool {
    &&& !roster_has(before.roster(), actor_id) ==> {
        &&& r matches Err(SupervisorError::ActorNotFound(a)) && a@ == actor_id
        &&& after.roster() == before.roster()
        &&& after.events() == before.events()
    }
    &&& roster_has(before.roster(), actor_id) ==> {
        let i = roster_index(before.roster(), actor_id);
        let count = recent(before.roster()[i].2, now, before.config().restart_window@).len() as u32;
        &&& r is Ok
        &&& after.roster() == before.roster().update(i, (actor_id, ActorState::Running, before.roster()[i].2))
        &&& after.events().len() == before.events().len() + 1
        &&& after.events().take(before.events().len() as int) == before.events()
        &&& after.events().last() matches SupervisorEvent::ActorRestarted { actor_id: a, restart_count: n, .. } && a@ == actor_id && n == count
    }
}

/// Supervisor that manages actor lifecycle
#[derive(Debug)]
pub struct Supervisor {
    config: SupervisorConfig,
    actors: Vec<SupervisedActor>,
    events: Vec<SupervisorEvent>,
}

impl Supervisor {
    /// The supervised actors, in registration order.
    pub closed spec fn roster(self) -> Seq<ActorRecord> {
        self.actors@.map_values(|a: SupervisedActor| (a.id@, a.state, a.restart_history.readings()))
    }

    /// The pending events, oldest first.
    pub closed spec fn events(self) -> Seq<SupervisorEvent> {
        self.events@
    }

    /// The configuration the supervisor was made with.
    pub closed spec fn config(self) -> SupervisorConfig {
        self.config
    }

    /// The supervisor is well formed: its configuration is valid and no actor is registered twice.
    pub closed spec fn wf(self) -> bool {
        &&& self.config.is_valid()
        &&& roster_distinct(self.roster())
    }

    /// A supervisor with the given config, or the config's validation error.
    pub fn new(config: SupervisorConfig) -> (r: Result<Supervisor, SupervisorError>)
        ensures
            r is Ok <==> config.is_valid(),
            r matches Ok(s) ==> s.wf() && s.config() == config && s.roster() == Seq::<ActorRecord>::empty()
                && s.events() == Seq::<SupervisorEvent>::empty(),
            config.max_restarts == 0 ==> (r matches Err(SupervisorError::InvalidConfig(m)) && m@ == "max_restarts must be > 0"@),
            config.max_restarts > 0 && config.restart_window@ == 0 ==> (r matches Err(SupervisorError::InvalidConfig(m)) && m@ == "restart_window must be > 0"@),
    {
        match config.validate() {
            Err(e) => Err(e),
            Ok(()) => {
                let s = Supervisor { config, actors: Vec::new(), events: Vec::new() };
                proof {
                    assert(s.roster() =~= Seq::<ActorRecord>::empty());
                }
                Ok(s)
            },
        }
    }

    fn find(&self, actor_id: &str) -> (r: Option<usize>)
        ensures
            match r {
                Some(i) => i < self.roster().len() && self.roster()[i as int].0 == actor_id@,
                None => !roster_has(self.roster(), actor_id@),
            },
    {
        let key = String::from_str(actor_id);
        let mut i: usize = 0;
        while i < self.actors.len()
            invariant
                i <= self.actors@.len(),
                key@ == actor_id@,
                forall|k: int| 0 <= k < i ==> (#[trigger] self.roster()[k]).0 != actor_id@,
            decreases self.actors@.len() - i,
        {
            proof {
                assert(self.roster()[i as int] == (self.actors@[i as int].id@, self.actors@[i as int].state, self.actors@[i as int].restart_history.readings()));
            }
            if self.actors[i].id == key {
                return Some(i);
            }
            i += 1;
        }
        None
    }

    /// Registers an actor: it is running with an empty restart history (an
    /// actor registered before is reset), and an `ActorStarted` event is emitted.
    pub fn register_actor(&mut self, actor_id: &str)
        requires
            old(self).wf(),
        ensures
            final(self).wf(),
            final(self).config() == old(self).config(),
            final(self).roster() == roster_after_register(old(self).roster(), actor_id@),
            final(self).events().len() == old(self).events().len() + 1,
            final(self).events().take(old(self).events().len() as int) == old(self).events(),
            final(self).events().last() matches SupervisorEvent::ActorStarted { actor_id: a, .. } && a@ == actor_id@,
    {
        let ghost old_roster = self.roster();
        let fresh = SupervisedActor {
            id: String::from_str(actor_id),
            state: ActorState::Running,
            restart_history: RestartHistory::new(),
        };
        match self.find(actor_id) {
            Some(i) => {
                self.actors.set(i, fresh);
                proof {
                    assert(roster_has(old_roster, actor_id@));
                    let q = roster_index(old_roster, actor_id@);
                    assert(q == i as int);
                    assert(self.roster() =~= old_roster.update(i as int, (actor_id@, ActorState::Running, Seq::empty())));
                }
            },
            None => {
                self.actors.push(fresh);
                proof {
                    assert(self.roster() =~= old_roster.push((actor_id@, ActorState::Running, Seq::empty())));
                    assert forall|i: int, j: int| 0 <= i < self.roster().len() && 0 <= j < self.roster().len() && i != j
                        implies (#[trigger] self.roster()[i]).0 != (#[trigger] self.roster()[j]).0 by {
                        if i < old_roster.len() && j < old_roster.len() {
                        } else if i == old_roster.len() {
                            assert(self.roster()[j] == old_roster[j]);
                        } else {
                            assert(self.roster()[i] == old_roster[i]);
                        }
                    }
                }
            },
        }
        let ts = utc_now_millis();
        self.events.push(SupervisorEvent::ActorStarted { actor_id: String::from_str(actor_id), timestamp: ts });
        proof {
            assert(self.events@.take(old(self).events@.len() as int) =~= old(self).events@);
        }
    }

    /// Reports a crash of actor `actor_id`, with the actor's clock reading
    /// `now`. The actor becomes `Crashed` and the restart is recorded; the
    /// result says whether it may be restarted: `Ok(false)` once it has
    /// restarted more than `max_restarts` times within the window.
    pub fn report_crash_at(&mut self, now: u128, actor_id: &str, reason: &str) -> (r: Result<bool, SupervisorError>)
        requires
            old(self).wf(),
        ensures
            final(self).wf(),
            final(self).config() == old(self).config(),
            crash_reported(*old(self), *final(self), now, actor_id@, reason@, r),
    {
        let ghost old_roster = self.roster();
        let ghost old_events = self.events@;
        match self.find(actor_id) {
            None => Err(SupervisorError::ActorNotFound(String::from_str(actor_id))),
            Some(i) => {
                proof {
                    assert(roster_has(old_roster, actor_id@));
                    assert(roster_index(old_roster, actor_id@) == i as int);
                    assert(old_roster[i as int] == (self.actors@[i as int].id@, self.actors@[i as int].state, self.actors@[i as int].restart_history.readings()));
                }
                self.actors[i].state = ActorState::Crashed;
                let window = self.config.restart_window;
                let count = self.actors[i].restart_history.record_restart_at(now, window);
                proof {
                    assert(self.roster() =~= old_roster.update(i as int, (actor_id@, ActorState::Crashed, self.actors@[i as int].restart_history.readings())));
                    assert forall|a: int, b: int| 0 <= a < self.roster().len() && 0 <= b < self.roster().len() && a != b
                        implies (#[trigger] self.roster()[a]).0 != (#[trigger] self.roster()[b]).0 by {
                        assert(self.roster()[a].0 == old_roster[a].0);
                        assert(self.roster()[b].0 == old_roster[b].0);
                    }
                }
                let ts = utc_now_millis();
                self.events.push(SupervisorEvent::ActorCrashed {
                    actor_id: String::from_str(actor_id),
                    reason: String::from_str(reason),
                    timestamp: ts,
                });
                if count > self.config.max_restarts {
                    let ts2 = utc_now_millis();
                    self.events.push(SupervisorEvent::RestartLimitExceeded {
                        actor_id: String::from_str(actor_id),
                        restart_count: count,
                        timestamp: ts2,
                    });
                    proof {
                        assert(self.events@.take(old_events.len() as int) =~= old_events);
                    }
                    Ok(false)
                } else {
                    proof {
                        assert(self.events@.take(old_events.len() as int) =~= old_events);
                    }
                    Ok(true)
                }
            },
        }
    }

    /// Reports a crash of actor `actor_id` now (see `crash_reported`).
    pub fn report_crash(&mut self, actor_id: &str, reason: &str) -> (r: Result<bool, SupervisorError>)
        requires
            old(self).wf(),
        ensures
            final(self).wf(),
            final(self).config() == old(self).config(),
            exists|now: u128| crash_reported(*old(self), *final(self), now, actor_id@, reason@, r),
    {
        let now = match self.find(actor_id) {
            Some(i) => self.actors[i].restart_history.now(),
            None => 0,
        };
        self.report_crash_at(now, actor_id, reason)
    }

    /// Marks actor `actor_id` as restarted, with the actor's clock reading
    /// `now`: it becomes `Running` and an `ActorRestarted` event carries the
    /// number of restarts within the window. An unknown actor gives `ActorNotFound`.
    pub fn mark_restarted_at(&mut self, now: u128, actor_id: &str) -> (r: Result<(), SupervisorError>)
        requires
            old(self).wf(),
        ensures
            final(self).wf(),
            final(self).config() == old(self).config(),
            restart_marked(*old(self), *final(self), now, actor_id@, r),
    {
        let ghost old_roster = self.roster();
        let ghost old_events = self.events@;
        match self.find(actor_id) {
            None => Err(SupervisorError::ActorNotFound(String::from_str(actor_id))),
            Some(i) => {
                proof {
                    assert(roster_has(old_roster, actor_id@));
                    assert(roster_index(old_roster, actor_id@) == i as int);
                    assert(old_roster[i as int] == (self.actors@[i as int].id@, self.actors@[i as int].state, self.actors@[i as int].restart_history.readings()));
                }
                let window = self.config.restart_window;
                let count = self.actors[i].restart_history.count_within_window_at(now, window);
                self.actors[i].state = ActorState::Running;
                proof {
                    assert(self.roster() =~= old_roster.update(i as int, (actor_id@, ActorState::Running, old_roster[i as int].2)));
                    assert forall|a: int, b: int| 0 <= a < self.roster().len() && 0 <= b < self.roster().len() && a != b
                        implies (#[trigger] self.roster()[a]).0 != (#[trigger] self.roster()[b]).0 by {
                        assert(self.roster()[a].0 == old_roster[a].0);
                        assert(self.roster()[b].0 == old_roster[b].0);
                    }
                }
                let ts = utc_now_millis();
                self.events.push(SupervisorEvent::ActorRestarted {
                    actor_id: String::from_str(actor_id),
                    restart_count: count,
                    timestamp: ts,
                });
                proof {
                    assert(self.events@.take(old_events.len() as int) =~= old_events);
                }
                Ok(())
            },
        }
    }

    /// Marks actor `actor_id` as restarted now (see `restart_marked`).
    pub fn mark_restarted(&mut self, actor_id: &str) -> (r: Result<(), SupervisorError>)
        requires
            old(self).wf(),
        ensures
            final(self).wf(),
            final(self).config() == old(self).config(),
            exists|now: u128| restart_marked(*old(self), *final(self), now, actor_id@, r),
    {
        let now = match self.find(actor_id) {
            Some(i) => self.actors[i].restart_history.now(),
            None => 0,
        };
        self.mark_restarted_at(now, actor_id)
    }

    /// The state of actor `actor_id`, or `None` if it is not supervised.
    pub fn get_actor_state(&self, actor_id: &str) -> (r: Option<ActorState>)
        requires
            self.wf(),
        ensures
            r == if roster_has(self.roster(), actor_id@) {
                Some(self.roster()[roster_index(self.roster(), actor_id@)].1)
            } else {
                None::<ActorState>
            },
    {
        match self.find(actor_id) {
            None => None,
            Some(i) => {
                proof {
                    assert(roster_has(self.roster(), actor_id@));
                    assert(roster_index(self.roster(), actor_id@) == i as int);
                    assert(self.roster()[i as int] == (self.actors@[i as int].id@, self.actors@[i as int].state, self.actors@[i as int].restart_history.readings()));
                }
                Some(self.actors[i].state)
            },
        }
    }

    /// How many restarts of actor `actor_id` lie within the window before the
    /// actor's clock reading `now`, or `None` if it is not supervised.
    pub fn get_restart_count_at(&self, now: u128, actor_id: &str) -> (r: Option<u32>)
        requires
            self.wf(),
        ensures
            r == if roster_has(self.roster(), actor_id@) {
                Some(recent(self.roster()[roster_index(self.roster(), actor_id@)].2, now, self.config().restart_window@).len() as u32)
            } else {
                None::<u32>
            },
    {
        match self.find(actor_id) {
            None => None,
            Some(i) => {
                proof {
                    assert(roster_has(self.roster(), actor_id@));
                    assert(roster_index(self.roster(), actor_id@) == i as int);
                    assert(self.roster()[i as int] == (self.actors@[i as int].id@, self.actors@[i as int].state, self.actors@[i as int].restart_history.readings()));
                }
                Some(self.actors[i].restart_history.count_within_window_at(now, self.config.restart_window))
            },
        }
    }

    /// How many restarts of actor `actor_id` lie within the window before now,
    /// or `None` if it is not supervised.
    pub fn get_restart_count(&self, actor_id: &str) -> (r: Option<u32>)
        requires
            self.wf(),
        ensures
            !roster_has(self.roster(), actor_id@) ==> r is None,
            roster_has(self.roster(), actor_id@) ==> exists|now: u128|
                r == Some(recent(self.roster()[roster_index(self.roster(), actor_id@)].2, now, self.config().restart_window@).len() as u32),
    {
        let now = match self.find(actor_id) {
            Some(i) => self.actors[i].restart_history.now(),
            None => 0,
        };
        self.get_restart_count_at(now, actor_id)
    }

    /// Takes all pending events, leaving none.
    pub fn drain_events(&mut self) -> (events: Vec<SupervisorEvent>)
        requires
            old(self).wf(),
        ensures
            final(self).wf(),
            events@ == old(self).events(),
            final(self).events() == Seq::<SupervisorEvent>::empty(),
            final(self).roster() == old(self).roster(),
            final(self).config() == old(self).config(),
    {
        let mut taken: Vec<SupervisorEvent> = Vec::new();
        std::mem::swap(&mut taken, &mut self.events);
        taken
    }

    /// Triggers a full system restart: every actor becomes `Restarting` with an
    /// empty restart history, and a `FullRestartTriggered` event is emitted.
    pub fn trigger_full_restart(&mut self, reason: &str)
        requires
            old(self).wf(),
        ensures
            final(self).wf(),
            final(self).config() == old(self).config(),
            final(self).roster().len() == old(self).roster().len(),
            forall|k: int| 0 <= k < old(self).roster().len() ==> #[trigger] final(self).roster()[k]
                == (old(self).roster()[k].0, ActorState::Restarting, Seq::<u128>::empty()),
            final(self).events() .len() == old(self).events().len() + 1,
            final(self).events().take(old(self).events().len() as int) == old(self).events(),
            final(self).events().last() matches SupervisorEvent::FullRestartTriggered { reason: why, .. } && why@ == reason@,
    {
        let ghost old_roster = self.roster();
        let ghost old_events = self.events@;
        let mut i: usize = 0;
        while i < self.actors.len()
            invariant
                i <= self.actors@.len(),
                self.actors@.len() == old_roster.len(),
                self.config == old(self).config,
                self.events@ == old_events,
                forall|k: int| 0 <= k < i ==> #[trigger] self.roster()[k] == (old_roster[k].0, ActorState::Restarting, Seq::<u128>::empty()),
                forall|k: int| i <= k < self.actors@.len() ==> #[trigger] self.roster()[k] == old_roster[k],
            decreases self.actors@.len() - i,
        {
            let ghost before = self.actors@;
            let ghost before_roster = self.roster();
            proof {
                assert(before_roster[i as int] == old_roster[i as int]);
                assert(before_roster[i as int].0 == before[i as int].id@);
            }
            let id = self.actors[i].id.clone();
            let entry = SupervisedActor {
                id,
                state: ActorState::Restarting,
                restart_history: RestartHistory::new(),
            };
            let ghost moved = entry;
            self.actors.set(i, entry);
            proof {
                assert(moved.id@ == before[i as int].id@);
                assert(self.actors@ == before.update(i as int, moved));
                assert forall|k: int| 0 <= k < self.actors@.len() implies #[trigger] self.roster()[k]
                    == (self.actors@[k].id@, self.actors@[k].state, self.actors@[k].restart_history.readings()) by {}
                assert(self.roster()[i as int] == (old_roster[i as int].0, ActorState::Restarting, Seq::<u128>::empty()));
                assert forall|k: int| 0 <= k < self.actors@.len() && k != i implies #[trigger] self.roster()[k]
                    == before_roster[k] by {
                    assert(self.actors@[k] == before[k]);
                }
            }
            i += 1;
        }
        let ghost done_roster = self.roster();
        proof {
            assert(done_roster.len() == old_roster.len());
            assert forall|a: int, b: int| 0 <= a < done_roster.len() && 0 <= b < done_roster.len() && a != b
                implies (#[trigger] done_roster[a]).0 != (#[trigger] done_roster[b]).0 by {
                assert(done_roster[a].0 == old_roster[a].0);
                assert(done_roster[b].0 == old_roster[b].0);
            }
        }
        let ts = utc_now_millis();
        self.events.push(SupervisorEvent::FullRestartTriggered { reason: String::from_str(reason), timestamp: ts });
        proof {
            assert(self.roster() == done_roster);
            assert(self.events@.take(old_events.len() as int) =~= old_events);
        }
    }

    /// The actors to restart after `failed_actor` fails: every supervised actor
    /// under one-for-all, otherwise just the failed actor.
    pub fn get_actors_to_restart(&self, failed_actor: &str) -> (r: Vec<String>)
        requires
            self.wf(),
        ensures
            self.config().strategy == SupervisionStrategy::OneForAll ==> {
                &&& r@.len() == self.roster().len()
                &&& forall|k: int| 0 <= k < r@.len() ==> (#[trigger] r@[k])@ == self.roster()[k].0
            },
            self.config().strategy != SupervisionStrategy::OneForAll ==> r@.len() == 1 && r@[0]@ == failed_actor@,
    {
        match self.config.strategy {
            SupervisionStrategy::OneForAll => {
                let mut out: Vec<String> = Vec::new();
                let mut i: usize = 0;
                while i < self.actors.len()
                    invariant
                        i <= self.actors@.len(),
                        out@.len() == i,
                        forall|k: int| 0 <= k < i ==> (#[trigger] out@[k])@ == self.roster()[k].0,
                    decreases self.actors@.len() - i,
                {
                    out.push(self.actors[i].id.clone());
                    i += 1;
                }
                out
            },
            _ => {
                let mut out: Vec<String> = Vec::new();
                out.push(String::from_str(failed_actor));
                out
            },
        }
    }
}

} // verus!
