//! Attention types: responses, errors, the focus state and the attention map.
use vstd::prelude::*;
use vstd::string::*;
use crate::ieee::{Real, spec_lt, spec_le, is_nan, real_lt, real_le, lemma_real_order};
use crate::the_box::types::{uuid_text, WindowId};
use crate::time::{max_duration_nanos, utc_now_millis, Duration};

verus! {

/// Responses of the attention actor.
#[derive(Debug, Clone, PartialEq)]
pub enum AttentionResponse {
    /// An attention cycle completed
    CycleComplete { focused: Option<WindowId>, salience: Real },
    /// Focus was set on a window
    FocusSet { window_id: WindowId },
    /// Focus moved between windows
    FocusShifted { from: Option<WindowId>, to: WindowId },
    /// The current focus
    CurrentFocus { window_id: Option<WindowId> },
    /// The attention scores of the windows
    AttentionMap { scores: Vec<(WindowId, Real)> },
    /// The request failed
    Error { error: AttentionError },
}

impl AttentionResponse {
    /// A completed cycle.
    pub fn cycle_complete(focused: Option<WindowId>, salience: Real) -> (r: AttentionResponse)
        ensures
            r == (AttentionResponse::CycleComplete { focused, salience }),
    {
        AttentionResponse::CycleComplete { focused, salience }
    }

    /// Focus set.
    pub fn focus_set(window_id: WindowId) -> (r: AttentionResponse)
        ensures
            r == (AttentionResponse::FocusSet { window_id }),
    {
        AttentionResponse::FocusSet { window_id }
    }

    /// Focus shifted.
    pub fn focus_shifted(from: Option<WindowId>, to: WindowId) -> (r: AttentionResponse)
        ensures
            r == (AttentionResponse::FocusShifted { from, to }),
    {
        AttentionResponse::FocusShifted { from, to }
    }

    /// The current focus.
    pub fn current_focus(window_id: Option<WindowId>) -> (r: AttentionResponse)
        ensures
            r == (AttentionResponse::CurrentFocus { window_id }),
    {
        AttentionResponse::CurrentFocus { window_id }
    }

    /// The attention scores.
    pub fn attention_map(scores: Vec<(WindowId, Real)>) -> (r: AttentionResponse)
        ensures
            r == (AttentionResponse::AttentionMap { scores }),
    {
        AttentionResponse::AttentionMap { scores }
    }

    /// A failure.
    pub fn error(error: AttentionError) -> (r: AttentionResponse)
        ensures
            r == (AttentionResponse::Error { error }),
    {
        AttentionResponse::Error { error }
    }
}

/// Attention errors.
#[derive(Debug, Clone, PartialEq)]
pub enum AttentionError {
    /// No window with this identifier
    WindowNotFound { window_id: WindowId },
    /// There is no window to attend to
    NoWindowsAvailable,
    /// The attention cycle failed
    CycleFailed { reason: String },
}

/// The message text of an attention error.
pub open spec fn attention_error_text(e: AttentionError) -> Seq<char> {
    match e {
        AttentionError::WindowNotFound { window_id } => "Window not found: "@ + uuid_text(window_id.value()),
        AttentionError::NoWindowsAvailable => "No windows available for attention selection"@,
        AttentionError::CycleFailed { reason } => "Attention cycle failed: "@ + reason@,
    }
}

impl AttentionError {
    /// The human-readable message of the error.
    pub fn to_string(&self) -> (s: String)
        ensures
            s@ == attention_error_text(*self),
    {
        match self {
            AttentionError::WindowNotFound { window_id } => {
                let mut s = String::from_str("Window not found: ");
                let id = window_id.to_string();
                s.append(id.as_str());
                s
            },
            AttentionError::NoWindowsAvailable => String::from_str("No windows available for attention selection"),
            AttentionError::CycleFailed { reason } => {
                let mut s = String::from_str("Attention cycle failed: ");
                s.append(reason.as_str());
                s
            },
        }
    }
}

/// What the attention is focused on, for how long, and when it last shifted.
#[derive(Debug, Clone, PartialEq)]
pub struct FocusState {
    /// Window in focus, if any
    pub current_focus: Option<WindowId>,
    /// Time spent on the current focus
    pub focus_duration: Duration,
    /// When focus last shifted (milliseconds since the Unix epoch)
    pub last_shift: i64,
}

impl FocusState {
    /// Unfocused, as of now.
    pub fn new() -> (s: FocusState)
        ensures
            s.current_focus is None,
            s.focus_duration@ == 0,
    {
        FocusState { current_focus: None, focus_duration: Duration::zero(), last_shift: utc_now_millis() }
    }

    /// Focuses on a window, as of wall-clock time `now`: the focus time
    /// restarts, and moving away from a focused window counts as a shift.
    pub fn focus_on_at(&mut self, now: i64, window_id: WindowId)
        ensures
            final(self).current_focus == Some(window_id),
            final(self).focus_duration@ == 0,
            final(self).last_shift == if old(self).current_focus is Some { now } else { old(self).last_shift },
    {
        if self.current_focus.is_some() {
            self.last_shift = now;
        }
        self.current_focus = Some(window_id);
        self.focus_duration = Duration::zero();
    }

    /// Focuses on a window now.
    pub fn focus_on(&mut self, window_id: WindowId)
        ensures
            final(self).current_focus == Some(window_id),
            final(self).focus_duration@ == 0,
            old(self).current_focus is None ==> final(self).last_shift == old(self).last_shift,
    {
        let now = utc_now_millis();
        self.focus_on_at(now, window_id);
    }

    /// Drops the focus, as of wall-clock time `now`.
    pub fn clear_focus_at(&mut self, now: i64)
        ensures
            final(self).current_focus is None,
            final(self).focus_duration@ == 0,
            final(self).last_shift == now,
    {
        self.current_focus = None;
        self.focus_duration = Duration::zero();
        self.last_shift = now;
    }

    /// Drops the focus now.
    pub fn clear_focus(&mut self)
        ensures
            final(self).current_focus is None,
            final(self).focus_duration@ == 0,
    {
        let now = utc_now_millis();
        self.clear_focus_at(now);
    }

    /// Adds time spent on the current focus; the total must fit in a duration.
    pub fn update_duration(&mut self, elapsed: Duration)
        requires
            old(self).focus_duration@ + elapsed@ <= max_duration_nanos(),
        ensures
            final(self).focus_duration@ == old(self).focus_duration@ + elapsed@,
            final(self).current_focus == old(self).current_focus,
            final(self).last_shift == old(self).last_shift,
    {
        self.focus_duration = self.focus_duration.plus(elapsed);
    }

    /// Whether attention is focused.
    pub fn is_focused(&self) -> (b: bool)
        ensures
            b == (self.current_focus is Some),
    {
        self.current_focus.is_some()
    }

    /// The window in focus, if any.
    pub fn focused_window(&self) -> (w: Option<WindowId>)
        ensures
            w == self.current_focus,
    {
        self.current_focus
    }
}

/// Whether the scores hold window `id`.
pub open spec fn scored(s: Seq<(WindowId, Real)>, id: WindowId) -> bool {
    exists|i: int| 0 <= i < s.len() && (#[trigger] s[i]).0 == id
}

/// The position of window `id` among the scores (meaningful when `scored`).
pub open spec fn score_position(s: Seq<(WindowId, Real)>, id: WindowId) -> int {
    choose|i: int| 0 <= i < s.len() && (#[trigger] s[i]).0 == id
}

/// No window is scored twice.
pub open spec fn distinct_scores(s: Seq<(WindowId, Real)>) -> bool {
    forall|i: int, j: int| 0 <= i < s.len() && 0 <= j < s.len() && i != j ==> (#[trigger] s[i]).0 != (#[trigger] s[j]).0
}

/// The entry that a scan for the maximum keeps, scanning in order: a later
/// entry replaces the kept one unless the kept score is greater (so NaN and
/// ties give way to later entries).
pub open spec fn scan_max(s: Seq<(WindowId, Real)>) -> Option<(WindowId, Real)>
    decreases s.len(),
{
    if s.len() == 0 {
        None
    } else {
        match scan_max(s.drop_last()) {
            None => Some(s.last()),
            Some(best) => if spec_lt(s.last().1, best.1) { Some(best) } else { Some(s.last()) },
        }
    }
}

/// The entries whose score is at least `threshold`, in order.
pub open spec fn at_least(s: Seq<(WindowId, Real)>, threshold: Real) -> Seq<(WindowId, Real)> {
    s.filter(|e: (WindowId, Real)| spec_le(threshold, e.1))
}

/// The attention scores of the memory windows.
#[derive(Debug, PartialEq)]
pub struct AttentionMap {
    scores: Vec<(WindowId, Real)>,
}

impl AttentionMap {
    /// The scores, in the order the windows were first scored.
    pub closed spec fn entries(self) -> Seq<(WindowId, Real)> {
        self.scores@
    }

    /// No window is scored twice.
    #[verifier::type_invariant]
    closed spec fn inv(self) -> bool {
        distinct_scores(self.scores@)
    }

    /// An empty map.
    pub fn new() -> (m: AttentionMap)
        ensures
            m.entries() == Seq::<(WindowId, Real)>::empty(),
    {
        AttentionMap { scores: Vec::new() }
    }

    fn find(&self, window_id: WindowId) -> (r: Option<usize>)
        ensures
            r matches Some(i) ==> i < self.entries().len() && self.entries()[i as int].0 == window_id
                && score_position(self.entries(), window_id) == i,
            r is None ==> !scored(self.entries(), window_id),
    {
        proof {
            use_type_invariant(self);
        }
        let mut i: usize = 0;
        while i < self.scores.len()
            invariant
                i <= self.scores@.len(),
                distinct_scores(self.scores@),
                forall|k: int| 0 <= k < i ==> (#[trigger] self.scores@[k]).0 != window_id,
            decreases self.scores@.len() - i,
        {
            if self.scores[i].0 == window_id {
                proof {
                    let p = score_position(self.scores@, window_id);
                    assert(self.scores@[i as int].0 == window_id);
                    if p != i {
                        assert(self.scores@[p].0 != self.scores@[i as int].0);
                    }
                }
                return Some(i);
            }
            i += 1;
        }
        None
    }

    /// Sets the score of a window (replacing its earlier score, if any).
    pub fn update(&mut self, window_id: WindowId, salience: Real)
        ensures
            scored(old(self).entries(), window_id) ==> final(self).entries()
                == old(self).entries().update(score_position(old(self).entries(), window_id), (window_id, salience)),
            !scored(old(self).entries(), window_id) ==> final(self).entries() == old(self).entries().push((window_id, salience)),
    {
        proof {
            use_type_invariant(&*self);
        }
        let ghost before = self.scores@;
        let mut scores: Vec<(WindowId, Real)> = Vec::new();
        std::mem::swap(&mut scores, &mut self.scores);
        match self.find_in(&scores, window_id) {
            Some(i) => {
                scores.set(i, (window_id, salience));
                proof {
                    assert forall|a: int, b: int| 0 <= a < scores@.len() && 0 <= b < scores@.len() && a != b
                        implies (#[trigger] scores@[a]).0 != (#[trigger] scores@[b]).0 by {
                        if a != i {
                            assert(scores@[a] == before[a]);
                        }
                        if b != i {
                            assert(scores@[b] == before[b]);
                        }
                    }
                }
            },
            None => {
                scores.push((window_id, salience));
                proof {
                    assert forall|a: int, b: int| 0 <= a < scores@.len() && 0 <= b < scores@.len() && a != b
                        implies (#[trigger] scores@[a]).0 != (#[trigger] scores@[b]).0 by {
                        if a < before.len() {
                            assert(scores@[a] == before[a]);
                        } else {
                            assert(!(before[b].0 == window_id));
                        }
                        if b < before.len() {
                            assert(scores@[b] == before[b]);
                        } else {
                            assert(!(before[a].0 == window_id));
                        }
                    }
                }
            },
        }
        self.scores = scores;
    }

    fn find_in(&self, scores: &Vec<(WindowId, Real)>, window_id: WindowId) -> (r: Option<usize>)
        requires
            distinct_scores(scores@),
        ensures
            r matches Some(i) ==> i < scores@.len() && scores@[i as int].0 == window_id
                && score_position(scores@, window_id) == i,
            r is None ==> !scored(scores@, window_id),
    {
        let mut i: usize = 0;
        while i < scores.len()
            invariant
                i <= scores@.len(),
                distinct_scores(scores@),
                forall|k: int| 0 <= k < i ==> (#[trigger] scores@[k]).0 != window_id,
            decreases scores@.len() - i,
        {
            if scores[i].0 == window_id {
                proof {
                    let p = score_position(scores@, window_id);
                    assert(scores@[i as int].0 == window_id);
                    if p != i {
                        assert(scores@[p].0 != scores@[i as int].0);
                    }
                }
                return Some(i);
            }
            i += 1;
        }
        None
    }

    /// Removes a window's score, if any.
    pub fn remove(&mut self, window_id: &WindowId)
        ensures
            scored(old(self).entries(), *window_id) ==> final(self).entries()
                == old(self).entries().remove(score_position(old(self).entries(), *window_id)),
            !scored(old(self).entries(), *window_id) ==> final(self).entries() == old(self).entries(),
    {
        proof {
            use_type_invariant(&*self);
        }
        let ghost before = self.scores@;
        let mut scores: Vec<(WindowId, Real)> = Vec::new();
        std::mem::swap(&mut scores, &mut self.scores);
        match self.find_in(&scores, *window_id) {
            Some(i) => {
                scores.remove(i);
                proof {
                    assert forall|a: int, b: int| 0 <= a < scores@.len() && 0 <= b < scores@.len() && a != b
                        implies (#[trigger] scores@[a]).0 != (#[trigger] scores@[b]).0 by {
                        let a2 = if a < i { a } else { a + 1 };
                        let b2 = if b < i { b } else { b + 1 };
                        assert(scores@[a] == before[a2]);
                        assert(scores@[b] == before[b2]);
                    }
                }
            },
            None => {},
        }
        self.scores = scores;
    }

    /// The score of a window, if any.
    pub fn get(&self, window_id: &WindowId) -> (r: Option<Real>)
        ensures
            scored(self.entries(), *window_id) ==> r == Some(self.entries()[score_position(self.entries(), *window_id)].1),
            !scored(self.entries(), *window_id) ==> r is None,
    {
        match self.find(*window_id) {
            Some(i) => Some(self.scores[i].1),
            None => None,
        }
    }

    /// The window with the highest score, scanning in order (see `scan_max`).
    pub fn highest_salience(&self) -> (r: Option<(WindowId, Real)>)
        ensures
            r == scan_max(self.entries()),
    {
        let mut best: Option<(WindowId, Real)> = None;
        let mut i: usize = 0;
        while i < self.scores.len()
            invariant
                i <= self.scores@.len(),
                best == scan_max(self.scores@.take(i as int)),
            decreases self.scores@.len() - i,
        {
            proof {
                assert(self.scores@.take(i + 1).drop_last() =~= self.scores@.take(i as int));
            }
            let e = self.scores[i];
            best = match best {
                None => Some(e),
                Some(b) => if real_lt(e.1, b.1) { Some(b) } else { Some(e) },
            };
            i += 1;
        }
        proof {
            assert(self.scores@.take(self.scores@.len() as int) =~= self.scores@);
        }
        best
    }

    /// The windows scored at least `threshold`, in order.
    pub fn above_threshold(&self, threshold: Real) -> (r: Vec<(WindowId, Real)>)
        ensures
            r@ == at_least(self.entries(), threshold),
    {
        let mut out: Vec<(WindowId, Real)> = Vec::new();
        let mut i: usize = 0;
        while i < self.scores.len()
            invariant
                i <= self.scores@.len(),
                out@ == at_least(self.scores@.take(i as int), threshold),
            decreases self.scores@.len() - i,
        {
            proof {
                assert(self.scores@.take(i + 1).drop_last() =~= self.scores@.take(i as int));
                reveal(Seq::filter);
            }
            let e = self.scores[i];
            if real_le(threshold, e.1) {
                out.push(e);
            }
            i += 1;
        }
        proof {
            assert(self.scores@.take(self.scores@.len() as int) =~= self.scores@);
        }
        out
    }

    /// Every score.
    pub fn all_scores(&self) -> (r: &Vec<(WindowId, Real)>)
        ensures
            r@ == self.entries(),
    {
        &self.scores
    }

    /// The number of scored windows.
    pub fn len(&self) -> (n: usize)
        ensures
            n == self.entries().len(),
    {
        self.scores.len()
    }

    /// Whether no window is scored.
    pub fn is_empty(&self) -> (b: bool)
        ensures
            b == (self.entries().len() == 0),
    {
        self.scores.len() == 0
    }

    /// Forgets every score.
    pub fn clear(&mut self)
        ensures
            final(self).entries() == Seq::<(WindowId, Real)>::empty(),
    {
        self.scores = Vec::new();
    }
}

impl Default for AttentionMap {
    /// An empty map.
    fn default() -> (m: AttentionMap)
        ensures
            m.entries() == Seq::<(WindowId, Real)>::empty(),
    {
        AttentionMap::new()
    }
}

impl Default for FocusState {
    /// Unfocused, as of now.
    fn default() -> (s: FocusState)
        ensures
            s.current_focus is None,
            s.focus_duration@ == 0,
    {
        FocusState::new()
    }
}

impl Clone for AttentionMap {
    fn clone(&self) -> (m: AttentionMap)
        ensures
            m.entries() == self.entries(),
    {
        proof {
            use_type_invariant(self);
        }
        let mut out: Vec<(WindowId, Real)> = Vec::new();
        let mut i: usize = 0;
        while i < self.scores.len()
            invariant
                i <= self.scores@.len(),
                out@ == self.scores@.take(i as int),
            decreases self.scores@.len() - i,
        {
            out.push(self.scores[i]);
            proof {
                assert(out@ =~= self.scores@.take(i + 1));
            }
            i += 1;
        }
        proof {
            assert(out@ =~= self.scores@);
        }
        AttentionMap { scores: out }
    }
}

/// Without NaN scores, the scan keeps a scored window whose score no other
/// score exceeds.
pub proof fn lemma_scan_max_is_highest(s: Seq<(WindowId, Real)>)
    requires
        s.len() > 0,
        forall|i: int| 0 <= i < s.len() ==> !is_nan((#[trigger] s[i]).1),
    ensures
        scan_max(s) matches Some(best) && s.contains(best)
            && forall|i: int| 0 <= i < s.len() ==> !spec_lt(best.1, (#[trigger] s[i]).1),
    decreases s.len(),
{
    let front = s.drop_last();
    let last = s.last();
    assert(s[s.len() - 1] == last);
    if front.len() == 0 {
        assert forall|i: int| 0 <= i < s.len() implies !spec_lt(last.1, (#[trigger] s[i]).1) by {
            assert(i == 0);
            lemma_real_order(last.1, last.1, last.1);
        }
    } else {
        assert forall|i: int| 0 <= i < front.len() implies !is_nan((#[trigger] front[i]).1) by {
            assert(front[i] == s[i]);
        }
        lemma_scan_max_is_highest(front);
        let best = scan_max(front)->0;
        let k = choose|k: int| 0 <= k < front.len() && front[k] == best;
        assert(s[k] == best);
        if spec_lt(last.1, best.1) {
            assert forall|i: int| 0 <= i < s.len() implies !spec_lt(best.1, (#[trigger] s[i]).1) by {
                if i < front.len() {
                    assert(front[i] == s[i]);
                } else {
                    lemma_real_order(best.1, last.1, best.1);
                }
            }
        } else {
            assert forall|i: int| 0 <= i < s.len() implies !spec_lt(last.1, (#[trigger] s[i]).1) by {
                if i < front.len() {
                    assert(front[i] == s[i]);
                    lemma_real_order(last.1, best.1, s[i].1);
                    lemma_real_order(best.1, last.1, s[i].1);
                    lemma_real_order(last.1, s[i].1, best.1);
                } else {
                    lemma_real_order(last.1, last.1, last.1);
                }
            }
        }
    }
}

} // verus!
