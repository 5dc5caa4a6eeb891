//! Memory: bounded working memory made of windows.
//!
//! Working memory holds between `MIN_MEMORY_WINDOWS` and
//! `MAX_MEMORY_WINDOWS` open windows. Opening a window beyond the maximum,
//! or closing one below the minimum, is refused.
pub mod types;

use vstd::prelude::*;
use crate::the_box::invariants::{MAX_MEMORY_WINDOWS, MIN_MEMORY_WINDOWS};
use crate::ieee::{Real, real_lt, spec_lt};
use crate::the_box::types::{content_view, Content, ContentView, SalienceScore, SalienceWeights, Window, WindowId};

pub use types::{MemoryError, MemoryResponse, RecallQuery, StoreRequest};

verus! {

/// How many of the windows are open.
pub open spec fn open_count(ws: Seq<Window>) -> nat
    decreases ws.len(),
{
    if ws.len() == 0 {
        0
    } else {
        open_count(ws.drop_last()) + if ws.last().is_open { 1nat } else { 0nat }
    }
}

/// Whether a window with this identifier is held.
pub open spec fn holds_window(ws: Seq<Window>, id: WindowId) -> bool {
    exists|i: int| 0 <= i < ws.len() && (#[trigger] ws[i]).id == id
}

/// The identifiers of windows, in order.
pub open spec fn window_ids(ws: Seq<Window>) -> Seq<WindowId> {
    ws.map_values(|w: Window| w.id)
}

/// The identifiers of a sequence of draws, each kept at its first
/// occurrence: what inserting fresh windows with these identifiers leaves.
pub open spec fn first_draws(ids: Seq<WindowId>) -> Seq<WindowId>
    decreases ids.len(),
{
    if ids.len() == 0 {
        Seq::empty()
    } else {
        let kept = first_draws(ids.drop_last());
        if kept.contains(ids.last()) {
            kept
        } else {
            kept.push(ids.last())
        }
    }
}

/// The position of window `id` (meaningful when `holds_window`).
pub open spec fn window_position(ws: Seq<Window>, id: WindowId) -> int {
    choose|i: int| 0 <= i < ws.len() && (#[trigger] ws[i]).id == id
}

/// No identifier occurs twice.
pub open spec fn distinct_windows(ws: Seq<Window>) -> bool {
    forall|i: int, j: int| 0 <= i < ws.len() && 0 <= j < ws.len() && i != j ==> (#[trigger] ws[i]).id != (#[trigger] ws[j]).id
}

/// The windows after inserting `w` by its identifier: a window with the same
/// identifier is replaced in place, otherwise `w` is added at the end.
pub open spec fn insert_window(ws: Seq<Window>, w: Window) -> Seq<Window> {
    if holds_window(ws, w.id) {
        ws.update(window_position(ws, w.id), w)
    } else {
        ws.push(w)
    }
}

/// A fresh window: open, empty, neutral salience, with the given label.
pub open spec fn is_fresh_window(w: Window, label: Option<String>) -> bool {
    &&& w.label == label
    &&& w.contents@ == Seq::<Content>::empty()
    &&& w.is_open
    &&& w.salience == SalienceScore::spec_neutral()
}

/// What opening a window does: refused with `BoundedMemoryExceeded` (and
/// nothing changed) when `MAX_MEMORY_WINDOWS` windows are open, otherwise a
/// fresh window with the label is inserted and its identifier returned.
pub open spec fn open_outcome(before: Seq<Window>, after: Seq<Window>, label: Option<String>, r: Result<WindowId, MemoryError>) -> bool {
    &&& open_count(before) >= MAX_MEMORY_WINDOWS ==> {
        &&& r == Err::<WindowId, MemoryError>(MemoryError::BoundedMemoryExceeded { max: MAX_MEMORY_WINDOWS })
        &&& after == before
    }
    &&& open_count(before) < MAX_MEMORY_WINDOWS ==> exists|w: Window| {
        &&& is_fresh_window(w, label)
        &&& r == Ok::<WindowId, MemoryError>(w.id)
        &&& #[trigger] insert_window(before, w) == after
    }
}

/// What closing a window does: refused with `WindowNotFound` for an unknown
/// window, `WindowAlreadyClosed` for a closed one and
/// `BoundedMemoryInsufficient` when only `MIN_MEMORY_WINDOWS` are open;
/// otherwise the window is marked closed. A refusal changes nothing.
pub open spec fn close_outcome(before: Seq<Window>, after: Seq<Window>, window_id: WindowId, r: Result<(), MemoryError>) -> bool {
    &&& !holds_window(before, window_id) ==> r == Err::<(), MemoryError>(MemoryError::WindowNotFound { window_id })
    &&& holds_window(before, window_id) ==> {
        let i = window_position(before, window_id);
        let w = before[i];
        &&& !w.is_open ==> r == Err::<(), MemoryError>(MemoryError::WindowAlreadyClosed { window_id })
        &&& w.is_open && open_count(before) <= MIN_MEMORY_WINDOWS
                ==> r == Err::<(), MemoryError>(MemoryError::BoundedMemoryInsufficient { min: MIN_MEMORY_WINDOWS })
        &&& w.is_open && open_count(before) > MIN_MEMORY_WINDOWS ==> {
                &&& r is Ok
                &&& after == before.update(i, Window { is_open: false, ..w })
            }
    }
    &&& r is Err ==> after == before
}

/// What storing does: refused with `WindowNotFound` for an unknown window
/// and `WindowAlreadyClosed` for a closed one (changing nothing); otherwise
/// the content is appended to the window, whose salience becomes the
/// request's when it carries one, and every other window is kept.
pub open spec fn store_outcome(before: Seq<Window>, after: Seq<Window>, request: StoreRequest, r: Result<(), MemoryError>) -> bool {
    &&& !holds_window(before, request.window_id)
        ==> r == Err::<(), MemoryError>(MemoryError::WindowNotFound { window_id: request.window_id })
    &&& holds_window(before, request.window_id) ==> {
        let i = window_position(before, request.window_id);
        let w = before[i];
        &&& !w.is_open ==> r == Err::<(), MemoryError>(MemoryError::WindowAlreadyClosed { window_id: request.window_id })
        &&& w.is_open ==> {
                &&& r is Ok
                &&& after.len() == before.len()
                &&& forall|k: int| 0 <= k < before.len() && k != i ==> #[trigger] after[k] == before[k]
                &&& after[i].id == w.id
                &&& after[i].label == w.label
                &&& after[i].is_open
                &&& after[i].contents@ == w.contents@.push(request.content)
                &&& after[i].salience == match request.salience {
                        Some(s) => s,
                        None => w.salience,
                    }
            }
    }
    &&& r is Err ==> after == before
}

/// Replacing one window changes the open count by the difference of the two.
pub proof fn lemma_open_count_update(ws: Seq<Window>, i: int, w: Window)
    requires
        0 <= i < ws.len(),
    ensures
        open_count(ws.update(i, w)) + (if ws[i].is_open { 1int } else { 0int })
            == open_count(ws) + (if w.is_open { 1int } else { 0int }),
    decreases ws.len(),
{
    if i < ws.len() - 1 {
        lemma_open_count_update(ws.drop_last(), i, w);
        assert(ws.update(i, w).drop_last() =~= ws.drop_last().update(i, w));
    } else {
        assert(ws.update(i, w).drop_last() =~= ws.drop_last());
    }
}

/// Adding a window adds one to the open count when it is open.
pub proof fn lemma_open_count_push(ws: Seq<Window>, w: Window)
    ensures
        open_count(ws.push(w)) == open_count(ws) + if w.is_open { 1nat } else { 0nat },
{
    assert(ws.push(w).drop_last() =~= ws);
}

/// The open count never exceeds the number of windows.
pub proof fn lemma_open_count_bound(ws: Seq<Window>)
    ensures
        open_count(ws) <= ws.len(),
    decreases ws.len(),
{
    if ws.len() > 0 {
        lemma_open_count_bound(ws.drop_last());
    }
}

/// The state of working memory: its windows and the salience weights used to recall.
#[derive(Debug)]
pub struct MemoryState {
    windows: Vec<Window>,
    salience_weights: SalienceWeights,
}

impl MemoryState {
    /// The windows, in the order they were opened.
    pub closed spec fn windows(self) -> Seq<Window> {
        self.windows@
    }

    /// The salience weights used to recall.
    pub closed spec fn weights(self) -> SalienceWeights {
        self.salience_weights
    }

    /// Well formed: no window is held twice and at most `MAX_MEMORY_WINDOWS` are open.
    pub closed spec fn wf(self) -> bool {
        &&& distinct_windows(self.windows@)
        &&& open_count(self.windows@) <= MAX_MEMORY_WINDOWS
    }

    /// The number of open windows lies within the bounds of working memory.
    pub open spec fn within_bounds(self) -> bool {
        MIN_MEMORY_WINDOWS <= open_count(self.windows()) <= MAX_MEMORY_WINDOWS
    }

    fn insert(&mut self, w: Window)
        requires
            distinct_windows(old(self).windows@),
        ensures
            final(self).windows@ == insert_window(old(self).windows@, w),
            distinct_windows(final(self).windows@),
            final(self).salience_weights == old(self).salience_weights,
    {
        let ghost before = self.windows@;
        let mut i: usize = 0;
        while i < self.windows.len()
            invariant
                i <= self.windows@.len(),
                self.windows@ == before,
                before == old(self).windows@,
                distinct_windows(before),
                self.salience_weights == old(self).salience_weights,
                forall|k: int| 0 <= k < i ==> (#[trigger] before[k]).id != w.id,
            decreases self.windows@.len() - i,
        {
            if self.windows[i].id == w.id {
                proof {
                    assert(before[i as int].id == w.id);
                    assert(holds_window(before, w.id));
                    let p = window_position(before, w.id);
                    assert(0 <= p < before.len() && before[p].id == w.id);
                    if p != i {
                        assert(before[p].id != before[i as int].id);
                    }
                    assert(p == i);
                    assert(insert_window(before, w) == before.update(i as int, w));
                }
                self.windows.set(i, w);
                proof {
                    assert(self.windows@ == before.update(i as int, w));
                    assert forall|a: int, b: int| 0 <= a < self.windows@.len() && 0 <= b < self.windows@.len() && a != b
                        implies (#[trigger] self.windows@[a]).id != (#[trigger] self.windows@[b]).id by {
                        if a != i && b != i {
                            assert(self.windows@[a] == before[a]);
                            assert(self.windows@[b] == before[b]);
                        } else if a == i {
                            assert(self.windows@[b] == before[b]);
                        } else {
                            assert(self.windows@[a] == before[a]);
                        }
                    }
                }
                return;
            }
            i += 1;
        }
        self.windows.push(w);
        proof {
            assert(!holds_window(before, w.id));
            assert forall|a: int, b: int| 0 <= a < self.windows@.len() && 0 <= b < self.windows@.len() && a != b
                implies (#[trigger] self.windows@[a]).id != (#[trigger] self.windows@[b]).id by {
                if a < before.len() && b < before.len() {
                    assert(self.windows@[a] == before[a]);
                    assert(self.windows@[b] == before[b]);
                } else if a == before.len() {
                    assert(self.windows@[b] == before[b]);
                } else {
                    assert(self.windows@[a] == before[a]);
                }
            }
        }
    }

    /// Fresh working memory: `MIN_MEMORY_WINDOWS` open, empty windows, each
    /// with a fresh random identifier (two equal draws would leave one window
    /// fewer: one window per identifier drawn, in the order first drawn).
    pub fn new() -> (s: MemoryState)
        ensures
            s.wf(),
            1 <= s.windows().len() <= MIN_MEMORY_WINDOWS,
            exists|drawn: Seq<WindowId>| drawn.len() == MIN_MEMORY_WINDOWS
                && window_ids(s.windows()) == #[trigger] first_draws(drawn),
            open_count(s.windows()) == s.windows().len(),
            s.weights() == SalienceWeights::spec_default(),
            forall|i: int| 0 <= i < s.windows().len() ==> is_fresh_window(#[trigger] s.windows()[i], None),
    {
        let mut s = MemoryState { windows: Vec::new(), salience_weights: SalienceWeights::default() };
        let mut n: usize = 0;
        let ghost mut drawn: Seq<WindowId> = Seq::empty();
        while n < MIN_MEMORY_WINDOWS
            invariant
                n <= MIN_MEMORY_WINDOWS,
                drawn.len() == n,
                window_ids(s.windows@) == first_draws(drawn),
                n > 0 ==> s.windows@.len() >= 1,
                distinct_windows(s.windows@),
                s.salience_weights == SalienceWeights::spec_default(),
                s.windows@.len() <= n,
                open_count(s.windows@) == s.windows@.len(),
                forall|i: int| 0 <= i < s.windows@.len() ==> is_fresh_window(#[trigger] s.windows@[i], None),
            decreases MIN_MEMORY_WINDOWS - n,
        {
            let w = Window::new();
            let ghost before = s.windows@;
            s.insert(w);
            proof {
                let grown = drawn.push(w.id);
                assert(grown.drop_last() =~= drawn);
                if holds_window(before, w.id) {
                    let p = window_position(before, w.id);
                    lemma_open_count_update(before, p, w);
                    lemma_open_count_bound(before);
                    assert(window_ids(before)[p] == w.id);
                    assert(first_draws(drawn).contains(w.id));
                    assert(window_ids(s.windows@) =~= window_ids(before));
                } else {
                    lemma_open_count_push(before, w);
                    if first_draws(drawn).contains(w.id) {
                        let k = choose|k: int| 0 <= k < first_draws(drawn).len() && first_draws(drawn)[k] == w.id;
                        assert(before[k].id == w.id);
                    }
                    assert(window_ids(s.windows@) =~= window_ids(before).push(w.id));
                }
                drawn = grown;
            }
            n += 1;
        }
        s
    }

    /// The number of open windows.
    pub fn open_window_count(&self) -> (n: usize)
        ensures
            n == open_count(self.windows()),
    {
        let mut n: usize = 0;
        let mut i: usize = 0;
        while i < self.windows.len()
            invariant
                i <= self.windows@.len(),
                n == open_count(self.windows@.take(i as int)),
                n <= i,
            decreases self.windows@.len() - i,
        {
            proof {
                assert(self.windows@.take(i + 1).drop_last() =~= self.windows@.take(i as int));
            }
            if self.windows[i].is_open {
                n += 1;
            }
            i += 1;
        }
        proof {
            assert(self.windows@.take(self.windows@.len() as int) =~= self.windows@);
        }
        n
    }

    /// Opens a fresh window with an optional label and returns its identifier;
    /// refused with `BoundedMemoryExceeded` when `MAX_MEMORY_WINDOWS` windows are open.
    pub fn open_window(&mut self, label: Option<String>) -> (r: Result<WindowId, MemoryError>)
        requires
            old(self).wf(),
        ensures
            final(self).wf(),
            final(self).weights() == old(self).weights(),
            old(self).within_bounds() ==> final(self).within_bounds(),
            open_outcome(old(self).windows(), final(self).windows(), label, r),
    {
        let open = self.open_window_count();
        if open >= MAX_MEMORY_WINDOWS {
            return Err(MemoryError::BoundedMemoryExceeded { max: MAX_MEMORY_WINDOWS });
        }
        let mut w = Window::new();
        match label {
            Some(text) => {
                w = w.with_label(text);
            },
            None => {},
        }
        let id = w.id;
        let ghost before = self.windows@;
        self.insert(w);
        proof {
            if holds_window(before, w.id) {
                let p = window_position(before, w.id);
                lemma_open_count_update(before, p, w);
            } else {
                lemma_open_count_push(before, w);
            }
            assert(is_fresh_window(w, label));
        }
        Ok(id)
    }

    fn find(&self, window_id: WindowId) -> (r: Option<usize>)
        ensures
            match r {
                Some(i) => i < self.windows@.len() && self.windows@[i as int].id == window_id,
                None => !holds_window(self.windows@, window_id),
            },
    {
        let mut i: usize = 0;
        while i < self.windows.len()
            invariant
                i <= self.windows@.len(),
                forall|k: int| 0 <= k < i ==> (#[trigger] self.windows@[k]).id != window_id,
            decreases self.windows@.len() - i,
        {
            if self.windows[i].id == window_id {
                return Some(i);
            }
            i += 1;
        }
        None
    }

    /// The window with this identifier, if held.
    pub fn window(&self, window_id: WindowId) -> (r: Option<&Window>)
        requires
            self.wf(),
        ensures
            holds_window(self.windows(), window_id) ==> r == Some(&self.windows()[window_position(self.windows(), window_id)]),
            !holds_window(self.windows(), window_id) ==> r is None,
    {
        match self.find(window_id) {
            Some(i) => {
                proof {
                    let p = window_position(self.windows@, window_id);
                    if p != i {
                        assert(self.windows@[p].id == self.windows@[i as int].id);
                    }
                }
                Some(&self.windows[i])
            },
            None => None,
        }
    }

    /// Closes a window. Refused with `WindowNotFound` for an unknown window,
    /// `WindowAlreadyClosed` for a closed one, and `BoundedMemoryInsufficient`
    /// when only `MIN_MEMORY_WINDOWS` windows are open.
    pub fn close_window(&mut self, window_id: WindowId) -> (r: Result<(), MemoryError>)
        requires
            old(self).wf(),
        ensures
            final(self).wf(),
            final(self).weights() == old(self).weights(),
            old(self).within_bounds() ==> final(self).within_bounds(),
            close_outcome(old(self).windows(), final(self).windows(), window_id, r),
    {
        let i = match self.find(window_id) {
            None => {
                return Err(MemoryError::WindowNotFound { window_id });
            },
            Some(i) => i,
        };
        proof {
            let p = window_position(self.windows@, window_id);
            if p != i {
                assert(self.windows@[p].id == self.windows@[i as int].id);
            }
        }
        if !self.windows[i].is_open {
            return Err(MemoryError::WindowAlreadyClosed { window_id });
        }
        let open = self.open_window_count();
        if open <= MIN_MEMORY_WINDOWS {
            return Err(MemoryError::BoundedMemoryInsufficient { min: MIN_MEMORY_WINDOWS });
        }
        let ghost before = self.windows@;
        self.windows[i].is_open = false;
        proof {
            let w = Window { is_open: false, ..before[i as int] };
            assert(self.windows@ == before.update(i as int, w));
            lemma_open_count_update(before, i as int, w);
            assert forall|a: int, b: int| 0 <= a < self.windows@.len() && 0 <= b < self.windows@.len() && a != b
                implies (#[trigger] self.windows@[a]).id != (#[trigger] self.windows@[b]).id by {
                if a != i {
                    assert(self.windows@[a] == before[a]);
                }
                if b != i {
                    assert(self.windows@[b] == before[b]);
                }
            }
        }
        Ok(())
    }

    /// Stores content in an open window, setting the window's salience when
    /// the request carries one. Refused with `WindowNotFound` for an unknown
    /// window and `WindowAlreadyClosed` for a closed one.
    pub fn store(&mut self, request: StoreRequest) -> (r: Result<(), MemoryError>)
        requires
            old(self).wf(),
        ensures
            final(self).wf(),
            final(self).weights() == old(self).weights(),
            old(self).within_bounds() ==> final(self).within_bounds(),
            store_outcome(old(self).windows(), final(self).windows(), request, r),
    {
        let i = match self.find(request.window_id) {
            None => {
                return Err(MemoryError::WindowNotFound { window_id: request.window_id });
            },
            Some(i) => i,
        };
        proof {
            let p = window_position(self.windows@, request.window_id);
            if p != i {
                assert(self.windows@[p].id == self.windows@[i as int].id);
            }
        }
        if !self.windows[i].is_open {
            return Err(MemoryError::WindowAlreadyClosed { window_id: request.window_id });
        }
        let ghost before = self.windows@;
        match request.salience {
            Some(s) => {
                self.windows[i].salience = s;
            },
            None => {},
        }
        self.windows[i].push(request.content);
        proof {
            let w = self.windows@[i as int];
            assert(self.windows@ == before.update(i as int, w));
            lemma_open_count_update(before, i as int, w);
            assert forall|a: int, b: int| 0 <= a < self.windows@.len() && 0 <= b < self.windows@.len() && a != b
                implies (#[trigger] self.windows@[a]).id != (#[trigger] self.windows@[b]).id by {
                if a != i {
                    assert(self.windows@[a] == before[a]);
                }
                if b != i {
                    assert(self.windows@[b] == before[b]);
                }
            }
        }
        Ok(())
    }

    /// The salience weights used to recall.
    pub fn salience_weights(&self) -> (w: SalienceWeights)
        ensures
            w == self.weights(),
    {
        self.salience_weights
    }

    /// Every window, in the order they were opened.
    pub fn list_windows(&self) -> (r: &Vec<Window>)
        ensures
            r@ == self.windows(),
    {
        &self.windows
    }
}

/// Whether a recall looks at this window: the queried window (open or
/// not), or every open window when no window is named.
pub open spec fn recall_selects(w: Window, query: RecallQuery) -> bool {
    match query.window_id {
        Some(id) => w.id == id,
        None => w.is_open,
    }
}

/// Whether a window of this composite salience passes the recall's salience
/// filter: it is not below the minimum, when one is given.
pub open spec fn recall_passes(composite: Real, query: RecallQuery) -> bool {
    match query.min_salience {
        Some(min) => !spec_lt(composite, min),
        None => true,
    }
}

/// The values of a list of contents.
pub open spec fn content_values(cs: Seq<Content>) -> Seq<ContentView> {
    cs.map_values(|c: Content| content_view(c))
}

/// What the first `n` windows contribute to a recall: the contents of each
/// selected window that passes the filter, window after window.
pub open spec fn recalled_from(ws: Seq<Window>, composites: Seq<Real>, query: RecallQuery, n: nat) -> Seq<ContentView>
    decreases n,
{
    if n == 0 {
        Seq::empty()
    } else {
        let k = (n - 1) as int;
        let front = recalled_from(ws, composites, query, (n - 1) as nat);
        if recall_selects(ws[k], query) && recall_passes(composites[k], query) {
            front + content_values(ws[k].contents@)
        } else {
            front
        }
    }
}

/// The contents a recall answers: everything the windows contribute, cut to
/// the limit when one is given.
pub open spec fn recall_result(ws: Seq<Window>, composites: Seq<Real>, query: RecallQuery) -> Seq<ContentView> {
    let all = recalled_from(ws, composites, query, ws.len());
    match query.limit {
        Some(l) => if l < all.len() { all.take(l as int) } else { all },
        None => all,
    }
}

/// A recalled value comes from a window the query allows: the named window
/// when one is named (otherwise an open window), whose composite salience is
/// not below the query's minimum when one is given. A window below the
/// minimum gives nothing, whether or not it is named.
pub open spec fn recalled_rightly(ws: Seq<Window>, composites: Seq<Real>, query: RecallQuery, x: ContentView) -> bool {
    exists|k: int| 0 <= k < ws.len()
        && #[trigger] content_values(ws[k].contents@).contains(x)
        && (query.window_id matches Some(id) ==> ws[k].id == id)
        && (query.window_id is None ==> ws[k].is_open)
        && (query.min_salience matches Some(min) ==> !spec_lt(composites[k], min))
}

/// Every value a recall gives back comes from a window the query allows
/// (see `recalled_rightly`): in particular, no window whose composite
/// salience is below the query's minimum contributes, named or not. A
/// recall never gives back more than the query's limit.
pub proof fn law_recall_respects_query(ws: Seq<Window>, composites: Seq<Real>, query: RecallQuery)
    requires
        composites.len() == ws.len(),
    ensures
        forall|i: int| 0 <= i < recall_result(ws, composites, query).len()
            ==> recalled_rightly(ws, composites, query, #[trigger] recall_result(ws, composites, query)[i]),
        query.limit matches Some(l) ==> recall_result(ws, composites, query).len() <= l,
{
    lemma_recalled_from_rightly(ws, composites, query, ws.len());
    let all = recalled_from(ws, composites, query, ws.len());
    assert forall|i: int| 0 <= i < recall_result(ws, composites, query).len()
        implies recalled_rightly(ws, composites, query, #[trigger] recall_result(ws, composites, query)[i]) by {
        assert(recall_result(ws, composites, query)[i] == all[i]);
    }
}

proof fn lemma_recalled_from_rightly(ws: Seq<Window>, composites: Seq<Real>, query: RecallQuery, n: nat)
    requires
        composites.len() == ws.len(),
        n <= ws.len(),
    ensures
        forall|i: int| 0 <= i < recalled_from(ws, composites, query, n).len()
            ==> recalled_rightly(ws, composites, query, #[trigger] recalled_from(ws, composites, query, n)[i]),
    decreases n,
{
    if n > 0 {
        let k = (n - 1) as int;
        lemma_recalled_from_rightly(ws, composites, query, (n - 1) as nat);
        let front = recalled_from(ws, composites, query, (n - 1) as nat);
        let here = recalled_from(ws, composites, query, n);
        if recall_selects(ws[k], query) && recall_passes(composites[k], query) {
            let mine = content_values(ws[k].contents@);
            assert forall|i: int| 0 <= i < here.len() implies recalled_rightly(ws, composites, query, #[trigger] here[i]) by {
                if i < front.len() {
                    assert(here[i] == front[i]);
                } else {
                    assert(here[i] == mine[i - front.len()]);
                    assert(mine.contains(here[i]));
                }
            }
        }
    }
}

/// Without a limit, a recall gives back every value of every window the
/// query allows: the named window (otherwise each open window) whose
/// composite salience is not below the minimum, when one is given.
pub proof fn law_recall_is_complete(ws: Seq<Window>, composites: Seq<Real>, query: RecallQuery, k: int)
    requires
        composites.len() == ws.len(),
        0 <= k < ws.len(),
        query.limit is None,
        query.window_id matches Some(id) ==> ws[k].id == id,
        query.window_id is None ==> ws[k].is_open,
        query.min_salience matches Some(min) ==> !spec_lt(composites[k], min),
    ensures
        forall|x: ContentView| #[trigger] content_values(ws[k].contents@).contains(x)
            ==> recall_result(ws, composites, query).contains(x),
{
    lemma_recalled_from_keeps(ws, composites, query, k, ws.len());
}

proof fn lemma_recalled_from_keeps(ws: Seq<Window>, composites: Seq<Real>, query: RecallQuery, k: int, n: nat)
    requires
        composites.len() == ws.len(),
        0 <= k < n <= ws.len(),
        query.window_id matches Some(id) ==> ws[k].id == id,
        query.window_id is None ==> ws[k].is_open,
        query.min_salience matches Some(min) ==> !spec_lt(composites[k], min),
    ensures
        forall|x: ContentView| #[trigger] content_values(ws[k].contents@).contains(x)
            ==> recalled_from(ws, composites, query, n).contains(x),
    decreases n,
{
    let front = recalled_from(ws, composites, query, (n - 1) as nat);
    let here = recalled_from(ws, composites, query, n);
    let last = (n - 1) as int;
    if k < last {
        lemma_recalled_from_keeps(ws, composites, query, k, (n - 1) as nat);
        assert forall|x: ContentView| #[trigger] content_values(ws[k].contents@).contains(x) implies here.contains(x) by {
            let i = choose|i: int| 0 <= i < front.len() && front[i] == x;
            if recall_selects(ws[last], query) && recall_passes(composites[last], query) {
                assert(here[i] == front[i]);
            }
        }
    } else {
        let mine = content_values(ws[k].contents@);
        assert forall|x: ContentView| #[trigger] mine.contains(x) implies here.contains(x) by {
            let i = choose|i: int| 0 <= i < mine.len() && mine[i] == x;
            assert(here[front.len() + i] == mine[i]);
        }
    }
}

impl MemoryState {
    /// Recalls contents: from the queried window, or from every open window,
    /// keeping the windows whose composite salience passes the query's
    /// minimum, in window order, cut to the query's limit. `composites[i]` is
    /// the composite salience of window `i` under the state's weights.
    pub fn recall(&self, query: &RecallQuery, composites: &Vec<Real>) -> (r: Vec<Content>)
        requires
            composites@.len() == self.windows().len(),
        ensures
            content_values(r@) == recall_result(self.windows(), composites@, *query),
            forall|i: int| 0 <= i < r@.len()
                ==> recalled_rightly(self.windows(), composites@, *query, content_view(#[trigger] r@[i])),
            query.limit matches Some(l) ==> r@.len() <= l,
    {
        proof {
            law_recall_respects_query(self.windows(), composites@, *query);
        }
        let mut out: Vec<Content> = Vec::new();
        let mut i: usize = 0;
        while i < self.windows.len()
            invariant
                i <= self.windows@.len(),
                composites@.len() == self.windows@.len(),
                content_values(out@) == recalled_from(self.windows@, composites@, *query, i as nat),
            decreases self.windows@.len() - i,
        {
            let w = &self.windows[i];
            let selected = match query.window_id {
                Some(id) => w.id == id,
                None => w.is_open,
            };
            let passes = match query.min_salience {
                Some(min) => !real_lt(composites[i], min),
                None => true,
            };
            let ghost before = out@;
            if selected && passes {
                let mut j: usize = 0;
                while j < w.contents.len()
                    invariant
                        j <= w.contents@.len(),
                        content_values(out@) == content_values(before) + content_values(w.contents@.take(j as int)),
                    decreases w.contents@.len() - j,
                {
                    let c = w.contents[j].clone();
                    let ghost prev = out@;
                    out.push(c);
                    proof {
                        assert(content_values(out@) =~= content_values(prev).push(content_view(c)));
                        assert(content_values(w.contents@.take(j + 1)) =~= content_values(w.contents@.take(j as int)).push(content_view(w.contents@[j as int])));
                    }
                    j += 1;
                }
                proof {
                    assert(w.contents@.take(w.contents@.len() as int) =~= w.contents@);
                }
            }
            i += 1;
        }
        match query.limit {
            Some(l) => {
                let ghost all = out@;
                out.truncate(l);
                proof {
                    if l < all.len() {
                        assert(content_values(out@) =~= content_values(all).take(l as int));
                    }
                }
            },
            None => {},
        }
        proof {
            let res = recall_result(self.windows(), composites@, *query);
            assert forall|i: int| 0 <= i < out@.len()
                implies recalled_rightly(self.windows(), composites@, *query, content_view(#[trigger] out@[i])) by {
                assert(content_values(out@)[i] == content_view(out@[i]));
                assert(res[i] == content_values(out@)[i]);
            }
        }
        out
    }
}

/// A request to the memory actor.
#[derive(Debug)]
pub enum MemoryRequest {
    /// Open a new memory window
    OpenWindow { label: Option<String> },
    /// Close a memory window
    CloseWindow { window_id: WindowId },
    /// Store content in a window
    Store { request: StoreRequest },
    /// Recall content
    Recall { query: RecallQuery },
    /// Every window
    ListWindows,
    /// The number of open windows
    GetWindowCount,
}

/// `b` is a copy of window `a`: the same identifier, label, salience and
/// state, and contents of the same values.
pub open spec fn copy_of_window(a: Window, b: Window) -> bool {
    &&& b.id == a.id
    &&& b.label == a.label
    &&& b.salience == a.salience
    &&& b.is_open == a.is_open
    &&& content_values(b.contents@) == content_values(a.contents@)
}

fn copy_contents(v: &Vec<Content>) -> (r: Vec<Content>)
    ensures
        content_values(r@) == content_values(v@),
{
    let mut out: Vec<Content> = Vec::new();
    let mut i: usize = 0;
    while i < v.len()
        invariant
            i <= v@.len(),
            content_values(out@) == content_values(v@.take(i as int)),
        decreases v@.len() - i,
    {
        let c = v[i].clone();
        let ghost prev = out@;
        out.push(c);
        proof {
            assert(content_values(out@) =~= content_values(prev).push(content_view(c)));
            assert(content_values(v@.take(i + 1)) =~= content_values(v@.take(i as int)).push(content_view(v@[i as int])));
        }
        i += 1;
    }
    proof {
        assert(v@.take(v@.len() as int) =~= v@);
    }
    out
}

fn copy_window(w: &Window) -> (r: Window)
    ensures
        copy_of_window(*w, r),
{
    let label = match &w.label {
        Some(l) => Some(l.clone()),
        None => None,
    };
    Window { id: w.id, label, contents: copy_contents(&w.contents), salience: w.salience, is_open: w.is_open }
}

fn copy_windows(v: &Vec<Window>) -> (r: Vec<Window>)
    ensures
        r@.len() == v@.len(),
        forall|k: int| 0 <= k < v@.len() ==> copy_of_window(v@[k], #[trigger] r@[k]),
{
    let mut out: Vec<Window> = Vec::new();
    let mut i: usize = 0;
    while i < v.len()
        invariant
            i <= v@.len(),
            out@.len() == i,
            forall|k: int| 0 <= k < i ==> copy_of_window(v@[k], #[trigger] out@[k]),
        decreases v@.len() - i,
    {
        let w = copy_window(&v[i]);
        out.push(w);
        i += 1;
    }
    out
}

impl MemoryState {
    /// Handles a request as the operations above describe: opening, closing,
    /// storing and recalling (`composites[i]` being the composite salience
    /// of window `i`), listing the windows and counting the open ones.
    pub fn handle(&mut self, request: MemoryRequest, composites: &Vec<Real>) -> (response: MemoryResponse)
        requires
            old(self).wf(),
            composites@.len() == old(self).windows().len(),
        ensures
            final(self).wf(),
            final(self).weights() == old(self).weights(),
            old(self).within_bounds() ==> final(self).within_bounds(),
            match request {
                MemoryRequest::OpenWindow { label } => {
                    ||| response matches MemoryResponse::WindowOpened { window_id }
                            && open_outcome(old(self).windows(), final(self).windows(), label, Ok(window_id))
                    ||| response matches MemoryResponse::Error { error }
                            && open_outcome(old(self).windows(), final(self).windows(), label, Err(error))
                },
                MemoryRequest::CloseWindow { window_id } => {
                    ||| response == MemoryResponse::WindowClosed { window_id }
                            && close_outcome(old(self).windows(), final(self).windows(), window_id, Ok(()))
                    ||| response matches MemoryResponse::Error { error }
                            && close_outcome(old(self).windows(), final(self).windows(), window_id, Err(error))
                },
                MemoryRequest::Store { request } => {
                    ||| response == MemoryResponse::ContentStored { window_id: request.window_id }
                            && store_outcome(old(self).windows(), final(self).windows(), request, Ok(()))
                    ||| response matches MemoryResponse::Error { error }
                            && store_outcome(old(self).windows(), final(self).windows(), request, Err(error))
                },
                MemoryRequest::Recall { query } => {
                    &&& response matches MemoryResponse::ContentRecalled { contents }
                            && content_values(contents@) == recall_result(old(self).windows(), composites@, query)
                    &&& final(self).windows() == old(self).windows()
                },
                MemoryRequest::ListWindows => {
                    &&& response matches MemoryResponse::WindowList { windows } && {
                            &&& windows@.len() == old(self).windows().len()
                            &&& forall|k: int| 0 <= k < windows@.len() ==> copy_of_window(old(self).windows()[k], #[trigger] windows@[k])
                        }
                    &&& final(self).windows() == old(self).windows()
                },
                MemoryRequest::GetWindowCount => {
                    &&& response == MemoryResponse::WindowCount { count: open_count(old(self).windows()) as usize }
                    &&& final(self).windows() == old(self).windows()
                },
            },
    {
        match request {
            MemoryRequest::OpenWindow { label } => match self.open_window(label) {
                Ok(window_id) => MemoryResponse::WindowOpened { window_id },
                Err(error) => MemoryResponse::Error { error },
            },
            MemoryRequest::CloseWindow { window_id } => match self.close_window(window_id) {
                Ok(()) => MemoryResponse::WindowClosed { window_id },
                Err(error) => MemoryResponse::Error { error },
            },
            MemoryRequest::Store { request } => {
                let window_id = request.window_id;
                match self.store(request) {
                    Ok(()) => MemoryResponse::ContentStored { window_id },
                    Err(error) => MemoryResponse::Error { error },
                }
            },
            MemoryRequest::Recall { query } => {
                let contents = self.recall(&query, composites);
                MemoryResponse::ContentRecalled { contents }
            },
            MemoryRequest::ListWindows => {
                let windows = copy_windows(&self.windows);
                MemoryResponse::WindowList { windows }
            },
            MemoryRequest::GetWindowCount => {
                let count = self.open_window_count();
                MemoryResponse::WindowCount { count }
            },
        }
    }
}

/// The memory actor: handles requests against its `MemoryState`.
pub struct MemoryActor;

} // verus!
