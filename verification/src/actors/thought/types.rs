//! Thought assembly types: requests, strategies, errors and the thought cache.
use vstd::prelude::*;
use vstd::string::*;
use crate::the_box::types::{uuid_text, Content, SalienceScore, Thought, ThoughtId};
use crate::text::{decimal, push_decimal};

verus! {

/// Responses of thought assembly.
#[derive(Debug, Clone, PartialEq)]
pub enum ThoughtResponse {
    /// Single thought successfully assembled
    Assembled {
        /// The newly assembled thought
        thought: Thought,
    },
    /// Multiple thoughts successfully assembled
    BatchAssembled {
        /// All assembled thoughts
        thoughts: Vec<Thought>,
    },
    /// Thought found in cache or storage
    ThoughtFound {
        /// The retrieved thought
        thought: Thought,
    },
    /// Thought chain retrieved (child to ancestors)
    ThoughtChain {
        /// The requested thought followed by its parent, grandparent, etc.
        thoughts: Vec<Thought>,
    },
    /// Assembly operation failed
    Error {
        /// The error that occurred
        error: AssemblyError,
    },
}

/// Request to assemble a thought from content and emotional colouring.
#[derive(Debug, Clone, PartialEq)]
pub struct AssemblyRequest {
    /// The content to assemble into a thought
    pub content: Content,
    /// Salience score (emotional colouring)
    pub salience: SalienceScore,
    /// Optional parent thought (for chained thoughts)
    pub parent_id: Option<ThoughtId>,
    /// Optional source stream identifier (which content stream won)
    pub source_stream: Option<String>,
    /// Assembly strategy to use
    pub strategy: AssemblyStrategy,
}

impl AssemblyRequest {
    /// A request with the default strategy, no parent and no source.
    pub fn new(content: Content, salience: SalienceScore) -> (r: AssemblyRequest)
        ensures
            r == (AssemblyRequest {
                content,
                salience,
                parent_id: None,
                source_stream: None,
                strategy: AssemblyStrategy::Default,
            }),
    {
        AssemblyRequest { content, salience, parent_id: None, source_stream: None, strategy: AssemblyStrategy::Default }
    }

    /// Links this thought to a parent thought.
    pub fn with_parent(self, parent_id: ThoughtId) -> (r: AssemblyRequest)
        ensures
            r == (AssemblyRequest { parent_id: Some(parent_id), ..self }),
    {
        AssemblyRequest { parent_id: Some(parent_id), ..self }
    }

    /// Tags this thought with its source stream.
    pub fn with_source(self, source: &str) -> (r: AssemblyRequest)
        ensures
            r.source_stream matches Some(s) && s@ == source@,
            r.content == self.content,
            r.salience == self.salience,
            r.parent_id == self.parent_id,
            r.strategy == self.strategy,
    {
        AssemblyRequest { source_stream: Some(String::from_str(source)), ..self }
    }

    /// Sets the assembly strategy.
    pub fn with_strategy(self, strategy: AssemblyStrategy) -> (r: AssemblyRequest)
        ensures
            r == (AssemblyRequest { strategy, ..self }),
    {
        AssemblyRequest { strategy, ..self }
    }
}

/// Strategy for assembling thoughts.
#[derive(Debug, Clone, Copy, PartialEq, Eq, Structural)]
pub enum AssemblyStrategy {
    /// Standard assembly - simple content + salience -> thought
    Default,
    /// Merge multiple content elements into a composite
    Composite,
    /// Link to parent and propagate salience
    Chain,
    /// High-priority assembly (skip normal queuing)
    Urgent,
}

impl Default for AssemblyStrategy {
    fn default() -> (s: AssemblyStrategy)
        ensures
            s == AssemblyStrategy::Default,
    {
        AssemblyStrategy::Default
    }
}

/// Errors that can occur during thought assembly.
#[derive(Debug, Clone, PartialEq)]
pub enum AssemblyError {
    /// Attempted to assemble empty content
    EmptyContent,
    /// Invalid salience score provided
    InvalidSalience {
        /// Explanation of why salience is invalid
        reason: String,
    },
    /// Thought not found in cache or storage
    ThoughtNotFound {
        /// ID of the missing thought
        thought_id: ThoughtId,
    },
    /// Thought chain exceeds maximum depth
    ChainTooDeep {
        /// Maximum allowed depth
        max_depth: usize,
    },
    /// General assembly failure
    AssemblyFailed {
        /// Explanation of the failure
        reason: String,
    },
}

/// The message text of an assembly error.
pub open spec fn assembly_error_text(e: AssemblyError) -> Seq<char> {
    match e {
        AssemblyError::EmptyContent => "Cannot assemble empty content"@,
        AssemblyError::InvalidSalience { reason } => "Invalid salience score: "@ + reason@,
        AssemblyError::ThoughtNotFound { thought_id } => "Thought not found: "@ + uuid_text(thought_id.value()),
        AssemblyError::ChainTooDeep { max_depth } => "Thought chain too deep: maximum depth is "@ + decimal(max_depth as nat),
        AssemblyError::AssemblyFailed { reason } => "Assembly failed: "@ + reason@,
    }
}

impl AssemblyError {
    /// The human-readable message of the error.
    pub fn to_string(&self) -> (s: String)
        ensures
            s@ == assembly_error_text(*self),
    {
        match self {
            AssemblyError::EmptyContent => String::from_str("Cannot assemble empty content"),
            AssemblyError::InvalidSalience { reason } => {
                let mut s = String::from_str("Invalid salience score: ");
                s.append(reason.as_str());
                s
            },
            AssemblyError::ThoughtNotFound { thought_id } => {
                let mut s = String::from_str("Thought not found: ");
                let id = thought_id.to_string();
                s.append(id.as_str());
                s
            },
            AssemblyError::ChainTooDeep { max_depth } => {
                let mut s = String::from_str("Thought chain too deep: maximum depth is ");
                push_decimal(&mut s, *max_depth as u64);
                s
            },
            AssemblyError::AssemblyFailed { reason } => {
                let mut s = String::from_str("Assembly failed: ");
                s.append(reason.as_str());
                s
            },
        }
    }
}

/// Whether some entry of `entries` carries identifier `id`.
pub open spec fn holds_id(entries: Seq<Thought>, id: ThoughtId) -> bool {
    exists|p: int| 0 <= p < entries.len() && (#[trigger] entries[p]).id == id
}

/// The position of the entry carrying `id` (meaningful when `holds_id`).
pub open spec fn position_of(entries: Seq<Thought>, id: ThoughtId) -> int {
    choose|p: int| 0 <= p < entries.len() && (#[trigger] entries[p]).id == id
}

/// No identifier occurs twice among the entries.
pub open spec fn distinct_ids(entries: Seq<Thought>) -> bool {
    forall|i: int, j: int| 0 <= i < entries.len() && 0 <= j < entries.len() && i != j ==> (#[trigger] entries[i]).id != (#[trigger] entries[j]).id
}

/// The cache contents after inserting `t`, oldest first: an entry with the same
/// identifier is replaced and moves to the newest position; otherwise, when the
/// cache is at capacity, the oldest entry is evicted first. A cache of
/// capacity zero holds nothing.
pub open spec fn after_insert(entries: Seq<Thought>, max_size: nat, t: Thought) -> Seq<Thought> {
    if max_size == 0 {
        entries
    } else if holds_id(entries, t.id) {
        entries.remove(position_of(entries, t.id)).push(t)
    } else if entries.len() >= max_size && entries.len() > 0 {
        entries.drop_first().push(t)
    } else {
        entries.push(t)
    }
}

/// Inserting into entries with distinct identifiers keeps them distinct.
pub proof fn lemma_after_insert_keeps_ids_distinct(entries: Seq<Thought>, max_size: nat, t: Thought)
    requires
        distinct_ids(entries),
    ensures
        distinct_ids(after_insert(entries, max_size, t)),
{
    let e = after_insert(entries, max_size, t);
    let present = holds_id(entries, t.id);
    let pos = position_of(entries, t.id);
    let evicting = !present && entries.len() >= max_size && entries.len() > 0;
    if max_size == 0 {
        return;
    }
    // maps a position of the result (other than the last) to its source position
    assert forall|i: int| 0 <= i < e.len() - 1 implies (#[trigger] e[i]) == entries[
        if present { if i < pos { i } else { i + 1 } } else if evicting { i + 1 } else { i }
    ] by {}
    assert forall|i: int, j: int| 0 <= i < e.len() && 0 <= j < e.len() && i != j implies (#[trigger] e[i]).id != (#[trigger] e[j]).id by {
        let si = if present { if i < pos { i } else { i + 1 } } else if evicting { i + 1 } else { i };
        let sj = if present { if j < pos { j } else { j + 1 } } else if evicting { j + 1 } else { j };
        if i < e.len() - 1 && j < e.len() - 1 {
            assert(e[i] == entries[si]);
            assert(e[j] == entries[sj]);
        } else if i == e.len() - 1 {
            assert(e[j] == entries[sj]);
            if present {
                assert(sj != pos);
            }
        } else {
            assert(e[i] == entries[si]);
            if present {
                assert(si != pos);
            }
        }
    }
}

/// Read after write: once a thought is inserted, looking up its identifier
/// finds exactly that thought.
pub proof fn lemma_insert_then_get(entries: Seq<Thought>, max_size: nat, t: Thought)
    requires
        distinct_ids(entries),
        max_size > 0,
    ensures
        holds_id(after_insert(entries, max_size, t), t.id),
        after_insert(entries, max_size, t)[position_of(after_insert(entries, max_size, t), t.id)] == t,
{
    let e = after_insert(entries, max_size, t);
    lemma_after_insert_keeps_ids_distinct(entries, max_size, t);
    assert(e[e.len() - 1] == t);
    assert(holds_id(e, t.id));
    let p = position_of(e, t.id);
    assert(e[p].id == t.id);
    assert(p == e.len() - 1);
}

/// Inserting never drops a thought other than the replaced one or, when the
/// cache is full, the oldest one: every other cached thought stays retrievable.
pub proof fn lemma_insert_keeps_others(entries: Seq<Thought>, max_size: nat, t: Thought, k: int)
    requires
        distinct_ids(entries),
        0 <= k < entries.len(),
        entries[k].id != t.id,
        !(!holds_id(entries, t.id) && entries.len() >= max_size && k == 0),
    ensures
        after_insert(entries, max_size, t).contains(entries[k]),
{
    let e = after_insert(entries, max_size, t);
    if max_size == 0 {
        assert(e[k] == entries[k]);
    } else if holds_id(entries, t.id) {
        let pos = position_of(entries, t.id);
        assert(k != pos);
        if k < pos {
            assert(e[k] == entries[k]);
        } else {
            assert(e[k - 1] == entries[k]);
        }
    } else if entries.len() >= max_size && entries.len() > 0 {
        assert(e[k - 1] == entries[k]);
    } else {
        assert(e[k] == entries[k]);
    }
}

/// Bounded cache of recently assembled thoughts with oldest-first eviction.
#[derive(Debug)]
pub struct ThoughtCache {
    /// Cached thoughts in insertion order, oldest first
    entries: Vec<Thought>,
    /// Maximum number of thoughts to cache
    max_size: usize,
}

impl ThoughtCache {
    /// The cached thoughts, oldest first.
    pub closed spec fn entries(self) -> Seq<Thought> {
        self.entries@
    }

    /// The capacity the cache was made with.
    pub closed spec fn capacity(self) -> nat {
        self.max_size as nat
    }

    /// Identifiers are distinct and the cache never holds more than its capacity.
    #[verifier::type_invariant]
    pub closed spec fn inv(self) -> bool {
        &&& distinct_ids(self.entries@)
        &&& self.entries@.len() <= self.max_size as nat
    }

    /// A cache of the given capacity.
    pub fn new(max_size: usize) -> (c: ThoughtCache)
        ensures
            c.entries() == Seq::<Thought>::empty(),
            c.capacity() == max_size,
    {
        ThoughtCache { entries: Vec::new(), max_size }
    }

    /// The capacity the cache was made with.
    pub fn max_size(&self) -> (m: usize)
        ensures
            m == self.capacity(),
    {
        self.max_size
    }

    fn find(&self, thought_id: &ThoughtId) -> (r: Option<usize>)
        ensures
            match r {
                Some(p) => p < self.entries().len() && self.entries()[p as int].id == *thought_id,
                None => !holds_id(self.entries(), *thought_id),
            },
    {
        let mut i: usize = 0;
        while i < self.entries.len()
            invariant
                i <= self.entries@.len(),
                forall|p: int| 0 <= p < i ==> (#[trigger] self.entries@[p]).id != *thought_id,
            decreases self.entries@.len() - i,
        {
            if self.entries[i].id == *thought_id {
                return Some(i);
            }
            i += 1;
        }
        None
    }

    /// Inserts a thought. An existing thought with the same identifier is
    /// replaced and becomes the newest; otherwise, if the cache is full, the
    /// oldest thought is evicted first.
    pub fn insert(&mut self, thought: Thought)
        ensures
            final(self).entries() == after_insert(old(self).entries(), old(self).capacity(), thought),
            final(self).capacity() == old(self).capacity(),
            final(self).entries().len() <= final(self).capacity(),
            distinct_ids(final(self).entries()),
    {
        proof {
            use_type_invariant(&*self);
        }
        if self.max_size == 0 {
            return;
        }
        let ghost old_entries = self.entries@;
        let found = self.find(&thought.id);
        let mut entries: Vec<Thought> = Vec::new();
        std::mem::swap(&mut entries, &mut self.entries);
        match found {
            Some(pos) => {
                proof {
                    let q = position_of(old_entries, thought.id);
                    assert(holds_id(old_entries, thought.id));
                    assert(old_entries[q].id == thought.id);
                    assert(q == pos as int);
                }
                entries.remove(pos);
            },
            None => {
                if entries.len() >= self.max_size && entries.len() > 0 {
                    evict_oldest(&mut entries);
                }
            },
        }
        entries.push(thought);
        proof {
            lemma_after_insert_keeps_ids_distinct(old_entries, self.max_size as nat, thought);
        }
        self.entries = entries;
    }

    /// The cached thought with the given identifier, if any.
    pub fn get(&self, thought_id: &ThoughtId) -> (r: Option<&Thought>)
        ensures
            match r {
                Some(t) => holds_id(self.entries(), *thought_id) && *t == self.entries()[position_of(self.entries(), *thought_id)],
                None => !holds_id(self.entries(), *thought_id),
            },
    {
        proof {
            use_type_invariant(self);
        }
        match self.find(thought_id) {
            Some(pos) => {
                proof {
                    let q = position_of(self.entries(), *thought_id);
                    assert(holds_id(self.entries(), *thought_id));
                    assert(q == pos as int);
                }
                Some(&self.entries[pos])
            },
            None => None,
        }
    }

    /// The number of cached thoughts.
    pub fn len(&self) -> (n: usize)
        ensures
            n == self.entries().len(),
            n <= self.capacity(),
            distinct_ids(self.entries()),
    {
        proof {
            use_type_invariant(self);
        }
        self.entries.len()
    }

    /// Whether the cache is empty.
    pub fn is_empty(&self) -> (b: bool)
        ensures
            b == (self.entries().len() == 0),
    {
        self.entries.len() == 0
    }

    /// Removes every cached thought.
    pub fn clear(&mut self)
        ensures
            final(self).entries() == Seq::<Thought>::empty(),
            final(self).capacity() == old(self).capacity(),
    {
        self.entries = Vec::new();
    }

}

/// Evicts the oldest thought, if there is one.
fn evict_oldest(entries: &mut Vec<Thought>)
    ensures
        old(entries)@.len() > 0 ==> final(entries)@ == old(entries)@.drop_first(),
        old(entries)@.len() == 0 ==> final(entries)@ == old(entries)@,
{
    if entries.len() > 0 {
        entries.remove(0);
        proof {
            assert(entries@ =~= old(entries)@.drop_first());
        }
    }
}

impl Default for ThoughtCache {
    /// A cache of 100 thoughts.
    fn default() -> (c: ThoughtCache)
        ensures
            c.entries() == Seq::<Thought>::empty(),
            c.capacity() == 100,
    {
        ThoughtCache::new(100)
    }
}

} // verus!
