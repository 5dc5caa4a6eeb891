//! Thought assembly - Construção do Pensamento.
//!
//! Combines content and emotional colouring into thoughts, links thoughts
//! into chains and keeps recently assembled thoughts in a bounded cache.
pub mod types;

use vstd::prelude::*;
use vstd::string::*;
use crate::ieee::{Real, real_le, spec_le};
use crate::the_box::types::{thought_view, Content, SalienceScore, Thought, ThoughtId, ThoughtView};

pub use types::{AssemblyError, AssemblyRequest, AssemblyStrategy, ThoughtCache, ThoughtResponse};
use types::{after_insert, distinct_ids, holds_id, lemma_after_insert_keeps_ids_distinct, lemma_insert_then_get, position_of};

verus! {

/// Configuration of thought assembly.
#[derive(Debug, Clone, Copy, PartialEq, Eq, Structural)]
pub struct AssemblyConfig {
    /// How many recently assembled thoughts are kept
    pub cache_size: usize,
    /// The deepest chain that may be asked for
    pub max_chain_depth: usize,
    /// Whether salience scores are checked before assembly
    pub validate_salience: bool,
}

impl AssemblyConfig {
    /// A configuration with the given parts.
    pub fn new(cache_size: usize, max_chain_depth: usize, validate_salience: bool) -> (c: AssemblyConfig)
        ensures
            c == (AssemblyConfig { cache_size, max_chain_depth, validate_salience }),
    {
        AssemblyConfig { cache_size, max_chain_depth, validate_salience }
    }
}

impl Default for AssemblyConfig {
    /// A cache of 100 thoughts, chains of up to 50, salience checked.
    fn default() -> (c: AssemblyConfig)
        ensures
            c == (AssemblyConfig { cache_size: 100, max_chain_depth: 50, validate_salience: true }),
    {
        AssemblyConfig { cache_size: 100, max_chain_depth: 50, validate_salience: true }
    }
}

/// Whether a component lies in [0.0, 1.0] (NaN does not).
pub open spec fn in_unit(x: Real) -> bool {
    spec_le(0x0000_0000, x) && spec_le(x, 0x3F80_0000)
}

/// Whether a component lies in [-1.0, 1.0] (NaN does not).
pub open spec fn in_signed_unit(x: Real) -> bool {
    spec_le(0xBF80_0000, x) && spec_le(x, 0x3F80_0000)
}

/// What is wrong with a salience score, if anything: the first component,
/// in the order importance, novelty, relevance, valence and connection
/// relevance, that lies outside its range ([-1.0, 1.0] for valence,
/// [0.0, 1.0] for the others).
pub open spec fn salience_fault(s: SalienceScore) -> Option<Seq<char>> {
    if !in_unit(s.importance) {
        Some("importance must be between 0.0 and 1.0"@)
    } else if !in_unit(s.novelty) {
        Some("novelty must be between 0.0 and 1.0"@)
    } else if !in_unit(s.relevance) {
        Some("relevance must be between 0.0 and 1.0"@)
    } else if !in_signed_unit(s.valence) {
        Some("valence must be between -1.0 and 1.0"@)
    } else if !in_unit(s.connection_relevance) {
        Some("connection_relevance must be between 0.0 and 1.0"@)
    } else {
        None
    }
}

/// Why a request cannot be assembled.
pub enum AssemblyFault {
    /// The content is empty
    Empty,
    /// The salience is out of range, for this reason
    Salience(Seq<char>),
}

/// Why a request cannot be assembled under a configuration, if it cannot:
/// empty content first, then (where salience is checked) its salience.
pub open spec fn request_fault(config: AssemblyConfig, request: AssemblyRequest) -> Option<AssemblyFault> {
    if request.content is Empty {
        Some(AssemblyFault::Empty)
    } else if config.validate_salience && salience_fault(request.salience) is Some {
        Some(AssemblyFault::Salience(salience_fault(request.salience)->0))
    } else {
        None
    }
}

/// The error answering a fault.
pub open spec fn fault_error(e: AssemblyError, f: AssemblyFault) -> bool {
    match f {
        AssemblyFault::Empty => e == AssemblyError::EmptyContent,
        AssemblyFault::Salience(reason) => e matches AssemblyError::InvalidSalience { reason: m } && m@ == reason,
    }
}

/// Whether `t` is the thought assembled from `request`: its content,
/// salience, parent and source stream are the request's.
pub open spec fn assembled_from(t: Thought, request: AssemblyRequest) -> bool {
    &&& t.content == request.content
    &&& t.salience == request.salience
    &&& t.parent_id == request.parent_id
    &&& t.source_stream == request.source_stream
}

/// The chain of thoughts starting at `id` and following parents, of at most
/// `n` thoughts, as the cache holds them; `Err` with the identifier of the
/// first thought of the walk that the cache does not hold.
pub open spec fn chain_from(entries: Seq<Thought>, id: ThoughtId, n: nat) -> Result<Seq<Thought>, ThoughtId>
    decreases n,
{
    if n == 0 {
        Ok(Seq::empty())
    } else if !holds_id(entries, id) {
        Err(id)
    } else {
        let t = entries[position_of(entries, id)];
        match t.parent_id {
            None => Ok(seq![t]),
            Some(p) => match chain_from(entries, p, (n - 1) as nat) {
                Ok(rest) => Ok(seq![t] + rest),
                Err(missing) => Err(missing),
            },
        }
    }
}

/// The values of a list of thoughts.
pub open spec fn thought_values(ts: Seq<Thought>) -> Seq<ThoughtView> {
    ts.map_values(|t: Thought| thought_view(t))
}

/// What assembling `request` does to a state and answers: for a request
/// with a fault, that fault's error and no change; otherwise a thought
/// assembled from the request, cached (see `after_insert`) and counted, and
/// a copy of it returned.
pub open spec fn assemble_outcome(
    before: ThoughtState,
    after: ThoughtState,
    request: AssemblyRequest,
    r: Result<Thought, AssemblyError>,
) -> bool {
    match request_fault(before.config, request) {
        Some(f) => {
            &&& r matches Err(e) && fault_error(e, f)
            &&& after == before
        },
        None => r matches Ok(t) && exists|c: Thought| #[trigger] assembled_as(before, after, request, t, c),
    }
}

/// `c` is the thought assembled from `request`, `t` the copy handed back:
/// `c` was cached (see `after_insert`) and counted.
pub open spec fn assembled_as(before: ThoughtState, after: ThoughtState, request: AssemblyRequest, t: Thought, c: Thought) -> bool {
    &&& assembled_from(c, request)
    &&& thought_view(t) == thought_view(c)
    &&& after.cache.entries() == after_insert(before.cache.entries(), before.cache.capacity(), c)
    &&& after.assembly_count == before.assembly_count + 1
}

/// The cache contents after inserting `ts` in order (see `after_insert`).
pub open spec fn inserted_all(entries: Seq<Thought>, max_size: nat, ts: Seq<Thought>) -> Seq<Thought>
    decreases ts.len(),
{
    if ts.len() == 0 {
        entries
    } else {
        after_insert(inserted_all(entries, max_size, ts.drop_last()), max_size, ts.last())
    }
}

/// What assembling a batch does, where `ts` are the thoughts it cached:
/// the requests are assembled in order until the first one with a fault.
/// Each of the first `ts.len()` requests has no fault and gave the thought
/// of the same position, which was cached and counted. The answer is every
/// thought, when no request has a fault, and otherwise the error of the
/// first request with one.
pub open spec fn batch_outcome(
    before: ThoughtState,
    after: ThoughtState,
    requests: Seq<AssemblyRequest>,
    ts: Seq<Thought>,
    r: Result<Vec<Thought>, AssemblyError>,
) -> bool {
    &&& ts.len() <= requests.len()
    &&& forall|i: int| 0 <= i < ts.len() ==> request_fault(before.config, #[trigger] requests[i]) is None
    &&& forall|i: int| 0 <= i < ts.len() ==> assembled_from(#[trigger] ts[i], requests[i])
    &&& after.config == before.config
    &&& after.cache.capacity() == before.cache.capacity()
    &&& after.cache.entries() == inserted_all(before.cache.entries(), before.cache.capacity(), ts)
    &&& after.assembly_count == before.assembly_count + ts.len()
    &&& match r {
        Ok(v) => ts.len() == requests.len() && thought_values(v@) == thought_values(ts),
        Err(e) => ts.len() < requests.len() && (request_fault(before.config, requests[ts.len() as int]) matches Some(f)
            && fault_error(e, f)),
    }
}

/// What looking up `id` answers: a copy of the cached thought carrying it,
/// or `ThoughtNotFound`.
pub open spec fn lookup_outcome(state: ThoughtState, id: ThoughtId, r: Result<Thought, AssemblyError>) -> bool {
    let entries = state.cache.entries();
    if holds_id(entries, id) {
        r matches Ok(t) && thought_view(t) == thought_view(entries[position_of(entries, id)])
    } else {
        r == Err::<Thought, AssemblyError>(AssemblyError::ThoughtNotFound { thought_id: id })
    }
}

/// What asking for the chain from `id` of at most `depth` thoughts answers:
/// `ChainTooDeep` beyond the configured maximum, and otherwise the chain
/// (see `chain_from`) or `ThoughtNotFound` naming the thought it misses.
pub open spec fn chain_outcome(state: ThoughtState, id: ThoughtId, depth: usize, r: Result<Vec<Thought>, AssemblyError>) -> bool {
    if depth > state.config.max_chain_depth {
        r == Err::<Vec<Thought>, AssemblyError>(AssemblyError::ChainTooDeep { max_depth: state.config.max_chain_depth })
    } else {
        match chain_from(state.cache.entries(), id, depth as nat) {
            Ok(chain) => r matches Ok(v) && thought_values(v@) == thought_values(chain),
            Err(missing) => r == Err::<Vec<Thought>, AssemblyError>(AssemblyError::ThoughtNotFound { thought_id: missing }),
        }
    }
}

/// A request to the thought assembly actor.
#[derive(Debug)]
pub enum ThoughtRequest {
    /// Assemble one thought
    Assemble { request: AssemblyRequest },
    /// Assemble several thoughts in order
    AssembleBatch { requests: Vec<AssemblyRequest> },
    /// Look up a cached thought
    GetThought { thought_id: ThoughtId },
    /// A thought and its ancestors
    GetThoughtChain { thought_id: ThoughtId, depth: usize },
}

/// The state of thought assembly: its configuration, how many thoughts it
/// has assembled, and the cache of recent thoughts.
#[derive(Debug)]
pub struct ThoughtState {
    /// Configuration
    pub config: AssemblyConfig,
    /// Thoughts assembled so far
    pub assembly_count: u64,
    /// Recently assembled thoughts
    pub cache: ThoughtCache,
}

impl ThoughtState {
    /// A fresh state under the default configuration.
    pub fn new() -> (s: ThoughtState)
        ensures
            s.config == (AssemblyConfig { cache_size: 100, max_chain_depth: 50, validate_salience: true }),
            s.assembly_count == 0,
            s.cache.entries() == Seq::<Thought>::empty(),
            s.cache.capacity() == 100,
    {
        ThoughtState::with_config(AssemblyConfig::default())
    }

    /// A fresh state under a configuration; the cache holds `cache_size` thoughts.
    pub fn with_config(config: AssemblyConfig) -> (s: ThoughtState)
        ensures
            s.config == config,
            s.assembly_count == 0,
            s.cache.entries() == Seq::<Thought>::empty(),
            s.cache.capacity() == config.cache_size,
    {
        ThoughtState { config, assembly_count: 0, cache: ThoughtCache::new(config.cache_size) }
    }

    /// The cache of recent thoughts.
    pub fn cache(&self) -> (c: &ThoughtCache)
        ensures
            *c == self.cache,
    {
        &self.cache
    }

    /// Checks a salience score: `InvalidSalience` naming the first component
    /// out of range (see `salience_fault`).
    pub fn validate_salience(&self, salience: &SalienceScore) -> (r: Result<(), AssemblyError>)
        ensures
            match salience_fault(*salience) {
                None => r is Ok,
                Some(reason) => r matches Err(AssemblyError::InvalidSalience { reason: m }) && m@ == reason,
            },
    {
        let unit_lo: Real = 0x0000_0000;
        let unit_hi: Real = 0x3F80_0000;
        let signed_lo: Real = 0xBF80_0000;
        if !(real_le(unit_lo, salience.importance) && real_le(salience.importance, unit_hi)) {
            return Err(AssemblyError::InvalidSalience { reason: String::from_str("importance must be between 0.0 and 1.0") });
        }
        if !(real_le(unit_lo, salience.novelty) && real_le(salience.novelty, unit_hi)) {
            return Err(AssemblyError::InvalidSalience { reason: String::from_str("novelty must be between 0.0 and 1.0") });
        }
        if !(real_le(unit_lo, salience.relevance) && real_le(salience.relevance, unit_hi)) {
            return Err(AssemblyError::InvalidSalience { reason: String::from_str("relevance must be between 0.0 and 1.0") });
        }
        if !(real_le(signed_lo, salience.valence) && real_le(salience.valence, unit_hi)) {
            return Err(AssemblyError::InvalidSalience { reason: String::from_str("valence must be between -1.0 and 1.0") });
        }
        if !(real_le(unit_lo, salience.connection_relevance) && real_le(salience.connection_relevance, unit_hi)) {
            return Err(AssemblyError::InvalidSalience {
                reason: String::from_str("connection_relevance must be between 0.0 and 1.0"),
            });
        }
        Ok(())
    }

    /// Assembles a thought from a request: refused with `EmptyContent` for
    /// empty content and, where salience is checked, `InvalidSalience` for a
    /// salience out of range, leaving the state as it is. Otherwise a thought
    /// with a fresh identifier and the request's content, salience, parent
    /// and source stream is cached, counted and returned. The strategy does
    /// not change the thought.
    pub fn assemble_thought(&mut self, request: AssemblyRequest) -> (r: Result<Thought, AssemblyError>)
        requires
            old(self).assembly_count < u64::MAX,
        ensures
            final(self).config == old(self).config,
            final(self).cache.capacity() == old(self).cache.capacity(),
            assemble_outcome(*old(self), *final(self), request, r),
    {
        if request.content.is_empty() {
            return Err(AssemblyError::EmptyContent);
        }
        if self.config.validate_salience {
            match self.validate_salience(&request.salience) {
                Err(e) => {
                    return Err(e);
                },
                Ok(()) => {},
            }
        }
        let thought = Thought {
            id: ThoughtId::new(),
            content: request.content,
            salience: request.salience,
            parent_id: request.parent_id,
            source_stream: request.source_stream,
        };
        let ghost before = *old(self);
        let ghost c = thought;
        let copy = thought.clone();
        self.cache.insert(thought);
        self.assembly_count = self.assembly_count + 1;
        proof {
            assert(assembled_as(before, *self, request, copy, c));
        }
        Ok(copy)
    }

    /// Assembles requests in order, stopping at the first that is refused:
    /// every thought when none is, and otherwise that request's error, the
    /// thoughts assembled before it staying cached (see `batch_outcome`).
    pub fn assemble_batch(&mut self, requests: Vec<AssemblyRequest>) -> (r: Result<Vec<Thought>, AssemblyError>)
        requires
            old(self).assembly_count + requests@.len() <= u64::MAX,
        ensures
            exists|ts: Seq<Thought>| #[trigger] batch_outcome(*old(self), *final(self), requests@, ts, r),
    {
        let ghost before = *self;
        let ghost all = requests@;
        let mut rest = requests;
        let mut out: Vec<Thought> = Vec::new();
        let ghost mut ts: Seq<Thought> = Seq::empty();
        while rest.len() > 0
            invariant
                before == *old(self),
                all == requests@,
                ts.len() + rest@.len() == all.len(),
                rest@ == all.subrange(ts.len() as int, all.len() as int),
                before.assembly_count + all.len() <= u64::MAX,
                forall|i: int| 0 <= i < ts.len() ==> request_fault(before.config, #[trigger] all[i]) is None,
                forall|i: int| 0 <= i < ts.len() ==> assembled_from(#[trigger] ts[i], all[i]),
                self.config == before.config,
                self.cache.capacity() == before.cache.capacity(),
                self.cache.entries() == inserted_all(before.cache.entries(), before.cache.capacity(), ts),
                self.assembly_count == before.assembly_count + ts.len(),
                out@.len() == ts.len(),
                thought_values(out@) == thought_values(ts),
            decreases rest@.len(),
        {
            let request = rest.remove(0);
            proof {
                assert(request == all[ts.len() as int]);
            }
            let ghost mid = *self;
            match self.assemble_thought(request) {
                Ok(t) => {
                    let ghost c = choose|c: Thought| assembled_as(mid, *self, request, t, c);
                    proof {
                        assert(request_fault(before.config, request) is None);
                        assert(thought_view(t) == thought_view(c));
                        let grown = ts.push(c);
                        assert(grown.drop_last() =~= ts);
                        assert forall|i: int| 0 <= i < grown.len() implies #[trigger] thought_values(out@.push(t))[i]
                            == thought_values(grown)[i] by {
                            if i < ts.len() {
                                assert(thought_values(out@)[i] == thought_values(ts)[i]);
                                assert(out@.push(t)[i] == out@[i]);
                            }
                        }
                        assert(thought_values(out@.push(t)) =~= thought_values(grown));
                        assert(rest@ =~= all.subrange(grown.len() as int, all.len() as int));
                        ts = grown;
                    }
                    out.push(t);
                },
                Err(e) => {
                    proof {
                        assert(batch_outcome(before, *self, all, ts, Err::<Vec<Thought>, AssemblyError>(e)));
                    }
                    return Err(e);
                },
            }
        }
        proof {
            assert(batch_outcome(before, *self, all, ts, Ok::<Vec<Thought>, AssemblyError>(out)));
        }
        Ok(out)
    }

    /// The cached thought with this identifier, or `ThoughtNotFound`.
    pub fn get_thought(&self, thought_id: &ThoughtId) -> (r: Result<Thought, AssemblyError>)
        ensures
            lookup_outcome(*self, *thought_id, r),
    {
        match self.cache.get(thought_id) {
            Some(t) => Ok(t.clone()),
            None => Err(AssemblyError::ThoughtNotFound { thought_id: *thought_id }),
        }
    }

    /// The chain of thoughts from `thought_id` back through its ancestors,
    /// child first, of at most `depth` thoughts: refused with `ChainTooDeep`
    /// when `depth` exceeds the configured maximum, and with
    /// `ThoughtNotFound` when the walk reaches a thought the cache does not
    /// hold (see `chain_from`).
    pub fn get_thought_chain(&self, thought_id: ThoughtId, depth: usize) -> (r: Result<Vec<Thought>, AssemblyError>)
        ensures
            chain_outcome(*self, thought_id, depth, r),
    {
        if depth > self.config.max_chain_depth {
            return Err(AssemblyError::ChainTooDeep { max_depth: self.config.max_chain_depth });
        }
        let ghost entries = self.cache.entries();
        let mut chain: Vec<Thought> = Vec::new();
        let mut current: Option<ThoughtId> = Some(thought_id);
        let ghost mut start = thought_id;
        while chain.len() < depth
            invariant
                entries == self.cache.entries(),
                chain@.len() <= depth,
                current matches Some(id) ==> id == start,
                ({
                    let rest = match current {
                        Some(id) => chain_from(entries, id, (depth - chain@.len()) as nat),
                        None => Ok(Seq::<Thought>::empty()),
                    };
                    match chain_from(entries, thought_id, depth as nat) {
                        Ok(all) => rest matches Ok(tail) && thought_values(all) == thought_values(chain@) + thought_values(tail),
                        Err(missing) => rest == Err::<Seq<Thought>, ThoughtId>(missing),
                    }
                }),
                depth <= self.config.max_chain_depth,
            ensures
                chain@.len() == depth || current is None,
            decreases depth - chain@.len(),
        {
            let id = match current {
                None => {
                    break;
                },
                Some(id) => id,
            };
            let ghost n = (depth - chain@.len()) as nat;
            let t = match self.get_thought(&id) {
                Ok(t) => t,
                Err(e) => {
                    return Err(e);
                },
            };
            proof {
                let ct = entries[position_of(entries, id)];
                assert(thought_values(seq![t]) =~= thought_values(seq![ct]));
                match ct.parent_id {
                    None => {},
                    Some(p) => {
                        assert(chain_from(entries, id, n) == match chain_from(entries, p, (n - 1) as nat) {
                            Ok(rest) => Ok(seq![ct] + rest),
                            Err(missing) => Err::<Seq<Thought>, ThoughtId>(missing),
                        });
                    },
                }
            }
            current = t.parent_id;
            let ghost before = chain@;
            chain.push(t);
            proof {
                if let Some(p) = current {
                    start = p;
                }
                assert(thought_values(chain@) =~= thought_values(before) + thought_values(seq![t]));
                assert forall|a: Seq<ThoughtView>, b: Seq<ThoughtView>, c: Seq<ThoughtView>| (a + b) + c =~= a + (b + c) by {}
            }
        }
        proof {
            assert(thought_values(Seq::<Thought>::empty()) =~= Seq::<ThoughtView>::empty());
            assert(thought_values(chain@) + Seq::<ThoughtView>::empty() =~= thought_values(chain@));
        }
        Ok(chain)
    }

    /// Handles a request as the operations above describe, answering with
    /// the result or the error.
    pub fn handle(&mut self, request: ThoughtRequest) -> (response: ThoughtResponse)
        requires
            match request {
                ThoughtRequest::Assemble { .. } => old(self).assembly_count < u64::MAX,
                ThoughtRequest::AssembleBatch { requests } => old(self).assembly_count + requests@.len() <= u64::MAX,
                _ => true,
            },
        ensures
            match request {
                ThoughtRequest::Assemble { request } => {
                    ||| response matches ThoughtResponse::Assembled { thought }
                            && assemble_outcome(*old(self), *final(self), request, Ok(thought))
                    ||| response matches ThoughtResponse::Error { error }
                            && assemble_outcome(*old(self), *final(self), request, Err(error))
                },
                ThoughtRequest::AssembleBatch { requests } => {
                    ||| response matches ThoughtResponse::BatchAssembled { thoughts }
                            && exists|ts: Seq<Thought>| #[trigger] batch_outcome(*old(self), *final(self), requests@, ts, Ok(thoughts))
                    ||| response matches ThoughtResponse::Error { error }
                            && exists|ts: Seq<Thought>| #[trigger] batch_outcome(*old(self), *final(self), requests@, ts, Err(error))
                },
                ThoughtRequest::GetThought { thought_id } => {
                    &&& *final(self) == *old(self)
                    &&& {
                        ||| response matches ThoughtResponse::ThoughtFound { thought } && lookup_outcome(*old(self), thought_id, Ok(thought))
                        ||| response matches ThoughtResponse::Error { error } && lookup_outcome(*old(self), thought_id, Err(error))
                    }
                },
                ThoughtRequest::GetThoughtChain { thought_id, depth } => {
                    &&& *final(self) == *old(self)
                    &&& {
                        ||| response matches ThoughtResponse::ThoughtChain { thoughts }
                                && chain_outcome(*old(self), thought_id, depth, Ok(thoughts))
                        ||| response matches ThoughtResponse::Error { error }
                                && chain_outcome(*old(self), thought_id, depth, Err(error))
                    }
                },
            },
    {
        match request {
            ThoughtRequest::Assemble { request } => match self.assemble_thought(request) {
                Ok(thought) => ThoughtResponse::Assembled { thought },
                Err(error) => ThoughtResponse::Error { error },
            },
            ThoughtRequest::AssembleBatch { requests } => {
                let ghost before = *self;
                let ghost all = requests@;
                let r = self.assemble_batch(requests);
                let ghost ts = choose|ts: Seq<Thought>| batch_outcome(before, *self, all, ts, r);
                match r {
                    Ok(thoughts) => {
                        assert(batch_outcome(*old(self), *self, all, ts, Ok(thoughts)));
                        let response = ThoughtResponse::BatchAssembled { thoughts };
                        assert(response matches ThoughtResponse::BatchAssembled { thoughts: th } && batch_outcome(*old(self), *self, all, ts, Ok(th)));
                        response
                    },
                    Err(error) => {
                        assert(batch_outcome(*old(self), *self, all, ts, Err(error)));
                        ThoughtResponse::Error { error }
                    },
                }
            },
            ThoughtRequest::GetThought { thought_id } => match self.get_thought(&thought_id) {
                Ok(thought) => ThoughtResponse::ThoughtFound { thought },
                Err(error) => ThoughtResponse::Error { error },
            },
            ThoughtRequest::GetThoughtChain { thought_id, depth } => match self.get_thought_chain(thought_id, depth) {
                Ok(thoughts) => ThoughtResponse::ThoughtChain { thoughts },
                Err(error) => ThoughtResponse::Error { error },
            },
        }
    }
}

impl Default for ThoughtState {
    /// A fresh state under the default configuration.
    fn default() -> (s: ThoughtState)
        ensures
            s.config == (AssemblyConfig { cache_size: 100, max_chain_depth: 50, validate_salience: true }),
            s.assembly_count == 0,
            s.cache.entries() == Seq::<Thought>::empty(),
    {
        ThoughtState::new()
    }
}

/// A thought, once assembled, is what looking up its identifier answers
/// (for a cache that holds anything, whose identifiers are distinct, as the
/// cache keeps them).
pub proof fn law_assembled_thought_is_found(
    before: ThoughtState,
    after: ThoughtState,
    request: AssemblyRequest,
    t: Thought,
    found: Result<Thought, AssemblyError>,
)
    requires
        distinct_ids(before.cache.entries()),
        assemble_outcome(before, after, request, Ok(t)),
        lookup_outcome(after, t.id, found),
        before.cache.capacity() > 0,
    ensures
        found matches Ok(x) && thought_view(x) == thought_view(t),
{
    let c = choose|c: Thought| assembled_as(before, after, request, t, c);
    lemma_insert_then_get(before.cache.entries(), before.cache.capacity(), c);
}

/// The thoughts of a run of inserts into an unbounded cache, oldest first:
/// for each identifier its latest insert, ordered by when that insert came.
pub open spec fn latest_order(ts: Seq<Thought>) -> Seq<Thought>
    decreases ts.len(),
{
    if ts.len() == 0 {
        Seq::empty()
    } else {
        let rest = latest_order(ts.drop_last());
        let t = ts.last();
        if holds_id(rest, t.id) {
            rest.remove(position_of(rest, t.id)).push(t)
        } else {
            rest.push(t)
        }
    }
}

/// The newest `m` of a sequence (all of it when it is not longer).
pub open spec fn kept_suffix(s: Seq<Thought>, m: nat) -> Seq<Thought> {
    s.skip(if s.len() <= m { 0 } else { s.len() - m })
}

/// A cache made with capacity `m` and given the inserts `ts` holds, oldest
/// first, the newest `m` of the identifiers inserted, ordered by their
/// latest insert, each with the thought of that latest insert: it evicts
/// the identifier inserted longest ago and never holds more than `m`.
pub proof fn law_cache_keeps_latest(m: nat, ts: Seq<Thought>)
    ensures
        inserted_all(Seq::empty(), m, ts) == kept_suffix(latest_order(ts), m),
        inserted_all(Seq::empty(), m, ts).len() == if latest_order(ts).len() <= m { latest_order(ts).len() } else { m },
        distinct_ids(latest_order(ts)),
    decreases ts.len(),
{
    if ts.len() > 0 {
        let prev = ts.drop_last();
        law_cache_keeps_latest(m, prev);
        let l = latest_order(prev);
        let t = ts.last();
        let a: int = if l.len() <= m { 0 } else { l.len() - m };
        let e = l.skip(a);
        assert(inserted_all(Seq::empty(), m, prev) == e);
        let l2 = latest_order(ts);
        lemma_after_insert_keeps_ids_distinct(l, (l.len() + 1) as nat, t);
        assert(l2 == after_insert(l, (l.len() + 1) as nat, t));
        if m == 0 {
            assert(e =~= Seq::<Thought>::empty());
            assert(kept_suffix(l2, 0) =~= Seq::<Thought>::empty());
        } else if holds_id(e, t.id) {
            let p = position_of(e, t.id);
            assert(e[p] == l[a + p]);
            assert(holds_id(l, t.id));
            let q = position_of(l, t.id);
            assert(l[q].id == l[a + p].id);
            assert(q == a + p);
            assert(l2 =~= l.remove(q).push(t));
            assert(kept_suffix(l2, m) =~= e.remove(p).push(t));
        } else if holds_id(l, t.id) {
            let q = position_of(l, t.id);
            if q >= a {
                assert(e[q - a] == l[q]);
                assert(false);
            }
            assert(l2 =~= l.remove(q).push(t));
            assert(kept_suffix(l2, m) =~= e.drop_first().push(t));
        } else {
            assert(l2 =~= l.push(t));
            if e.len() >= m {
                assert(kept_suffix(l2, m) =~= e.drop_first().push(t));
            } else {
                assert(kept_suffix(l2, m) =~= e.push(t));
            }
        }
    }
}

} // verus!
