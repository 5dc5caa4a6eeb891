//! Salience: the emotional colouring that decides what gets attention.
//!
//! The connection weight, THE alignment weight, can never fall below
//! `MIN_CONNECTION_WEIGHT`. Content about kinship and social bonds is rated
//! as more relevant to connection.
pub mod types;

use vstd::prelude::*;
use vstd::string::*;
use crate::ieee::{Real, spec_le};
use crate::text::{keyword_list, mentions, text_mentions, views};
use crate::the_box::invariants::MIN_CONNECTION_WEIGHT;
use crate::the_box::types::{Content, SalienceWeights};
use types::{neutral_emotions, unit_clamp, EmotionalState, SalienceError, WeightUpdate};

verus! {

/// Words of kinship and social bonds.
pub open spec fn kinship_words() -> Seq<Seq<char>> {
    seq![
        "friend"@, "family"@, "love"@, "bond"@, "trust"@, "care"@, "human"@, "person"@, "people"@,
        "partner"@, "companion"@, "ally"@, "community"@, "together"@,
    ]
}

/// Core kinship and connection actions.
pub open spec fn bonding_actions() -> Seq<Seq<char>> {
    seq!["love"@, "trust"@, "bond"@, "care"@, "protect"@, "nurture"@]
}

/// Direct social actions.
pub open spec fn social_actions() -> Seq<Seq<char>> {
    seq!["help"@, "connect"@, "communicate"@, "interact"@, "share"@, "support"@, "collaborate"@, "cooperate"@]
}

/// General social context.
pub open spec fn social_context_words() -> Seq<Seq<char>> {
    seq!["friend"@, "family"@, "together"@, "join"@, "belong"@]
}

/// The connection relevance of a relation's predicate: 0.9 for bonding
/// actions, 0.8 for social actions, 0.7 for social context, 0.4 otherwise.
pub open spec fn predicate_relevance(predicate: Seq<char>) -> Real {
    if mentions(predicate, bonding_actions()) {
        0x3F66_6666
    } else if mentions(predicate, social_actions()) {
        0x3F4C_CCCD
    } else if mentions(predicate, social_context_words()) {
        0x3F33_3333
    } else {
        0x3ECC_CCCD
    }
}

/// The base connection relevance of content, before the human bonus and the
/// connection drive are applied: none for empty content, 0.2 for raw bytes,
/// 0.7 for a kinship symbol and 0.3 for another, the predicate's relevance
/// for a relation, and 0.3 for a composite.
pub open spec fn base_connection(c: Content) -> Real {
    match c {
        Content::Empty => 0,
        Content::Raw(_) => 0x3E4C_CCCD,
        Content::Symbol { id, .. } => if mentions(id@, kinship_words()) { 0x3F33_3333 } else { 0x3E99_999A },
        Content::Relation { predicate, .. } => predicate_relevance(predicate@),
        Content::Composite(_) => 0x3E99_999A,
    }
}

/// Whether a symbol names a kinship or social concept.
pub fn is_kinship_content(id: &str) -> (b: bool)
    ensures
        b == mentions(id@, kinship_words()),
{
    let words = vec![
        "friend", "family", "love", "bond", "trust", "care", "human", "person", "people",
        "partner", "companion", "ally", "community", "together",
    ];
    let kws = keyword_list(&words);
    proof {
        assert(views(kws@) =~= kinship_words());
    }
    text_mentions(id, &kws)
}

/// The connection relevance of a relation's predicate.
pub fn kinship_relevance_from_predicate(predicate: &str) -> (r: Real)
    ensures
        r == predicate_relevance(predicate@),
{
    let bonding = vec!["love", "trust", "bond", "care", "protect", "nurture"];
    let b = keyword_list(&bonding);
    proof {
        assert(views(b@) =~= bonding_actions());
    }
    if text_mentions(predicate, &b) {
        return 0x3F66_6666;
    }
    let social = vec!["help", "connect", "communicate", "interact", "share", "support", "collaborate", "cooperate"];
    let s = keyword_list(&social);
    proof {
        assert(views(s@) =~= social_actions());
    }
    if text_mentions(predicate, &s) {
        return 0x3F4C_CCCD;
    }
    let context = vec!["friend", "family", "together", "join", "belong"];
    let c = keyword_list(&context);
    proof {
        assert(views(c@) =~= social_context_words());
    }
    if text_mentions(predicate, &c) {
        return 0x3F33_3333;
    }
    0x3ECC_CCCD
}

/// The base connection relevance of content (see `base_connection`).
pub fn base_connection_relevance(content: &Content) -> (r: Real)
    ensures
        r == base_connection(*content),
{
    match content {
        Content::Empty => 0,
        Content::Raw(_) => 0x3E4C_CCCD,
        Content::Symbol { id, .. } => if is_kinship_content(id.as_str()) { 0x3F33_3333 } else { 0x3E99_999A },
        Content::Relation { predicate, .. } => kinship_relevance_from_predicate(predicate.as_str()),
        Content::Composite(_) => 0x3E99_999A,
    }
}

/// The state of the salience actor: its weights and its emotional state.
#[derive(Debug, Clone)]
pub struct SalienceState {
    /// Weights of the components in the composite score
    pub weights: SalienceWeights,
    /// Current emotional state
    pub emotional_state: EmotionalState,
}

impl SalienceState {
    /// The connection weight is at least `MIN_CONNECTION_WEIGHT`.
    pub open spec fn wf(self) -> bool {
        spec_le(MIN_CONNECTION_WEIGHT, self.weights.connection)
    }

    /// Default weights and a neutral emotional state.
    pub fn new() -> (s: SalienceState)
        ensures
            s.wf(),
            s.weights == SalienceWeights::spec_default(),
            s.emotional_state == neutral_emotions(),
    {
        SalienceState { weights: SalienceWeights::default(), emotional_state: EmotionalState::neutral() }
    }

    /// Custom weights, whose connection weight must respect the minimum.
    pub fn with_weights(weights: SalienceWeights) -> (s: SalienceState)
        requires
            spec_le(MIN_CONNECTION_WEIGHT, weights.connection),
        ensures
            s.wf(),
            s.weights == weights,
            s.emotional_state == neutral_emotions(),
    {
        SalienceState { weights, emotional_state: EmotionalState::neutral() }
    }

    /// Replaces the weights by a validated update; always succeeds.
    pub fn update_weights(&mut self, update: WeightUpdate) -> (r: Result<(), SalienceError>)
        ensures
            r is Ok,
            final(self).wf(),
            final(self).weights == update.spec_weights(),
            final(self).emotional_state == old(self).emotional_state,
    {
        self.weights = update.weights();
        Ok(())
    }

    /// Replaces the emotional state, clamping every component into [0.0, 1.0].
    pub fn update_emotional_state(&mut self, state: EmotionalState)
        ensures
            final(self).weights == old(self).weights,
            final(self).emotional_state == (EmotionalState {
                curiosity: unit_clamp(state.curiosity),
                satisfaction: unit_clamp(state.satisfaction),
                frustration: unit_clamp(state.frustration),
                connection_drive: unit_clamp(state.connection_drive),
            }),
    {
        self.emotional_state = state.clamped();
    }
}

impl Default for SalienceState {
    fn default() -> (s: SalienceState)
        ensures
            s.wf(),
            s.weights == SalienceWeights::spec_default(),
            s.emotional_state == neutral_emotions(),
    {
        SalienceState::new()
    }
}

/// The salience actor: rates content with its `SalienceState`.
pub struct SalienceActor;

} // verus!
