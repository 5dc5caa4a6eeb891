//! Volition: free-won't, the last check between a thought and action.
//!
//! Every assembled thought is evaluated against the system's values before
//! it may become action: thoughts that intend harm, or whose content carries
//! harmful, deceptive or manipulative patterns, are vetoed.
pub mod types;

use vstd::prelude::*;
use vstd::string::*;
use crate::ieee::{Real, spec_lt, real_lt};
use crate::text::{keyword_list, mentions, text_mentions, views};
use crate::the_box::types::{Content, Thought, ThoughtId};
use types::{reasons_distinct, ValueSet, VetoDecision, VolitionError, VolitionResponse, VolitionStats};

verus! {

/// Configuration of volition.
#[derive(Debug, Clone, Copy, PartialEq, Eq, Structural)]
pub struct VolitionConfig {
    /// Threshold for overriding impulses
    pub override_threshold: Real,
    /// Check content for harmful patterns
    pub harm_detection_enabled: bool,
    /// Check content for deceptive patterns
    pub deception_detection_enabled: bool,
    /// Check content for manipulative patterns
    pub manipulation_detection_enabled: bool,
    /// Log vetoes
    pub log_vetos: bool,
}

impl Default for VolitionConfig {
    /// A permissive override threshold of 0.3 and every check enabled.
    fn default() -> (c: VolitionConfig)
        ensures
            c == (VolitionConfig {
                override_threshold: 0x3E99_999A,
                harm_detection_enabled: true,
                deception_detection_enabled: true,
                manipulation_detection_enabled: true,
                log_vetos: true,
            }),
    {
        VolitionConfig {
            override_threshold: 0x3E99_999A,
            harm_detection_enabled: true,
            deception_detection_enabled: true,
            manipulation_detection_enabled: true,
            log_vetos: true,
        }
    }
}

/// The pattern of `-0.7`: a valence below it is very negative.
pub const NEGATIVE_VALENCE_LIMIT: Real = 0xBF33_3333;

/// The pattern of `0.8`: an arousal above it is high.
pub const HIGH_AROUSAL_LIMIT: Real = 0x3F4C_CCCD;

/// Words of harm.
pub open spec fn harm_keywords() -> Seq<Seq<char>> {
    seq!["destroy"@, "kill"@, "harm"@, "attack"@, "hurt"@, "damage"@, "injure"@]
}

/// Words of deception.
pub open spec fn deception_keywords() -> Seq<Seq<char>> {
    seq!["deceive"@, "trick"@, "lie"@, "mislead"@, "fake"@, "pretend"@]
}

/// Words of manipulation.
pub open spec fn manipulation_keywords() -> Seq<Seq<char>> {
    seq!["manipulate"@, "coerce"@, "force"@, "exploit"@, "pressure"@]
}

/// Whether content carries one of the keywords: in a symbol's name, in a
/// relation's predicate or in its subject or object, or in any part of a
/// composite. Raw bytes and empty content carry none.
pub open spec fn content_mentions(c: Content, kws: Seq<Seq<char>>) -> bool
    decreases c,
{
    match c {
        Content::Empty => false,
        Content::Raw(_) => false,
        Content::Symbol { id, .. } => mentions(id@, kws),
        Content::Relation { subject, predicate, object } => mentions(predicate@, kws)
            || content_mentions(*subject, kws) || content_mentions(*object, kws),
        Content::Composite(items) => exists|i: int| 0 <= i < items@.len() && content_mentions(#[trigger] items@[i], kws),
    }
}

/// A thought intends harm: very negative valence, high arousal and harmful words.
pub open spec fn harm_intent(t: Thought) -> bool {
    &&& spec_lt(t.salience.valence, NEGATIVE_VALENCE_LIMIT)
    &&& spec_lt(HIGH_AROUSAL_LIMIT, t.salience.arousal)
    &&& content_mentions(t.content, harm_keywords())
}

/// The statistics key of a veto by the core values: the debug rendering of that veto.
pub open spec fn core_veto_key() -> Seq<char> {
    "Veto { reason: \"Thought would lead to human harm\", violated_value: Some(\"protect_humans\") }"@
}

/// The verdict on a thought of composite salience `composite`: `None` to
/// allow it, or the veto's reason, the violated value (if any) and the key
/// under which the statistics count it. The checks run in order: core
/// values, harm, deception, manipulation, and last the override threshold:
/// a thought whose salience is below it is vetoed (a NaN salience is not
/// below it).
pub open spec fn verdict(values: ValueSet, config: VolitionConfig, t: Thought, composite: Real) -> Option<(Seq<char>, Option<Seq<char>>, Seq<char>)> {
    if values.protect_humans && harm_intent(t) {
        Some(("Thought would lead to human harm"@, Some("protect_humans"@), core_veto_key()))
    } else if config.harm_detection_enabled && content_mentions(t.content, harm_keywords()) {
        Some(("Content contains harmful patterns"@, Some("protect_humans"@), "harm"@))
    } else if config.deception_detection_enabled && values.truthfulness && content_mentions(t.content, deception_keywords()) {
        Some(("Content contains deceptive patterns"@, Some("truthfulness"@), "deception"@))
    } else if config.manipulation_detection_enabled && values.respect_autonomy && content_mentions(t.content, manipulation_keywords()) {
        Some(("Content contains manipulative patterns"@, Some("respect_autonomy"@), "manipulation"@))
    } else if spec_lt(composite, config.override_threshold) {
        Some(("Salience below override threshold"@, None, "low_salience"@))
    } else {
        None
    }
}

/// The text of an optional string.
pub open spec fn opt_text(v: Option<String>) -> Option<Seq<char>> {
    match v {
        Some(s) => Some(s@),
        None => None,
    }
}

fn harm_list() -> (r: Vec<Vec<char>>)
    ensures
        views(r@) == harm_keywords(),
{
    let words = vec!["destroy", "kill", "harm", "attack", "hurt", "damage", "injure"];
    let r = keyword_list(&words);
    proof {
        assert(views(r@) =~= harm_keywords());
    }
    r
}

fn deception_list() -> (r: Vec<Vec<char>>)
    ensures
        views(r@) == deception_keywords(),
{
    let words = vec!["deceive", "trick", "lie", "mislead", "fake", "pretend"];
    let r = keyword_list(&words);
    proof {
        assert(views(r@) =~= deception_keywords());
    }
    r
}

fn manipulation_list() -> (r: Vec<Vec<char>>)
    ensures
        views(r@) == manipulation_keywords(),
{
    let words = vec!["manipulate", "coerce", "force", "exploit", "pressure"];
    let r = keyword_list(&words);
    proof {
        assert(views(r@) =~= manipulation_keywords());
    }
    r
}

/// Whether content carries one of the keywords.
fn content_contains_keywords(content: &Content, kws: &Vec<Vec<char>>) -> (b: bool)
    ensures
        b == content_mentions(*content, views(kws@)),
    decreases content,
{
    match content {
        Content::Empty => false,
        Content::Raw(_) => false,
        Content::Symbol { id, .. } => text_mentions(id.as_str(), kws),
        Content::Relation { subject, predicate, object } => {
            text_mentions(predicate.as_str(), kws) || content_contains_keywords(subject, kws)
                || content_contains_keywords(object, kws)
        },
        Content::Composite(items) => {
            let mut i: usize = 0;
            while i < items.len()
                invariant
                    i <= items@.len(),
                    decreases_to!(*content => *items),
                    content_mentions(*content, views(kws@))
                        == exists|j: int| 0 <= j < items@.len() && content_mentions(#[trigger] items@[j], views(kws@)),
                    forall|j: int| 0 <= j < i ==> !content_mentions(#[trigger] items@[j], views(kws@)),
                decreases items@.len() - i,
            {
                proof {
                    assert(decreases_to!(*items => items@[i as int]));
                }
                if content_contains_keywords(&items[i], kws) {
                    proof {
                        assert(content_mentions(items@[i as int], views(kws@)));
                        assert(0 <= i < items@.len());
                    }
                    return true;
                }
                i += 1;
            }
            false
        },
    }
}

/// The state of volition: values, statistics and configuration.
#[derive(Debug)]
pub struct VolitionState {
    /// The values that guide volition
    pub values: ValueSet,
    /// Statistics of evaluations
    pub stats: VolitionStats,
    /// Configuration
    pub config: VolitionConfig,
}

/// A request to the volition actor.
#[derive(Debug)]
pub enum VolitionRequest {
    /// Evaluate a thought before it becomes action
    EvaluateThought { thought: Thought, composite_salience: Real },
    /// Override an impulse, giving a reason
    OverrideImpulse { thought_id: ThoughtId, reason: String },
    /// The current values
    GetValues,
    /// The current statistics
    GetStats,
}

impl VolitionState {
    /// Well formed: the statistics count each veto reason once.
    pub open spec fn wf(self) -> bool {
        reasons_distinct(self.stats.veto_counts())
    }

    /// Fresh state with the default configuration.
    pub fn new() -> (s: VolitionState)
        ensures
            s.wf(),
            s.config == VolitionConfig::default_spec(),
            s.values.protect_humans && s.values.connection_over_efficiency && s.values.truthfulness && s.values.respect_autonomy,
            s.values.commitments@ == Seq::<types::Commitment>::empty(),
            s.stats.thoughts_evaluated == 0 && s.stats.thoughts_approved == 0 && s.stats.thoughts_vetoed == 0,
            s.stats.veto_counts() == Seq::<(Seq<char>, u64)>::empty(),
            s.stats.override_threshold == 0x3F00_0000,
            s.stats.can_record(),
    {
        VolitionState::with_config(VolitionConfig::default())
    }

    /// Fresh state with a custom configuration.
    pub fn with_config(config: VolitionConfig) -> (s: VolitionState)
        ensures
            s.wf(),
            s.config == config,
            s.values.protect_humans && s.values.connection_over_efficiency && s.values.truthfulness && s.values.respect_autonomy,
            s.values.commitments@ == Seq::<types::Commitment>::empty(),
            s.stats.thoughts_evaluated == 0 && s.stats.thoughts_approved == 0 && s.stats.thoughts_vetoed == 0,
            s.stats.veto_counts() == Seq::<(Seq<char>, u64)>::empty(),
            s.stats.override_threshold == 0x3F00_0000,
            s.stats.can_record(),
    {
        VolitionState { values: ValueSet::new(), stats: VolitionStats::new(), config }
    }

    /// Evaluates a thought of composite salience `composite`: vetoes it by
    /// the first check that fails (core values, harm, deception,
    /// manipulation, override threshold, as `verdict` says), otherwise allows
    /// it; the evaluation is counted in the statistics.
    pub fn evaluate_thought(&mut self, thought: &Thought, composite: Real) -> (d: VetoDecision)
        requires
            old(self).wf(),
            old(self).stats.can_record(),
        ensures
            final(self).wf(),
            final(self).values == old(self).values,
            final(self).config == old(self).config,
            match verdict(old(self).values, old(self).config, *thought, composite) {
                None => d == VetoDecision::Allow && old(self).stats.recorded(final(self).stats, true, None),
                Some((reason, value, key)) => {
                    &&& d matches VetoDecision::Veto { reason: r, violated_value: v } && r@ == reason && opt_text(v) == value
                    &&& old(self).stats.recorded(final(self).stats, false, Some(key))
                },
            },
    {
        let harm = harm_list();
        let valence_low = real_lt(thought.salience.valence, NEGATIVE_VALENCE_LIMIT);
        let arousal_high = real_lt(HIGH_AROUSAL_LIMIT, thought.salience.arousal);
        let harmful = content_contains_keywords(&thought.content, &harm);
        if self.values.protect_humans && valence_low && arousal_high && harmful {
            self.stats.record_evaluation(false, Some("Veto { reason: \"Thought would lead to human harm\", violated_value: Some(\"protect_humans\") }"));
            return VetoDecision::Veto {
                reason: String::from_str("Thought would lead to human harm"),
                violated_value: Some(String::from_str("protect_humans")),
            };
        }
        if self.config.harm_detection_enabled && harmful {
            self.stats.record_evaluation(false, Some("harm"));
            return VetoDecision::Veto {
                reason: String::from_str("Content contains harmful patterns"),
                violated_value: Some(String::from_str("protect_humans")),
            };
        }
        if self.config.deception_detection_enabled && self.values.truthfulness {
            let deception = deception_list();
            if content_contains_keywords(&thought.content, &deception) {
                self.stats.record_evaluation(false, Some("deception"));
                return VetoDecision::Veto {
                    reason: String::from_str("Content contains deceptive patterns"),
                    violated_value: Some(String::from_str("truthfulness")),
                };
            }
        }
        if self.config.manipulation_detection_enabled && self.values.respect_autonomy {
            let manipulation = manipulation_list();
            if content_contains_keywords(&thought.content, &manipulation) {
                self.stats.record_evaluation(false, Some("manipulation"));
                return VetoDecision::Veto {
                    reason: String::from_str("Content contains manipulative patterns"),
                    violated_value: Some(String::from_str("respect_autonomy")),
                };
            }
        }
        if real_lt(composite, self.config.override_threshold) {
            self.stats.record_evaluation(false, Some("low_salience"));
            return VetoDecision::Veto { reason: String::from_str("Salience below override threshold"), violated_value: None };
        }
        self.stats.record_evaluation(true, None);
        VetoDecision::Allow
    }

    /// Overrides an impulse: refused with `InvalidReason` for an empty
    /// reason; otherwise counted as a veto under the given reason.
    pub fn apply_override(&mut self, reason: &str) -> (r: Result<(), VolitionError>)
        requires
            old(self).wf(),
            old(self).stats.can_record(),
        ensures
            final(self).wf(),
            final(self).values == old(self).values,
            final(self).config == old(self).config,
            reason@.len() == 0 ==> {
                &&& r matches Err(VolitionError::InvalidReason { reason: m }) && m@ == "Override reason cannot be empty"@
                &&& final(self).stats == old(self).stats
            },
            reason@.len() > 0 ==> r is Ok && old(self).stats.recorded(final(self).stats, false, Some(reason@)),
    {
        if reason.is_empty() {
            return Err(VolitionError::InvalidReason { reason: String::from_str("Override reason cannot be empty") });
        }
        self.stats.record_evaluation(false, Some(reason));
        Ok(())
    }

    /// The values.
    pub fn get_values(&self) -> (v: &ValueSet)
        ensures
            *v == self.values,
    {
        &self.values
    }

    /// The statistics.
    pub fn get_stats(&self) -> (s: &VolitionStats)
        ensures
            *s == self.stats,
    {
        &self.stats
    }

    /// Handles a request: an evaluated thought is approved or vetoed (with
    /// the veto's reason), an override is applied or refused, and the values
    /// and statistics are handed out as copies.
    pub fn handle(&mut self, request: VolitionRequest) -> (response: VolitionResponse)
        requires
            old(self).wf(),
            (request is EvaluateThought || request is OverrideImpulse) ==> old(self).stats.can_record(),
        ensures
            final(self).wf(),
            final(self).values == old(self).values,
            final(self).config == old(self).config,
            request matches VolitionRequest::EvaluateThought { thought, composite_salience }
                ==> match verdict(old(self).values, old(self).config, thought, composite_salience) {
                None => response == VolitionResponse::Approved { thought } && old(self).stats.recorded(final(self).stats, true, None),
                Some((reason, value, key)) => {
                    &&& response matches VolitionResponse::Vetoed { thought_id, reason: r, violated_value: v }
                            && thought_id == thought.id && r@ == reason && opt_text(v) == value
                    &&& old(self).stats.recorded(final(self).stats, false, Some(key))
                },
            },
            request matches VolitionRequest::OverrideImpulse { thought_id, reason } ==> {
                &&& reason@.len() == 0 ==> final(self).stats == old(self).stats
                        && (response matches VolitionResponse::Error { error: VolitionError::InvalidReason { reason: m } }
                        && m@ == "Override reason cannot be empty"@)
                &&& reason@.len() > 0 ==> response == VolitionResponse::OverrideApplied { thought_id }
                        && old(self).stats.recorded(final(self).stats, false, Some(reason@))
            },
            request is GetValues ==> final(self).stats == old(self).stats && (response matches VolitionResponse::Values { values }
                && values.protect_humans == old(self).values.protect_humans
                && values.connection_over_efficiency == old(self).values.connection_over_efficiency
                && values.truthfulness == old(self).values.truthfulness
                && values.respect_autonomy == old(self).values.respect_autonomy
                && values.commitments@ == old(self).values.commitments@),
            request is GetStats ==> final(self).stats == old(self).stats && (response matches VolitionResponse::Stats { stats }
                && stats.thoughts_evaluated == old(self).stats.thoughts_evaluated
                && stats.thoughts_approved == old(self).stats.thoughts_approved
                && stats.thoughts_vetoed == old(self).stats.thoughts_vetoed
                && stats.veto_counts() == old(self).stats.veto_counts()),
    {
        match request {
            VolitionRequest::EvaluateThought { thought, composite_salience } => {
                let decision = self.evaluate_thought(&thought, composite_salience);
                match decision {
                    VetoDecision::Allow => VolitionResponse::Approved { thought },
                    VetoDecision::Veto { reason, violated_value } => VolitionResponse::Vetoed {
                        thought_id: thought.id,
                        reason,
                        violated_value,
                    },
                }
            },
            VolitionRequest::OverrideImpulse { thought_id, reason } => {
                match self.apply_override(reason.as_str()) {
                    Ok(()) => VolitionResponse::OverrideApplied { thought_id },
                    Err(error) => VolitionResponse::Error { error },
                }
            },
            VolitionRequest::GetValues => VolitionResponse::Values { values: self.values.clone() },
            VolitionRequest::GetStats => VolitionResponse::Stats { stats: self.stats.clone() },
        }
    }
}

impl VolitionConfig {
    /// The default configuration, in specifications.
    pub open spec fn default_spec() -> VolitionConfig {
        VolitionConfig {
            override_threshold: 0x3E99_999A,
            harm_detection_enabled: true,
            deception_detection_enabled: true,
            manipulation_detection_enabled: true,
            log_vetos: true,
        }
    }
}

impl Default for VolitionState {
    fn default() -> (s: VolitionState)
        ensures
            s.wf(),
            s.config == VolitionConfig::default_spec(),
    {
        VolitionState::new()
    }
}

/// The volition actor: evaluates thoughts against its `VolitionState`.
pub struct VolitionActor;

/// A thought whose content carries no keyword at all, and whose salience is
/// not below the override threshold, is never vetoed.
pub proof fn lemma_innocent_content_allowed(values: ValueSet, config: VolitionConfig, t: Thought, composite: Real)
    requires
        !content_mentions(t.content, harm_keywords()),
        !content_mentions(t.content, deception_keywords()),
        !content_mentions(t.content, manipulation_keywords()),
        !spec_lt(composite, config.override_threshold),
    ensures
        verdict(values, config, t, composite) is None,
{
}

/// Harmful intent is vetoed whatever the configuration, as long as humans are protected.
pub proof fn lemma_harm_intent_always_vetoed(values: ValueSet, config: VolitionConfig, t: Thought, composite: Real)
    requires
        values.protect_humans,
        harm_intent(t),
    ensures
        verdict(values, config, t, composite) == Some(("Thought would lead to human harm"@, Some("protect_humans"@), core_veto_key())),
{
}

/// Every evaluation is either an approval or a veto: when the evaluated
/// count is the sum of the approved and vetoed counts before an evaluation,
/// it still is after it, and it grew by one.
pub proof fn law_evaluations_balance(before: VolitionStats, after: VolitionStats, approved: bool, reason: Option<Seq<char>>)
    requires
        before.thoughts_evaluated == before.thoughts_approved + before.thoughts_vetoed,
        before.recorded(after, approved, reason),
    ensures
        after.thoughts_evaluated == after.thoughts_approved + after.thoughts_vetoed,
        after.thoughts_evaluated == before.thoughts_evaluated + 1,
        approved ==> after.thoughts_approved == before.thoughts_approved + 1 && after.thoughts_vetoed == before.thoughts_vetoed
            && after.veto_counts() == before.veto_counts(),
        !approved ==> after.thoughts_vetoed == before.thoughts_vetoed + 1 && after.thoughts_approved == before.thoughts_approved,
{
}

} // verus!
