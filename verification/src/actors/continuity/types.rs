//! Continuity types: identifiers, the identity, experiences, milestones,
//! responses and errors. Times are wall-clock milliseconds since the Unix epoch.
use vstd::prelude::*;
use vstd::string::*;
use crate::ieee::{Real, spec_clamp, real_clamp};
use crate::the_box::types::{lemma_uuid_text_len, random_uuid_value, uuid_string, uuid_text, thought_view, Thought, ThoughtView};
use crate::time::utc_now_millis;

verus! {

/// Identifier of an experience (a random uuid).
#[derive(Debug, Clone, Copy, PartialEq, Eq, Structural, Hash)]
pub struct ExperienceId(pub u128);

/// Identifier of a milestone (a random uuid).
#[derive(Debug, Clone, Copy, PartialEq, Eq, Structural, Hash)]
pub struct MilestoneId(pub u128);

/// Identifier of a checkpoint (a random uuid).
#[derive(Debug, Clone, Copy, PartialEq, Eq, Structural, Hash)]
pub struct CheckpointId(pub u128);

impl ExperienceId {
    /// A fresh random identifier.
    pub fn new() -> (id: ExperienceId) {
        ExperienceId(random_uuid_value())
    }

    /// The identifier as hyphenated uuid text.
    pub fn to_string(&self) -> (s: String)
        ensures
            s@ == uuid_text(self.0),
    {
        uuid_string(self.0)
    }
}

impl MilestoneId {
    /// A fresh random identifier.
    pub fn new() -> (id: MilestoneId) {
        MilestoneId(random_uuid_value())
    }

    /// The identifier as hyphenated uuid text.
    pub fn to_string(&self) -> (s: String)
        ensures
            s@ == uuid_text(self.0),
    {
        uuid_string(self.0)
    }
}

impl CheckpointId {
    /// A fresh random identifier.
    pub fn new() -> (id: CheckpointId) {
        CheckpointId(random_uuid_value())
    }

    /// The identifier as hyphenated uuid text.
    pub fn to_string(&self) -> (s: String)
        ensures
            s@ == uuid_text(self.0),
    {
        uuid_string(self.0)
    }
}

impl Default for ExperienceId {
    /// A fresh random identifier (see `new`).
    fn default() -> ExperienceId {
        ExperienceId::new()
    }
}

impl Default for MilestoneId {
    /// A fresh random identifier (see `new`).
    fn default() -> MilestoneId {
        MilestoneId::new()
    }
}

impl Default for CheckpointId {
    /// A fresh random identifier (see `new`).
    fn default() -> CheckpointId {
        CheckpointId::new()
    }
}

/// The persistent identity of the system.
#[derive(Debug, PartialEq, Eq)]
pub struct Identity {
    /// Name
    pub name: String,
    /// When the identity was created
    pub created_at: i64,
    /// Experiences recorded
    pub experience_count: u64,
    /// Milestones reached
    pub milestone_count: u64,
    /// Time since creation (milliseconds), as of the last update
    pub uptime: i64,
}

/// An identity as a mathematical value.
pub struct IdentityView {
    pub name: Seq<char>,
    pub created_at: i64,
    pub experience_count: u64,
    pub milestone_count: u64,
    pub uptime: i64,
}

/// The value an identity holds.
pub open spec fn identity_view(i: Identity) -> IdentityView {
    IdentityView {
        name: i.name@,
        created_at: i.created_at,
        experience_count: i.experience_count,
        milestone_count: i.milestone_count,
        uptime: i.uptime,
    }
}

/// Milliseconds from `from` to `to`, kept within the range of `i64`.
pub open spec fn span_millis(from: i64, to: i64) -> i64 {
    let d = to - from;
    if d > i64::MAX { i64::MAX } else if d < i64::MIN { i64::MIN } else { d as i64 }
}

impl Clone for Identity {
    fn clone(&self) -> (c: Identity)
        ensures
            identity_view(c) == identity_view(*self),
    {
        Identity {
            name: self.name.clone(),
            created_at: self.created_at,
            experience_count: self.experience_count,
            milestone_count: self.milestone_count,
            uptime: self.uptime,
        }
    }
}

impl Identity {
    /// The identity named DANEEL, created at wall-clock time `now`, with nothing recorded.
    pub fn new_at(now: i64) -> (i: Identity)
        ensures
            i.name@ == "DANEEL"@,
            i.created_at == now,
            i.experience_count == 0 && i.milestone_count == 0 && i.uptime == 0,
    {
        Identity { name: String::from_str("DANEEL"), created_at: now, experience_count: 0, milestone_count: 0, uptime: 0 }
    }

    /// The identity named DANEEL, created now, with nothing recorded.
    pub fn new() -> (i: Identity)
        ensures
            i.name@ == "DANEEL"@,
            i.experience_count == 0 && i.milestone_count == 0 && i.uptime == 0,
    {
        Identity::new_at(utc_now_millis())
    }

    /// Updates the uptime to the time since creation, as of wall-clock time `now`.
    pub fn update_uptime_at(&mut self, now: i64)
        ensures
            *final(self) == (Identity { uptime: span_millis(old(self).created_at, now), ..*old(self) }),
    {
        let d: i128 = now as i128 - self.created_at as i128;
        self.uptime = if d > 0x7FFF_FFFF_FFFF_FFFF {
            0x7FFF_FFFF_FFFF_FFFF
        } else if d < -0x8000_0000_0000_0000 {
            -0x8000_0000_0000_0000
        } else {
            d as i64
        };
    }

    /// Updates the uptime to the time since creation.
    pub fn update_uptime(&mut self)
        ensures
            exists|now: i64| *final(self) == (Identity { uptime: #[trigger] span_millis(old(self).created_at, now), ..*old(self) }),
    {
        let now = utc_now_millis();
        self.update_uptime_at(now);
    }
}

impl Default for Identity {
    fn default() -> (i: Identity)
        ensures
            i.name@ == "DANEEL"@,
            i.experience_count == 0 && i.milestone_count == 0 && i.uptime == 0,
    {
        Identity::new()
    }
}

/// A significant experience: a thought worth remembering.
#[derive(Debug, PartialEq)]
pub struct Experience {
    /// Identifier
    pub id: ExperienceId,
    /// The thought experienced
    pub thought: Thought,
    /// Significance (0.0 - 1.0)
    pub significance: Real,
    /// When it was recorded
    pub recorded_at: i64,
    /// Tags
    pub tags: Vec<String>,
}

/// An experience as a mathematical value.
pub struct ExperienceView {
    pub id: ExperienceId,
    pub thought: ThoughtView,
    pub significance: Real,
    pub recorded_at: i64,
    pub tags: Seq<Seq<char>>,
}

/// The texts of a list of strings.
pub open spec fn texts(v: Seq<String>) -> Seq<Seq<char>> {
    v.map_values(|s: String| s@)
}

/// The value an experience holds.
pub open spec fn experience_view(e: Experience) -> ExperienceView {
    ExperienceView {
        id: e.id,
        thought: thought_view(e.thought),
        significance: e.significance,
        recorded_at: e.recorded_at,
        tags: texts(e.tags@),
    }
}

/// A copy of a list of strings.
pub fn copy_strings(v: &Vec<String>) -> (r: Vec<String>)
    ensures
        texts(r@) == texts(v@),
{
    let mut out: Vec<String> = Vec::new();
    let mut i: usize = 0;
    while i < v.len()
        invariant
            i <= v@.len(),
            out@.len() == i,
            texts(out@) == texts(v@.take(i as int)),
        decreases v@.len() - i,
    {
        let t = v[i].clone();
        let ghost prev = out@;
        out.push(t);
        proof {
            assert forall|k: int| 0 <= k < i + 1 implies #[trigger] texts(out@)[k] == texts(v@.take(i + 1))[k] by {
                if k < i {
                    assert(out@[k] == prev[k]);
                    assert(texts(prev)[k] == texts(v@.take(i as int))[k]);
                }
            }
            assert(texts(out@) =~= texts(v@.take(i + 1)));
        }
        i += 1;
    }
    proof {
        assert(v@.take(v@.len() as int) =~= v@);
    }
    out
}

impl Clone for Experience {
    fn clone(&self) -> (c: Experience)
        ensures
            experience_view(c) == experience_view(*self),
    {
        Experience {
            id: self.id,
            thought: self.thought.clone(),
            significance: self.significance,
            recorded_at: self.recorded_at,
            tags: copy_strings(&self.tags),
        }
    }
}

impl Experience {
    /// An experience recorded at wall-clock time `now`, its significance clamped into [0.0, 1.0].
    pub fn new_at(now: i64, thought: Thought, significance: Real, tags: Vec<String>) -> (e: Experience)
        ensures
            e.thought == thought,
            e.significance == spec_clamp(significance, 0, 0x3F80_0000),
            e.recorded_at == now,
            e.tags == tags,
    {
        Experience {
            id: ExperienceId::new(),
            thought,
            significance: real_clamp(significance, 0, 0x3F80_0000),
            recorded_at: now,
            tags,
        }
    }

    /// An experience recorded now, its significance clamped into [0.0, 1.0].
    pub fn new(thought: Thought, significance: Real, tags: Vec<String>) -> (e: Experience)
        ensures
            e.thought == thought,
            e.significance == spec_clamp(significance, 0, 0x3F80_0000),
            e.tags == tags,
    {
        Experience::new_at(utc_now_millis(), thought, significance, tags)
    }

    /// An experience of middling significance (0.5), without tags.
    pub fn from_thought(thought: Thought) -> (e: Experience)
        ensures
            e.thought == thought,
            e.significance == 0x3F00_0000,
            e.tags@ == Seq::<String>::empty(),
    {
        Experience::new(thought, 0x3F00_0000, Vec::new())
    }

    /// Adds a tag.
    pub fn add_tag(&mut self, tag: &str)
        ensures
            texts(final(self).tags@) == texts(old(self).tags@).push(tag@),
            final(self).id == old(self).id,
            final(self).thought == old(self).thought,
            final(self).significance == old(self).significance,
            final(self).recorded_at == old(self).recorded_at,
    {
        self.tags.push(String::from_str(tag));
        proof {
            assert(texts(self.tags@) =~= texts(old(self).tags@).push(tag@));
        }
    }
}

/// A milestone in the system's life.
#[derive(Debug, PartialEq, Eq)]
pub struct Milestone {
    /// Identifier
    pub id: MilestoneId,
    /// Name
    pub name: String,
    /// What happened
    pub description: String,
    /// When it happened
    pub occurred_at: i64,
    /// Experiences that led to it
    pub related_experiences: Vec<ExperienceId>,
}

/// A milestone as a mathematical value.
pub struct MilestoneView {
    pub id: MilestoneId,
    pub name: Seq<char>,
    pub description: Seq<char>,
    pub occurred_at: i64,
    pub related_experiences: Seq<ExperienceId>,
}

/// The value a milestone holds.
pub open spec fn milestone_view(m: Milestone) -> MilestoneView {
    MilestoneView {
        id: m.id,
        name: m.name@,
        description: m.description@,
        occurred_at: m.occurred_at,
        related_experiences: m.related_experiences@,
    }
}

impl Clone for Milestone {
    fn clone(&self) -> (c: Milestone)
        ensures
            milestone_view(c) == milestone_view(*self),
    {
        let related = self.related_experiences.clone();
        proof {
            assert(related@ =~= self.related_experiences@);
        }
        Milestone {
            id: self.id,
            name: self.name.clone(),
            description: self.description.clone(),
            occurred_at: self.occurred_at,
            related_experiences: related,
        }
    }
}

impl Milestone {
    /// A milestone reached now.
    pub fn new(name: &str, description: &str, related_experiences: Vec<ExperienceId>) -> (m: Milestone)
        ensures
            m.name@ == name@,
            m.description@ == description@,
            m.related_experiences == related_experiences,
    {
        Milestone {
            id: MilestoneId::new(),
            name: String::from_str(name),
            description: String::from_str(description),
            occurred_at: utc_now_millis(),
            related_experiences,
        }
    }

    /// A milestone reached now, without related experiences.
    pub fn simple(name: &str, description: &str) -> (m: Milestone)
        ensures
            m.name@ == name@,
            m.description@ == description@,
            m.related_experiences@ == Seq::<ExperienceId>::empty(),
    {
        Milestone::new(name, description, Vec::new())
    }

    /// Relates an experience to the milestone.
    pub fn add_experience(&mut self, experience_id: ExperienceId)
        ensures
            final(self).related_experiences@ == old(self).related_experiences@.push(experience_id),
            final(self).id == old(self).id,
            final(self).name == old(self).name,
            final(self).description == old(self).description,
            final(self).occurred_at == old(self).occurred_at,
    {
        self.related_experiences.push(experience_id);
    }
}

/// Responses of the continuity actor.
#[derive(Debug, Clone, PartialEq)]
pub enum ContinuityResponse {
    /// Who the system is
    Identity { identity: Identity },
    /// An experience was recorded
    ExperienceRecorded { experience_id: ExperienceId },
    /// The experience asked for
    ExperienceFound { experience: Experience },
    /// The experiences of a span of time
    Timeline { experiences: Vec<Experience> },
    /// A milestone was added
    MilestoneAdded { milestone_id: MilestoneId },
    /// All milestones
    Milestones { milestones: Vec<Milestone> },
    /// A checkpoint was saved
    CheckpointSaved { checkpoint_id: CheckpointId },
    /// The state was restored from a checkpoint
    Restored { from_checkpoint: CheckpointId },
    /// The request failed
    Error { error: ContinuityError },
}

/// Continuity errors.
#[derive(Debug, Clone, PartialEq, Eq)]
pub enum ContinuityError {
    /// No experience with this identifier
    ExperienceNotFound { experience_id: ExperienceId },
    /// No milestone with this identifier
    MilestoneNotFound { milestone_id: MilestoneId },
    /// No checkpoint with this identifier
    CheckpointNotFound { checkpoint_id: CheckpointId },
    /// Saving a checkpoint failed
    CheckpointFailed { reason: String },
    /// Restoring a checkpoint failed
    RestoreFailed { reason: String },
}

/// The message text of a continuity error.
pub open spec fn continuity_error_text(e: ContinuityError) -> Seq<char> {
    match e {
        ContinuityError::ExperienceNotFound { experience_id } => "Experience not found: "@ + uuid_text(experience_id.0),
        ContinuityError::MilestoneNotFound { milestone_id } => "Milestone not found: "@ + uuid_text(milestone_id.0),
        ContinuityError::CheckpointNotFound { checkpoint_id } => "Checkpoint not found: "@ + uuid_text(checkpoint_id.0),
        ContinuityError::CheckpointFailed { reason } => "Checkpoint failed: "@ + reason@,
        ContinuityError::RestoreFailed { reason } => "Restore failed: "@ + reason@,
    }
}

impl ContinuityError {
    /// The human-readable message of the error.
    pub fn to_string(&self) -> (s: String)
        ensures
            s@ == continuity_error_text(*self),
    {
        match self {
            ContinuityError::ExperienceNotFound { experience_id } => {
                let mut s = String::from_str("Experience not found: ");
                let id = experience_id.to_string();
                s.append(id.as_str());
                s
            },
            ContinuityError::MilestoneNotFound { milestone_id } => {
                let mut s = String::from_str("Milestone not found: ");
                let id = milestone_id.to_string();
                s.append(id.as_str());
                s
            },
            ContinuityError::CheckpointNotFound { checkpoint_id } => {
                let mut s = String::from_str("Checkpoint not found: ");
                let id = checkpoint_id.to_string();
                s.append(id.as_str());
                s
            },
            ContinuityError::CheckpointFailed { reason } => {
                let mut s = String::from_str("Checkpoint failed: ");
                s.append(reason.as_str());
                s
            },
            ContinuityError::RestoreFailed { reason } => {
                let mut s = String::from_str("Restore failed: ");
                s.append(reason.as_str());
                s
            },
        }
    }
}

} // verus!
