//! Continuity: persistent identity.
//!
//! Keeps who the system is across time: its identity, its significant
//! experiences and its milestones, with checkpoints from which the identity,
//! experiences and milestones can be restored.
pub mod types;

use vstd::prelude::*;
use vstd::string::*;
use crate::time::utc_now_millis;
use types::{
    experience_view, identity_view, milestone_view, CheckpointId, ContinuityError, ContinuityResponse,
    Experience, ExperienceId, ExperienceView, Identity, IdentityView, Milestone, MilestoneId, MilestoneView,
};

verus! {

/// The values of a list of experiences.
pub open spec fn experience_views(v: Seq<Experience>) -> Seq<ExperienceView> {
    v.map_values(|e: Experience| experience_view(e))
}

/// The values of a list of milestones.
pub open spec fn milestone_views(v: Seq<Milestone>) -> Seq<MilestoneView> {
    v.map_values(|m: Milestone| milestone_view(m))
}

/// Whether an experience with this identifier is held.
pub open spec fn holds_experience(s: Seq<ExperienceView>, id: ExperienceId) -> bool {
    exists|i: int| 0 <= i < s.len() && (#[trigger] s[i]).id == id
}

/// The position of experience `id` (meaningful when held).
pub open spec fn experience_position(s: Seq<ExperienceView>, id: ExperienceId) -> int {
    choose|i: int| 0 <= i < s.len() && (#[trigger] s[i]).id == id
}

/// No experience identifier occurs twice.
pub open spec fn distinct_experiences(s: Seq<ExperienceView>) -> bool {
    forall|i: int, j: int| 0 <= i < s.len() && 0 <= j < s.len() && i != j ==> (#[trigger] s[i]).id != (#[trigger] s[j]).id
}

/// The experiences after recording `e`: an experience with the same
/// identifier is replaced in place, otherwise `e` is added at the end.
pub open spec fn insert_experience(s: Seq<ExperienceView>, e: ExperienceView) -> Seq<ExperienceView> {
    if holds_experience(s, e.id) {
        s.update(experience_position(s, e.id), e)
    } else {
        s.push(e)
    }
}

/// The experiences recorded between `start` and `end` (both included), in order.
pub open spec fn in_span(s: Seq<ExperienceView>, start: i64, end: i64) -> Seq<ExperienceView> {
    s.filter(|e: ExperienceView| start <= e.recorded_at && e.recorded_at <= end)
}

/// A snapshot of the continuity state.
pub struct CheckpointView {
    pub id: CheckpointId,
    pub created_at: i64,
    pub experience_count: u64,
    pub milestone_count: u64,
    pub identity: IdentityView,
    pub experiences: Seq<ExperienceView>,
    pub milestones: Seq<MilestoneView>,
}

/// A snapshot of the continuity state.
#[derive(Debug, PartialEq)]
pub struct Checkpoint {
    /// Identifier
    pub id: CheckpointId,
    /// When it was taken
    pub created_at: i64,
    /// Experiences recorded at the time
    pub experience_count: u64,
    /// Milestones reached at the time
    pub milestone_count: u64,
    identity: Identity,
    experiences: Vec<Experience>,
    milestones: Vec<Milestone>,
}

impl Checkpoint {
    /// The value of the snapshot.
    pub closed spec fn view_of(self) -> CheckpointView {
        CheckpointView {
            id: self.id,
            created_at: self.created_at,
            experience_count: self.experience_count,
            milestone_count: self.milestone_count,
            identity: identity_view(self.identity),
            experiences: experience_views(self.experiences@),
            milestones: milestone_views(self.milestones@),
        }
    }
}

impl Checkpoint {
    /// A snapshot of the state taken at wall-clock time `now` under identifier `id`.
    pub fn from_state_at(state: &ContinuityState, now: i64, id: CheckpointId) -> (c: Checkpoint)
        ensures
            c.view_of() == (CheckpointView {
                id,
                created_at: now,
                experience_count: state.identity().experience_count,
                milestone_count: state.identity().milestone_count,
                identity: state.identity(),
                experiences: state.experiences(),
                milestones: state.milestones(),
            }),
    {
        Checkpoint {
            id,
            created_at: now,
            experience_count: state.identity.experience_count,
            milestone_count: state.identity.milestone_count,
            identity: state.identity.clone(),
            experiences: copy_experiences(&state.experiences),
            milestones: copy_milestones(&state.milestones),
        }
    }

    /// A snapshot of the state taken now under a fresh identifier.
    pub fn from_state(state: &ContinuityState) -> (c: Checkpoint)
        ensures
            exists|now: i64| c.view_of() == (CheckpointView {
                id: c.view_of().id,
                created_at: now,
                experience_count: state.identity().experience_count,
                milestone_count: state.identity().milestone_count,
                identity: state.identity(),
                experiences: state.experiences(),
                milestones: state.milestones(),
            }),
    {
        let now = utc_now_millis();
        let c = Checkpoint::from_state_at(state, now, CheckpointId::new());
        assert(c.view_of() == (CheckpointView {
            id: c.view_of().id,
            created_at: now,
            experience_count: state.identity().experience_count,
            milestone_count: state.identity().milestone_count,
            identity: state.identity(),
            experiences: state.experiences(),
            milestones: state.milestones(),
        }));
        c
    }

    /// The identity saved in the snapshot.
    pub fn identity(&self) -> (i: &Identity)
        ensures
            identity_view(*i) == self.view_of().identity,
    {
        &self.identity
    }

    /// The experiences saved in the snapshot.
    pub fn experiences(&self) -> (r: &Vec<Experience>)
        ensures
            experience_views(r@) == self.view_of().experiences,
    {
        &self.experiences
    }

    /// The milestones saved in the snapshot.
    pub fn milestones(&self) -> (r: &Vec<Milestone>)
        ensures
            milestone_views(r@) == self.view_of().milestones,
    {
        &self.milestones
    }
}

impl Clone for Checkpoint {
    fn clone(&self) -> (c: Checkpoint)
        ensures
            c.view_of() == self.view_of(),
    {
        Checkpoint {
            id: self.id,
            created_at: self.created_at,
            experience_count: self.experience_count,
            milestone_count: self.milestone_count,
            identity: self.identity.clone(),
            experiences: copy_experiences(&self.experiences),
            milestones: copy_milestones(&self.milestones),
        }
    }
}

/// The values of a list of checkpoints.
pub open spec fn checkpoint_views(v: Seq<Checkpoint>) -> Seq<CheckpointView> {
    v.map_values(|c: Checkpoint| c.view_of())
}

/// Whether a checkpoint with this identifier is held.
pub open spec fn holds_checkpoint(s: Seq<CheckpointView>, id: CheckpointId) -> bool {
    exists|i: int| 0 <= i < s.len() && (#[trigger] s[i]).id == id
}

/// The position of checkpoint `id` (meaningful when held).
pub open spec fn checkpoint_position(s: Seq<CheckpointView>, id: CheckpointId) -> int {
    choose|i: int| 0 <= i < s.len() && (#[trigger] s[i]).id == id
}

/// No checkpoint identifier occurs twice.
pub open spec fn distinct_checkpoints(s: Seq<CheckpointView>) -> bool {
    forall|i: int, j: int| 0 <= i < s.len() && 0 <= j < s.len() && i != j ==> (#[trigger] s[i]).id != (#[trigger] s[j]).id
}

/// The checkpoints after saving `c`: a checkpoint with the same identifier is
/// replaced in place, otherwise `c` is added at the end.
pub open spec fn insert_checkpoint(s: Seq<CheckpointView>, c: CheckpointView) -> Seq<CheckpointView> {
    if holds_checkpoint(s, c.id) {
        s.update(checkpoint_position(s, c.id), c)
    } else {
        s.push(c)
    }
}

fn copy_experiences(v: &Vec<Experience>) -> (r: Vec<Experience>)
    ensures
        experience_views(r@) == experience_views(v@),
{
    let mut out: Vec<Experience> = Vec::new();
    let mut i: usize = 0;
    while i < v.len()
        invariant
            i <= v@.len(),
            out@.len() == i,
            experience_views(out@) == experience_views(v@.take(i as int)),
        decreases v@.len() - i,
    {
        let e = v[i].clone();
        let ghost prev = out@;
        out.push(e);
        proof {
            assert forall|k: int| 0 <= k < i + 1 implies #[trigger] experience_views(out@)[k] == experience_views(v@.take(i + 1))[k] by {
                if k < i {
                    assert(out@[k] == prev[k]);
                    assert(experience_views(prev)[k] == experience_views(v@.take(i as int))[k]);
                }
            }
            assert(experience_views(out@) =~= experience_views(v@.take(i + 1)));
        }
        i += 1;
    }
    proof {
        assert(v@.take(v@.len() as int) =~= v@);
    }
    out
}

fn copy_milestones(v: &Vec<Milestone>) -> (r: Vec<Milestone>)
    ensures
        milestone_views(r@) == milestone_views(v@),
{
    let mut out: Vec<Milestone> = Vec::new();
    let mut i: usize = 0;
    while i < v.len()
        invariant
            i <= v@.len(),
            out@.len() == i,
            milestone_views(out@) == milestone_views(v@.take(i as int)),
        decreases v@.len() - i,
    {
        let e = v[i].clone();
        let ghost prev = out@;
        out.push(e);
        proof {
            assert forall|k: int| 0 <= k < i + 1 implies #[trigger] milestone_views(out@)[k] == milestone_views(v@.take(i + 1))[k] by {
                if k < i {
                    assert(out@[k] == prev[k]);
                    assert(milestone_views(prev)[k] == milestone_views(v@.take(i as int))[k]);
                }
            }
            assert(milestone_views(out@) =~= milestone_views(v@.take(i + 1)));
        }
        i += 1;
    }
    proof {
        assert(v@.take(v@.len() as int) =~= v@);
    }
    out
}

/// A request to the continuity actor.
#[derive(Debug)]
pub enum ContinuityRequest {
    /// Who am I?
    WhoAmI,
    /// Record an experience
    RecordExperience { experience: Experience },
    /// One experience
    GetExperience { experience_id: ExperienceId },
    /// The experiences between two times (both included)
    GetTimeline { start: i64, end: i64 },
    /// Add a milestone
    AddMilestone { milestone: Milestone },
    /// All milestones
    GetMilestones,
    /// Save a checkpoint
    Checkpoint,
    /// Restore a checkpoint
    Restore { checkpoint_id: CheckpointId },
}

/// What handling `request` at wall-clock time `now` does: the state stays
/// well formed; each request changes only what it names, and a read or a
/// refused restore changes nothing.
pub open spec fn handled(before: ContinuityState, after: ContinuityState, now: i64, request: ContinuityRequest, response: ContinuityResponse) -> bool {
    &&& after.wf()
    &&& match request {
        ContinuityRequest::WhoAmI => {
            &&& response matches ContinuityResponse::Identity { identity } && identity_view(identity) == after.identity()
            &&& after.identity() == (IdentityView {
                    uptime: types::span_millis(before.identity().created_at, now),
                    ..before.identity()
                })
            &&& after.experiences() == before.experiences()
            &&& after.milestones() == before.milestones()
            &&& after.checkpoints() == before.checkpoints()
        },
        ContinuityRequest::RecordExperience { experience } => {
            &&& response == ContinuityResponse::ExperienceRecorded { experience_id: experience.id }
            &&& after.experiences() == insert_experience(before.experiences(), experience_view(experience))
            &&& after.identity() == (IdentityView {
                    experience_count: (before.identity().experience_count + 1) as u64,
                    ..before.identity()
                })
            &&& after.milestones() == before.milestones()
            &&& after.checkpoints() == before.checkpoints()
        },
        ContinuityRequest::GetExperience { experience_id } => {
            &&& after == before
            &&& holds_experience(before.experiences(), experience_id) ==> (response matches ContinuityResponse::ExperienceFound { experience }
                    && experience_view(experience) == before.experiences()[experience_position(before.experiences(), experience_id)])
            &&& !holds_experience(before.experiences(), experience_id) ==> response == (ContinuityResponse::Error {
                    error: ContinuityError::ExperienceNotFound { experience_id },
                })
        },
        ContinuityRequest::GetTimeline { start, end } => {
            &&& after == before
            &&& response matches ContinuityResponse::Timeline { experiences }
                    && experience_views(experiences@) == in_span(before.experiences(), start, end)
        },
        ContinuityRequest::AddMilestone { milestone } => {
            &&& response == ContinuityResponse::MilestoneAdded { milestone_id: milestone.id }
            &&& after.milestones() == before.milestones().push(milestone_view(milestone))
            &&& after.identity() == (IdentityView {
                    milestone_count: (before.identity().milestone_count + 1) as u64,
                    ..before.identity()
                })
            &&& after.experiences() == before.experiences()
            &&& after.checkpoints() == before.checkpoints()
        },
        ContinuityRequest::GetMilestones => {
            &&& after == before
            &&& response matches ContinuityResponse::Milestones { milestones }
                    && milestone_views(milestones@) == before.milestones()
        },
        ContinuityRequest::Checkpoint => {
            &&& response matches ContinuityResponse::CheckpointSaved { checkpoint_id }
                && after.checkpoints() == insert_checkpoint(before.checkpoints(), CheckpointView {
                    id: checkpoint_id,
                    created_at: now,
                    experience_count: before.identity().experience_count,
                    milestone_count: before.identity().milestone_count,
                    identity: before.identity(),
                    experiences: before.experiences(),
                    milestones: before.milestones(),
                })
            &&& after.identity() == before.identity()
            &&& after.experiences() == before.experiences()
            &&& after.milestones() == before.milestones()
        },
        ContinuityRequest::Restore { checkpoint_id } => {
            &&& after.checkpoints() == before.checkpoints()
            &&& !holds_checkpoint(before.checkpoints(), checkpoint_id) ==> {
                    &&& response == (ContinuityResponse::Error { error: ContinuityError::CheckpointNotFound { checkpoint_id } })
                    &&& after.identity() == before.identity()
                    &&& after.experiences() == before.experiences()
                    &&& after.milestones() == before.milestones()
                }
            &&& holds_checkpoint(before.checkpoints(), checkpoint_id) ==> {
                    let c = before.checkpoints()[checkpoint_position(before.checkpoints(), checkpoint_id)];
                    &&& response == ContinuityResponse::Restored { from_checkpoint: checkpoint_id }
                    &&& after.identity() == c.identity
                    &&& after.experiences() == c.experiences
                    &&& after.milestones() == c.milestones
                }
        },
    }
}

/// The state of continuity: identity, experiences, milestones and checkpoints.
#[derive(Debug)]
pub struct ContinuityState {
    identity: Identity,
    experiences: Vec<Experience>,
    milestones: Vec<Milestone>,
    checkpoints: Vec<Checkpoint>,
}

impl ContinuityState {
    /// The identity.
    pub closed spec fn identity(self) -> IdentityView {
        identity_view(self.identity)
    }

    /// The experiences, in the order they were first recorded.
    pub closed spec fn experiences(self) -> Seq<ExperienceView> {
        experience_views(self.experiences@)
    }

    /// The milestones, in the order they were added.
    pub closed spec fn milestones(self) -> Seq<MilestoneView> {
        milestone_views(self.milestones@)
    }

    /// The checkpoints, in the order they were first saved.
    pub closed spec fn checkpoints(self) -> Seq<CheckpointView> {
        checkpoint_views(self.checkpoints@)
    }

    /// Well formed: no experience and no checkpoint is held twice, and no
    /// snapshot holds an experience twice.
    pub open spec fn wf(self) -> bool {
        &&& distinct_experiences(self.experiences())
        &&& distinct_checkpoints(self.checkpoints())
        &&& forall|k: int| 0 <= k < self.checkpoints().len() ==> distinct_experiences(#[trigger] self.checkpoints()[k].experiences)
    }

    /// A fresh state: a new identity, nothing recorded.
    pub fn new() -> (s: ContinuityState)
        ensures
            s.wf(),
            s.identity().name == "DANEEL"@,
            s.identity().experience_count == 0 && s.identity().milestone_count == 0,
            s.identity().uptime == 0,
            s.experiences() == Seq::<ExperienceView>::empty(),
            s.milestones() == Seq::<MilestoneView>::empty(),
            s.checkpoints() == Seq::<CheckpointView>::empty(),
            s.names_agree(),
    {
        ContinuityState::with_identity(Identity::new())
    }

    /// A state with a given identity, nothing recorded.
    pub fn with_identity(identity: Identity) -> (s: ContinuityState)
        ensures
            s.wf(),
            s.identity() == identity_view(identity),
            s.experiences() == Seq::<ExperienceView>::empty(),
            s.milestones() == Seq::<MilestoneView>::empty(),
            s.checkpoints() == Seq::<CheckpointView>::empty(),
    {
        let s = ContinuityState { identity, experiences: Vec::new(), milestones: Vec::new(), checkpoints: Vec::new() };
        proof {
            assert(s.experiences() =~= Seq::<ExperienceView>::empty());
            assert(s.milestones() =~= Seq::<MilestoneView>::empty());
            assert(s.checkpoints() =~= Seq::<CheckpointView>::empty());
        }
        s
    }

    /// The identity, its uptime brought up to wall-clock time `now`.
    pub fn get_identity_at(&mut self, now: i64) -> (i: Identity)
        requires
            old(self).wf(),
        ensures
            final(self).wf(),
            final(self).identity() == (IdentityView { uptime: types::span_millis(old(self).identity().created_at, now), ..old(self).identity() }),
            identity_view(i) == final(self).identity(),
            final(self).experiences() == old(self).experiences(),
            final(self).milestones() == old(self).milestones(),
            final(self).checkpoints() == old(self).checkpoints(),
    {
        self.identity.update_uptime_at(now);
        self.identity.clone()
    }

    /// The experiences and milestones the identity has counted.
    pub fn identity_counts(&self) -> (c: (u64, u64))
        ensures
            c == (self.identity().experience_count, self.identity().milestone_count),
    {
        (self.identity.experience_count, self.identity.milestone_count)
    }

    /// The identity, as it stands.
    pub fn current_identity(&self) -> (i: &Identity)
        ensures
            identity_view(*i) == self.identity(),
    {
        &self.identity
    }

    /// The experiences, in the order they were first recorded.
    pub fn recorded_experiences(&self) -> (r: &Vec<Experience>)
        ensures
            experience_views(r@) == self.experiences(),
    {
        &self.experiences
    }

    /// The saved checkpoints, in the order they were first saved.
    pub fn saved_checkpoints(&self) -> (r: &Vec<Checkpoint>)
        ensures
            checkpoint_views(r@) == self.checkpoints(),
    {
        &self.checkpoints
    }

    fn find_experience(&self, id: ExperienceId) -> (r: Option<usize>)
        requires
            self.wf(),
        ensures
            r matches Some(i) ==> i < self.experiences@.len() && self.experiences@[i as int].id == id
                && holds_experience(self.experiences(), id) && experience_position(self.experiences(), id) == i,
            r is None ==> !holds_experience(self.experiences(), id),
    {
        let mut i: usize = 0;
        while i < self.experiences.len()
            invariant
                i <= self.experiences@.len(),
                self.wf(),
                forall|k: int| 0 <= k < i ==> (#[trigger] self.experiences()[k]).id != id,
            decreases self.experiences@.len() - i,
        {
            proof {
                assert(self.experiences()[i as int] == experience_view(self.experiences@[i as int]));
            }
            if self.experiences[i].id == id {
                proof {
                    let s = self.experiences();
                    assert(s[i as int].id == id);
                    let p = experience_position(s, id);
                    if p != i {
                        assert(s[p].id != s[i as int].id);
                    }
                }
                return Some(i);
            }
            i += 1;
        }
        None
    }

    /// Records an experience (replacing one with the same identifier) and
    /// counts it in the identity; returns its identifier.
    pub fn record_experience(&mut self, experience: Experience) -> (id: ExperienceId)
        requires
            old(self).wf(),
            old(self).identity().experience_count < u64::MAX,
        ensures
            final(self).wf(),
            id == experience.id,
            final(self).experiences() == insert_experience(old(self).experiences(), experience_view(experience)),
            final(self).identity() == (IdentityView {
                experience_count: (old(self).identity().experience_count + 1) as u64,
                ..old(self).identity()
            }),
            final(self).milestones() == old(self).milestones(),
            final(self).checkpoints() == old(self).checkpoints(),
    {
        let id = experience.id;
        let ghost before = self.experiences();
        let ghost ev = experience_view(experience);
        match self.find_experience(id) {
            Some(i) => {
                self.experiences.set(i, experience);
                proof {
                    assert(self.experiences() =~= before.update(i as int, ev));
                    assert forall|a: int, b: int| 0 <= a < self.experiences().len() && 0 <= b < self.experiences().len() && a != b
                        implies (#[trigger] self.experiences()[a]).id != (#[trigger] self.experiences()[b]).id by {
                        if a != i {
                            assert(self.experiences()[a] == before[a]);
                        }
                        if b != i {
                            assert(self.experiences()[b] == before[b]);
                        }
                    }
                }
            },
            None => {
                self.experiences.push(experience);
                proof {
                    assert(self.experiences() =~= before.push(ev));
                    assert forall|a: int, b: int| 0 <= a < self.experiences().len() && 0 <= b < self.experiences().len() && a != b
                        implies (#[trigger] self.experiences()[a]).id != (#[trigger] self.experiences()[b]).id by {
                        if a < before.len() {
                            assert(self.experiences()[a] == before[a]);
                        }
                        if b < before.len() {
                            assert(self.experiences()[b] == before[b]);
                        }
                    }
                }
            },
        }
        self.identity.experience_count = self.identity.experience_count + 1;
        id
    }

    /// A copy of an experience, or `ExperienceNotFound`.
    pub fn get_experience(&self, experience_id: ExperienceId) -> (r: Result<Experience, ContinuityError>)
        requires
            self.wf(),
        ensures
            holds_experience(self.experiences(), experience_id) ==> (r matches Ok(e)
                && experience_view(e) == self.experiences()[experience_position(self.experiences(), experience_id)]),
            !holds_experience(self.experiences(), experience_id)
                ==> r == Err::<Experience, ContinuityError>(ContinuityError::ExperienceNotFound { experience_id }),
    {
        match self.find_experience(experience_id) {
            Some(i) => Ok(self.experiences[i].clone()),
            None => Err(ContinuityError::ExperienceNotFound { experience_id }),
        }
    }

    /// Copies of the experiences recorded between `start` and `end` (both included), in order.
    pub fn get_timeline(&self, start: i64, end: i64) -> (r: Vec<Experience>)
        ensures
            experience_views(r@) == in_span(self.experiences(), start, end),
    {
        let mut out: Vec<Experience> = Vec::new();
        let mut i: usize = 0;
        while i < self.experiences.len()
            invariant
                i <= self.experiences@.len(),
                experience_views(out@) == in_span(experience_views(self.experiences@.take(i as int)), start, end),
            decreases self.experiences@.len() - i,
        {
            let ghost prefix = experience_views(self.experiences@.take(i as int));
            let ghost next = experience_views(self.experiences@.take(i + 1));
            proof {
                assert(next.drop_last() =~= prefix);
                assert(next.last() == experience_view(self.experiences@[i as int]));
                reveal(Seq::filter);
            }
            let t = self.experiences[i].recorded_at;
            if start <= t && t <= end {
                let e = self.experiences[i].clone();
                out.push(e);
                proof {
                    assert(experience_views(out@) =~= experience_views(out@.drop_last()).push(experience_view(e)));
                }
            }
            i += 1;
        }
        proof {
            assert(self.experiences@.take(self.experiences@.len() as int) =~= self.experiences@);
        }
        out
    }

    /// Adds a milestone and counts it in the identity; returns its identifier.
    pub fn add_milestone(&mut self, milestone: Milestone) -> (id: MilestoneId)
        requires
            old(self).wf(),
            old(self).identity().milestone_count < u64::MAX,
        ensures
            final(self).wf(),
            id == milestone.id,
            final(self).milestones() == old(self).milestones().push(milestone_view(milestone)),
            final(self).identity() == (IdentityView {
                milestone_count: (old(self).identity().milestone_count + 1) as u64,
                ..old(self).identity()
            }),
            final(self).experiences() == old(self).experiences(),
            final(self).checkpoints() == old(self).checkpoints(),
    {
        let id = milestone.id;
        let ghost before = self.milestones();
        let ghost mv = milestone_view(milestone);
        self.milestones.push(milestone);
        proof {
            assert(self.milestones() =~= before.push(mv));
        }
        self.identity.milestone_count = self.identity.milestone_count + 1;
        id
    }

    /// Copies of all milestones, in order.
    pub fn get_milestones(&self) -> (r: Vec<Milestone>)
        ensures
            milestone_views(r@) == self.milestones(),
    {
        copy_milestones(&self.milestones)
    }

    fn find_checkpoint(&self, id: CheckpointId) -> (r: Option<usize>)
        requires
            self.wf(),
        ensures
            r matches Some(i) ==> i < self.checkpoints@.len() && self.checkpoints@[i as int].id == id
                && holds_checkpoint(self.checkpoints(), id) && checkpoint_position(self.checkpoints(), id) == i,
            r is None ==> !holds_checkpoint(self.checkpoints(), id),
    {
        let mut i: usize = 0;
        while i < self.checkpoints.len()
            invariant
                i <= self.checkpoints@.len(),
                self.wf(),
                forall|k: int| 0 <= k < i ==> (#[trigger] self.checkpoints()[k]).id != id,
            decreases self.checkpoints@.len() - i,
        {
            proof {
                assert(self.checkpoints()[i as int] == self.checkpoints@[i as int].view_of());
            }
            if self.checkpoints[i].id == id {
                proof {
                    let s = self.checkpoints();
                    assert(s[i as int].id == id);
                    let p = checkpoint_position(s, id);
                    if p != i {
                        assert(s[p].id != s[i as int].id);
                    }
                }
                return Some(i);
            }
            i += 1;
        }
        None
    }

    /// Saves a checkpoint taken at wall-clock time `now`: a snapshot of the
    /// identity, experiences and milestones under a fresh identifier.
    pub fn create_checkpoint_at(&mut self, now: i64) -> (id: CheckpointId)
        requires
            old(self).wf(),
        ensures
            final(self).wf(),
            final(self).checkpoints() == insert_checkpoint(old(self).checkpoints(), CheckpointView {
                id,
                created_at: now,
                experience_count: old(self).identity().experience_count,
                milestone_count: old(self).identity().milestone_count,
                identity: old(self).identity(),
                experiences: old(self).experiences(),
                milestones: old(self).milestones(),
            }),
            final(self).identity() == old(self).identity(),
            final(self).experiences() == old(self).experiences(),
            final(self).milestones() == old(self).milestones(),
    {
        let id = CheckpointId::new();
        let checkpoint = Checkpoint::from_state_at(self, now, id);
        let ghost before = self.checkpoints();
        let ghost cv = checkpoint.view_of();
        match self.find_checkpoint(id) {
            Some(i) => {
                self.checkpoints.set(i, checkpoint);
                proof {
                    assert(self.checkpoints() =~= before.update(i as int, cv));
                    assert forall|a: int, b: int| 0 <= a < self.checkpoints().len() && 0 <= b < self.checkpoints().len() && a != b
                        implies (#[trigger] self.checkpoints()[a]).id != (#[trigger] self.checkpoints()[b]).id by {
                        if a != i {
                            assert(self.checkpoints()[a] == before[a]);
                        }
                        if b != i {
                            assert(self.checkpoints()[b] == before[b]);
                        }
                    }
                }
            },
            None => {
                self.checkpoints.push(checkpoint);
                proof {
                    assert(self.checkpoints() =~= before.push(cv));
                    assert forall|a: int, b: int| 0 <= a < self.checkpoints().len() && 0 <= b < self.checkpoints().len() && a != b
                        implies (#[trigger] self.checkpoints()[a]).id != (#[trigger] self.checkpoints()[b]).id by {
                        if a < before.len() {
                            assert(self.checkpoints()[a] == before[a]);
                        }
                        if b < before.len() {
                            assert(self.checkpoints()[b] == before[b]);
                        }
                    }
                }
            },
        }
        id
    }

    /// Saves a checkpoint taken now.
    pub fn create_checkpoint(&mut self) -> (id: CheckpointId)
        requires
            old(self).wf(),
        ensures
            final(self).wf(),
            exists|now: i64| final(self).checkpoints() == insert_checkpoint(old(self).checkpoints(), CheckpointView {
                id,
                created_at: now,
                experience_count: old(self).identity().experience_count,
                milestone_count: old(self).identity().milestone_count,
                identity: old(self).identity(),
                experiences: old(self).experiences(),
                milestones: old(self).milestones(),
            }),
            final(self).identity() == old(self).identity(),
            final(self).experiences() == old(self).experiences(),
            final(self).milestones() == old(self).milestones(),
    {
        let now = utc_now_millis();
        self.create_checkpoint_at(now)
    }

    /// Restores the identity, experiences and milestones saved in a
    /// checkpoint, or answers `CheckpointNotFound`; the checkpoints are kept.
    pub fn restore_checkpoint(&mut self, checkpoint_id: CheckpointId) -> (r: Result<(), ContinuityError>)
        requires
            old(self).wf(),
        ensures
            final(self).wf(),
            final(self).checkpoints() == old(self).checkpoints(),
            !holds_checkpoint(old(self).checkpoints(), checkpoint_id) ==> {
                &&& r == Err::<(), ContinuityError>(ContinuityError::CheckpointNotFound { checkpoint_id })
                &&& final(self).identity() == old(self).identity()
                &&& final(self).experiences() == old(self).experiences()
                &&& final(self).milestones() == old(self).milestones()
            },
            holds_checkpoint(old(self).checkpoints(), checkpoint_id) ==> {
                let c = old(self).checkpoints()[checkpoint_position(old(self).checkpoints(), checkpoint_id)];
                &&& r is Ok
                &&& final(self).identity() == c.identity
                &&& final(self).experiences() == c.experiences
                &&& final(self).milestones() == c.milestones
            },
    {
        let i = match self.find_checkpoint(checkpoint_id) {
            None => {
                return Err(ContinuityError::CheckpointNotFound { checkpoint_id });
            },
            Some(i) => i,
        };
        let identity = self.checkpoints[i].identity.clone();
        let experiences = copy_experiences(&self.checkpoints[i].experiences);
        let milestones = copy_milestones(&self.checkpoints[i].milestones);
        proof {
            assert(self.checkpoints()[i as int] == self.checkpoints@[i as int].view_of());
            let c = self.checkpoints@[i as int];
            assert(distinct_experiences(self.checkpoints()[i as int].experiences));
        }
        self.identity = identity;
        self.experiences = experiences;
        self.milestones = milestones;
        Ok(())
    }

    /// Every saved checkpoint carries the identity's current name.
    pub open spec fn names_agree(self) -> bool {
        forall|k: int| 0 <= k < self.checkpoints().len() ==> (#[trigger] self.checkpoints()[k]).identity.name == self.identity().name
    }

    /// Handles a request at wall-clock time `now`, as the operations above
    /// describe. The identity keeps its name through every request: where
    /// the saved checkpoints carry the current name, they still do after the
    /// request, and the name is unchanged (restoring included).
    pub fn handle_at(&mut self, now: i64, request: ContinuityRequest) -> (response: ContinuityResponse)
        requires
            old(self).wf(),
            old(self).identity().experience_count < u64::MAX,
            old(self).identity().milestone_count < u64::MAX,
        ensures
            final(self).wf(),
            old(self).names_agree() ==> final(self).names_agree() && final(self).identity().name == old(self).identity().name,
            handled(*old(self), *final(self), now, request, response),
    {
        match request {
            ContinuityRequest::WhoAmI => ContinuityResponse::Identity { identity: self.get_identity_at(now) },
            ContinuityRequest::RecordExperience { experience } => {
                let experience_id = self.record_experience(experience);
                ContinuityResponse::ExperienceRecorded { experience_id }
            },
            ContinuityRequest::GetExperience { experience_id } => match self.get_experience(experience_id) {
                Ok(experience) => ContinuityResponse::ExperienceFound { experience },
                Err(error) => ContinuityResponse::Error { error },
            },
            ContinuityRequest::GetTimeline { start, end } => ContinuityResponse::Timeline { experiences: self.get_timeline(start, end) },
            ContinuityRequest::AddMilestone { milestone } => {
                let milestone_id = self.add_milestone(milestone);
                ContinuityResponse::MilestoneAdded { milestone_id }
            },
            ContinuityRequest::GetMilestones => ContinuityResponse::Milestones { milestones: self.get_milestones() },
            ContinuityRequest::Checkpoint => {
                let checkpoint_id = self.create_checkpoint_at(now);
                ContinuityResponse::CheckpointSaved { checkpoint_id }
            },
            ContinuityRequest::Restore { checkpoint_id } => match self.restore_checkpoint(checkpoint_id) {
                Ok(()) => ContinuityResponse::Restored { from_checkpoint: checkpoint_id },
                Err(error) => ContinuityResponse::Error { error },
            },
        }
    }
}

/// The continuity actor: keeps its `ContinuityState`.
pub struct ContinuityActor;

/// Checkpoint `id` is held in `s`, with value `c`.
pub open spec fn checkpoint_held(s: ContinuityState, id: CheckpointId, c: CheckpointView) -> bool {
    &&& holds_checkpoint(s.checkpoints(), id)
    &&& s.checkpoints()[checkpoint_position(s.checkpoints(), id)] == c
}

/// Whether a response reports saving checkpoint `id`.
pub open spec fn saved_as(response: ContinuityResponse, id: CheckpointId) -> bool {
    response matches ContinuityResponse::CheckpointSaved { checkpoint_id } && checkpoint_id == id
}

/// In checkpoints with distinct identifiers, the one at position `p` is the
/// one found by its identifier.
proof fn lemma_position_unique(s: Seq<CheckpointView>, p: int)
    requires
        distinct_checkpoints(s),
        0 <= p < s.len(),
    ensures
        holds_checkpoint(s, s[p].id),
        checkpoint_position(s, s[p].id) == p,
{
    assert(holds_checkpoint(s, s[p].id));
}

/// A saved checkpoint survives every request but one that saves another
/// checkpoint under the same identifier: it is still held, unchanged.
pub proof fn law_checkpoint_is_kept(
    before: ContinuityState,
    after: ContinuityState,
    now: i64,
    request: ContinuityRequest,
    response: ContinuityResponse,
    id: CheckpointId,
    c: CheckpointView,
)
    requires
        before.wf(),
        handled(before, after, now, request, response),
        checkpoint_held(before, id, c),
        !saved_as(response, id),
    ensures
        checkpoint_held(after, id, c),
{
    let s = before.checkpoints();
    let p = checkpoint_position(s, id);
    if request is Checkpoint {
        let t = after.checkpoints();
        let k = response->checkpoint_id;
        if holds_checkpoint(s, k) {
            let q = checkpoint_position(s, k);
            assert(q != p);
            assert(t[p] == c);
        } else {
            assert(t[p] == c);
        }
        lemma_position_unique(t, p);
    }
}

/// Saving a checkpoint holds, under the identifier answered, the identity,
/// experiences and milestones of the moment.
pub proof fn law_checkpoint_is_saved(
    before: ContinuityState,
    after: ContinuityState,
    now: i64,
    response: ContinuityResponse,
)
    requires
        before.wf(),
        handled(before, after, now, ContinuityRequest::Checkpoint, response),
    ensures
        response matches ContinuityResponse::CheckpointSaved { checkpoint_id } && checkpoint_held(after, checkpoint_id, CheckpointView {
            id: checkpoint_id,
            created_at: now,
            experience_count: before.identity().experience_count,
            milestone_count: before.identity().milestone_count,
            identity: before.identity(),
            experiences: before.experiences(),
            milestones: before.milestones(),
        }),
{
    let s = before.checkpoints();
    let t = after.checkpoints();
    let k = response->checkpoint_id;
    let p = if holds_checkpoint(s, k) { checkpoint_position(s, k) } else { s.len() as int };
    assert(t[p].id == k);
    lemma_position_unique(t, p);
}

/// Restoring gives back what was saved: after a checkpoint is held, any
/// run of requests that saves nothing else under its identifier, ended by
/// restoring it, leaves the identity, experiences and milestones it saved.
pub proof fn law_restore_gives_back_checkpoint(
    states: Seq<ContinuityState>,
    nows: Seq<i64>,
    requests: Seq<ContinuityRequest>,
    responses: Seq<ContinuityResponse>,
    id: CheckpointId,
    c: CheckpointView,
)
    requires
        requests.len() >= 1,
        states.len() == requests.len() + 1,
        nows.len() == requests.len(),
        responses.len() == requests.len(),
        states[0].wf(),
        forall|i: int| 0 <= i < requests.len() ==> #[trigger] handled(states[i], states[i + 1], nows[i], requests[i], responses[i]),
        checkpoint_held(states[0], id, c),
        forall|i: int| 0 <= i < requests.len() ==> !saved_as(#[trigger] responses[i], id),
        requests.last() == (ContinuityRequest::Restore { checkpoint_id: id }),
    ensures
        responses.last() == (ContinuityResponse::Restored { from_checkpoint: id }),
        states.last().identity() == c.identity,
        states.last().experiences() == c.experiences,
        states.last().milestones() == c.milestones,
        checkpoint_held(states.last(), id, c),
{
    let n = requests.len() - 1;
    lemma_kept_through(states, nows, requests, responses, id, c, n);
    assert(handled(states[n], states[n + 1], nows[n], requests[n], responses[n]));
}

proof fn lemma_kept_through(
    states: Seq<ContinuityState>,
    nows: Seq<i64>,
    requests: Seq<ContinuityRequest>,
    responses: Seq<ContinuityResponse>,
    id: CheckpointId,
    c: CheckpointView,
    k: int,
)
    requires
        0 <= k < states.len(),
        states.len() == requests.len() + 1,
        nows.len() == requests.len(),
        responses.len() == requests.len(),
        states[0].wf(),
        forall|i: int| 0 <= i < requests.len() ==> #[trigger] handled(states[i], states[i + 1], nows[i], requests[i], responses[i]),
        checkpoint_held(states[0], id, c),
        forall|i: int| 0 <= i < requests.len() ==> !saved_as(#[trigger] responses[i], id),
    ensures
        states[k].wf(),
        checkpoint_held(states[k], id, c),
    decreases k,
{
    if k > 0 {
        lemma_kept_through(states, nows, requests, responses, id, c, k - 1);
        let j = k - 1;
        assert(handled(states[j], states[j + 1], nows[j], requests[j], responses[j]));
        assert(!saved_as(responses[j], id));
        law_checkpoint_is_kept(states[j], states[j + 1], nows[j], requests[j], responses[j], id, c);
    }
}

} // verus!
