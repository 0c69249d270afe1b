//! Per-actor input state and candidate collection bookkeeping.

use vstd::prelude::*;

use crate::components::{
    ActiveInteraction, FocusSource, FocusedInteraction, InteractionCandidate, InteractionCandidates,
    InteractionPromptState,
};
use crate::ids::{EntityId, InteractionSlotId, InteractionStageId};
use crate::messages::InteractionIntentKind;
use crate::scalar::Scalar;

verus! {

/// The offer an actor last started automatically, so that the same offer is
/// not started again while it stays focused.
#[derive(Debug, PartialEq, Eq)]
pub struct AutoStartedOffer {
    pub target: EntityId,
    pub slot_id: InteractionSlotId,
    pub stage_id: Option<InteractionStageId>,
}

impl View for AutoStartedOffer {
    type V = (EntityId, Seq<char>, Option<Seq<char>>);

    open spec fn view(&self) -> (EntityId, Seq<char>, Option<Seq<char>>) {
        (
            self.target,
            self.slot_id@,
            match self.stage_id {
                Some(s) => Some(s@),
                None => None,
            },
        )
    }
}

impl Clone for AutoStartedOffer {
    fn clone(&self) -> (r: Self)
        ensures
            r == *self,
    {
        AutoStartedOffer {
            target: self.target,
            slot_id: self.slot_id.clone(),
            stage_id: crate::components::clone_opt_stage_id(&self.stage_id),
        }
    }
}

impl AutoStartedOffer {
    /// Whether two records name the same target, slot, and stage.
    pub fn same(&self, other: &Self) -> (r: bool)
        ensures
            r == (self@ == other@),
    {
        if self.target != other.target || !self.slot_id.same(&other.slot_id) {
            return false;
        }
        match (&self.stage_id, &other.stage_id) {
            (None, None) => true,
            (Some(a), Some(b)) => a.same(b),
            _ => false,
        }
    }
}

/// The view of an optional auto-start record.
pub open spec fn auto_view(a: Option<AutoStartedOffer>) -> Option<(EntityId, Seq<char>, Option<Seq<char>>)> {
    match a {
        Some(o) => Some(o@),
        None => None,
    }
}

/// Input an actor received this update, and what outlives the update.
#[derive(Debug, PartialEq)]
pub struct InteractorControlState {
    pub confirm_held: bool,
    pub confirm_pressed: bool,
    pub confirm_released: bool,
    pub cancel_requested: bool,
    pub cycle_delta: i8,
    pub select_slot: Option<InteractionSlotId>,
    pub confirm_buffer_remaining: Scalar,
    pub auto_started_offer: Option<AutoStartedOffer>,
}

impl InteractorControlState {
    /// No input received and nothing remembered.
    pub open spec fn spec_is_idle(self) -> bool {
        &&& !self.confirm_held
        &&& !self.confirm_pressed
        &&& !self.confirm_released
        &&& !self.cancel_requested
        &&& self.cycle_delta == 0
        &&& self.select_slot.is_none()
        &&& self.confirm_buffer_remaining == Scalar::spec_zero()
        &&& self.auto_started_offer.is_none()
    }

    /// The state after one intent is applied.
    pub open spec fn spec_after_intent(self, kind: InteractionIntentKind) -> InteractorControlState {
        match kind {
            InteractionIntentKind::Press => InteractorControlState {
                confirm_held: true,
                confirm_pressed: true,
                ..self
            },
            InteractionIntentKind::Release => InteractorControlState {
                confirm_held: false,
                confirm_released: true,
                ..self
            },
            InteractionIntentKind::Cancel => InteractorControlState { cancel_requested: true, ..self },
            InteractionIntentKind::CycleNext => InteractorControlState {
                cycle_delta: if self.cycle_delta == i8::MAX { i8::MAX } else { (self.cycle_delta + 1) as i8 },
                ..self
            },
            InteractionIntentKind::CyclePrevious => InteractorControlState {
                cycle_delta: if self.cycle_delta == i8::MIN { i8::MIN } else { (self.cycle_delta - 1) as i8 },
                ..self
            },
            InteractionIntentKind::SelectSlot(slot_id) => InteractorControlState {
                select_slot: Some(slot_id),
                ..self
            },
        }
    }

    /// The state once the per-update input has been cleared.
    pub open spec fn spec_after_frame(self) -> InteractorControlState {
        InteractorControlState {
            confirm_pressed: false,
            confirm_released: false,
            cancel_requested: false,
            cycle_delta: 0,
            select_slot: None,
            ..self
        }
    }

    /// Applies one intent: a press holds and presses confirm, a release lets
    /// go and marks the release, a cancel requests cancellation, cycling
    /// moves the pending slot step with saturation, and a selection names a
    /// slot.
    pub fn apply_intent(&mut self, kind: &InteractionIntentKind)
        ensures
            *final(self) == old(self).spec_after_intent(*kind),
    {
        match kind {
            InteractionIntentKind::Press => {
                self.confirm_held = true;
                self.confirm_pressed = true;
            },
            InteractionIntentKind::Release => {
                self.confirm_held = false;
                self.confirm_released = true;
            },
            InteractionIntentKind::Cancel => {
                self.cancel_requested = true;
            },
            InteractionIntentKind::CycleNext => {
                if self.cycle_delta < i8::MAX {
                    self.cycle_delta = self.cycle_delta + 1;
                }
            },
            InteractionIntentKind::CyclePrevious => {
                if self.cycle_delta > i8::MIN {
                    self.cycle_delta = self.cycle_delta - 1;
                }
            },
            InteractionIntentKind::SelectSlot(slot_id) => {
                self.select_slot = Some(slot_id.clone());
            },
        }
    }

    /// Clears the input that only lasts one update; the held state, the
    /// confirm buffer, and the auto-start record stay.
    pub fn clear_frame_controls(&mut self)
        ensures
            *final(self) == old(self).spec_after_frame(),
    {
        self.confirm_pressed = false;
        self.confirm_released = false;
        self.cancel_requested = false;
        self.cycle_delta = 0;
        self.select_slot = None;
    }
}

impl Default for InteractorControlState {
    fn default() -> (r: Self)
        ensures
            r.spec_is_idle(),
    {
        InteractorControlState {
            confirm_held: false,
            confirm_pressed: false,
            confirm_released: false,
            cancel_requested: false,
            cycle_delta: 0,
            select_slot: None,
            confirm_buffer_remaining: Scalar::zero(),
            auto_started_offer: None,
        }
    }
}

impl Clone for InteractorControlState {
    fn clone(&self) -> (r: Self)
        ensures
            r == *self,
    {
        InteractorControlState {
            confirm_held: self.confirm_held,
            confirm_pressed: self.confirm_pressed,
            confirm_released: self.confirm_released,
            cancel_requested: self.cancel_requested,
            cycle_delta: self.cycle_delta,
            select_slot: crate::components::clone_opt_slot_id(&self.select_slot),
            confirm_buffer_remaining: self.confirm_buffer_remaining,
            auto_started_offer: match &self.auto_started_offer {
                Some(a) => Some(a.clone()),
                None => None,
            },
        }
    }
}

/// Pressing cycle-next `k` times from rest moves the pending step by `k`,
/// up to the largest step; cycling never wraps around.
pub proof fn cycle_next_saturates(c: InteractorControlState)
    ensures
        c.cycle_delta < i8::MAX ==> c.spec_after_intent(InteractionIntentKind::CycleNext).cycle_delta
            == c.cycle_delta + 1,
        c.cycle_delta == i8::MAX ==> c.spec_after_intent(InteractionIntentKind::CycleNext).cycle_delta
            == i8::MAX,
        c.cycle_delta > i8::MIN ==> c.spec_after_intent(InteractionIntentKind::CyclePrevious).cycle_delta
            == c.cycle_delta - 1,
        c.cycle_delta == i8::MIN ==> c.spec_after_intent(InteractionIntentKind::CyclePrevious).cycle_delta
            == i8::MIN,
{
}

/// How two sightings of the same target combine: a proximity sighting and a
/// picking sighting make a hybrid one, a hybrid sighting stays hybrid, and
/// two sightings of the same kind keep that kind.
pub open spec fn spec_merge_source(existing: FocusSource, incoming: FocusSource) -> FocusSource {
    match (existing, incoming) {
        (FocusSource::Picking, FocusSource::Proximity) => FocusSource::Hybrid,
        (FocusSource::Proximity, FocusSource::Picking) => FocusSource::Hybrid,
        (_, FocusSource::Hybrid) => FocusSource::Hybrid,
        (FocusSource::Hybrid, _) => FocusSource::Hybrid,
        (current, _) => current,
    }
}

/// How two sightings of the same target combine their source.
pub fn merge_source(existing: FocusSource, incoming: FocusSource) -> (r: FocusSource)
    ensures
        r == spec_merge_source(existing, incoming),
{
    match (existing, incoming) {
        (FocusSource::Picking, FocusSource::Proximity) | (FocusSource::Proximity, FocusSource::Picking) | (
            _,
            FocusSource::Hybrid,
        ) | (FocusSource::Hybrid, _) => FocusSource::Hybrid,
        (current, _) => current,
    }
}

/// Combining sightings does not depend on their order, is idempotent, and
/// is associative.
pub proof fn merge_source_laws(a: FocusSource, b: FocusSource, c: FocusSource)
    ensures
        spec_merge_source(a, b) == spec_merge_source(b, a),
        spec_merge_source(a, a) == a,
        spec_merge_source(spec_merge_source(a, b), c) == spec_merge_source(a, spec_merge_source(b, c)),
{
}

/// A sighting merged into an earlier sighting of the same target: the
/// nearest distance, the best alignment and priorities, and the combined
/// source.
pub open spec fn spec_merged(existing: InteractionCandidate, incoming: InteractionCandidate) -> InteractionCandidate {
    InteractionCandidate {
        target: existing.target,
        source: spec_merge_source(existing.source, incoming.source),
        distance: existing.distance.spec_min_num(incoming.distance),
        alignment: existing.alignment.spec_max_num(incoming.alignment),
        slot_priority: existing.slot_priority.spec_max_num(incoming.slot_priority),
        target_priority: existing.target_priority.spec_max_num(incoming.target_priority),
        score: existing.score,
    }
}

/// The position of the first candidate for `target`, if any.
pub open spec fn first_with_target(entries: Seq<InteractionCandidate>, target: EntityId, i: int) -> bool {
    &&& 0 <= i < entries.len()
    &&& entries[i].target == target
    &&& forall|j: int| 0 <= j < i ==> #[trigger] entries[j].target != target
}

/// The candidate list after one more sighting: merged into the first entry
/// for the same target, or appended when the target is new.
pub open spec fn spec_add_or_merge(entries: Seq<InteractionCandidate>, candidate: InteractionCandidate) -> Seq<InteractionCandidate> {
    if exists|i: int| first_with_target(entries, candidate.target, i) {
        let i = choose|i: int| first_with_target(entries, candidate.target, i);
        entries.update(i, spec_merged(entries[i], candidate))
    } else {
        entries.push(candidate)
    }
}

/// Adds a sighting to a candidate list, merging sightings of one target.
pub fn add_or_merge_candidate(candidates: &mut Vec<InteractionCandidate>, candidate: InteractionCandidate)
    ensures
        final(candidates)@ == spec_add_or_merge(old(candidates)@, candidate),
{
    let mut i: usize = 0;
    while i < candidates.len()
        invariant
            i <= candidates@.len(),
            candidates@ == old(candidates)@,
            forall|j: int| 0 <= j < i ==> #[trigger] candidates@[j].target != candidate.target,
        decreases candidates@.len() - i,
    {
        if candidates[i].target == candidate.target {
            let existing = candidates[i];
            let merged = InteractionCandidate {
                target: existing.target,
                source: merge_source(existing.source, candidate.source),
                distance: existing.distance.min_num(candidate.distance),
                alignment: existing.alignment.max_num(candidate.alignment),
                slot_priority: existing.slot_priority.max_num(candidate.slot_priority),
                target_priority: existing.target_priority.max_num(candidate.target_priority),
                score: existing.score,
            };
            proof {
                assert(first_with_target(old(candidates)@, candidate.target, i as int));
                let c = choose|c: int| first_with_target(old(candidates)@, candidate.target, c);
                if c < i {
                    assert(old(candidates)@[c].target != candidate.target);
                }
                if i < c {
                    assert(old(candidates)@[i as int].target != candidate.target);
                }
            }
            candidates.set(i, merged);
            return;
        }
        i = i + 1;
    }
    candidates.push(candidate);
}

/// A target sighted twice appears once: merging never adds an entry for a
/// target the list already holds, and adds exactly one otherwise.
pub proof fn add_or_merge_keeps_targets_unique(entries: Seq<InteractionCandidate>, candidate: InteractionCandidate)
    requires
        forall|a: int, b: int| 0 <= a < b < entries.len() ==> entries[a].target != entries[b].target,
    ensures
        ({
            let after = spec_add_or_merge(entries, candidate);
            &&& forall|a: int, b: int| 0 <= a < b < after.len() ==> after[a].target != after[b].target
            &&& exists|k: int| 0 <= k < after.len() && after[k].target == candidate.target
        }),
{
    let after = spec_add_or_merge(entries, candidate);
    if exists|i: int| first_with_target(entries, candidate.target, i) {
        let i = choose|i: int| first_with_target(entries, candidate.target, i);
        assert(after[i].target == candidate.target);
    } else {
        assert forall|a: int| 0 <= a < entries.len() implies entries[a].target != candidate.target by {
            if entries[a].target == candidate.target {
                let w = choose|w: int| 0 <= w < entries.len() && entries[w].target == candidate.target
                    && forall|v: int| 0 <= v < w ==> entries[v].target != candidate.target;
                assert(first_with_target(entries, candidate.target, w));
            }
        }
        assert(after[entries.len() as int].target == candidate.target);
    }
}


/// Returns an actor to rest when the pipeline is switched off: no input,
/// no candidates, no focus, no offer, and no active interaction.
pub fn deactivate_interactor(
    control: &mut InteractorControlState,
    candidates: &mut InteractionCandidates,
    focus: &mut FocusedInteraction,
    prompt_state: &mut InteractionPromptState,
    active: &mut Option<ActiveInteraction>,
)
    ensures
        final(control).spec_is_idle(),
        final(candidates).entries@.len() == 0,
        final(focus).target.is_none() && final(focus).slot_id.is_none() && final(focus).source.is_none(),
        final(prompt_state).offer.is_none(),
        final(active).is_none(),
{
    *control = InteractorControlState::default();
    *candidates = InteractionCandidates::default();
    *focus = FocusedInteraction::default();
    *prompt_state = InteractionPromptState::default();
    *active = None;
}

} // verus!
