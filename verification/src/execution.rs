//! The execution state machine: starting an offered slot, advancing a timed
//! interaction, completing it, and cancelling it.

use vstd::prelude::*;

use crate::components::{
    ActiveInteraction, FocusedInteraction, InteractionAvailabilityReason, InteractionBehavior,
    InteractionCancelReason, InteractionConsumption, InteractionExecution, InteractionPromptState,
    InteractionReservationPolicy, InteractionSlot, InteractionTags, InteractionTarget, Interactable,
    Interactor, SequenceAdvanceMode,
};
use crate::config::InteractionConfig;
use crate::control::{auto_view, AutoStartedOffer, InteractorControlState};
use crate::gating::{evaluate_slot, find_slot, gate_verdict, names_of, slot_position, GateFacts};
use crate::ids::{ActorSlotKey, EntityId, InteractionSlotId, InteractionStageId, TargetSlotKey};
use crate::messages::{
    InteractionCanceled, InteractionCompleted, InteractionFailed, InteractionProgress, InteractionStageAdvanced,
    InteractionStarted,
};
use crate::runtime::{InteractionRuntimeState, RuntimeView};
use crate::scalar::{Scalar, Seconds};
use crate::util::{execution_for_slot, spec_execution_for_slot};

verus! {

/// The execution that actually runs once accessibility settings apply: with
/// `hold_to_toggle` a hold completes at once as a toggle, and with
/// `mash_auto_complete` a mash becomes a hold of `mash_hold_seconds` (the
/// host derives that duration from the required presses).
pub open spec fn spec_effective_execution(
    config: InteractionConfig,
    execution: InteractionExecution,
    mash_hold_seconds: Scalar,
) -> InteractionExecution {
    match execution {
        InteractionExecution::Hold { .. } => if config.hold_to_toggle {
            InteractionExecution::Toggle
        } else {
            execution
        },
        InteractionExecution::Mash { .. } => if config.mash_auto_complete {
            InteractionExecution::Hold { duration_seconds: mash_hold_seconds }
        } else {
            execution
        },
        _ => execution,
    }
}

/// The execution that actually runs once accessibility settings apply.
pub fn effective_execution(
    config: &InteractionConfig,
    execution: InteractionExecution,
    mash_hold_seconds: Scalar,
) -> (r: InteractionExecution)
    ensures
        r == spec_effective_execution(*config, execution, mash_hold_seconds),
{
    match execution {
        InteractionExecution::Hold { .. } => if config.hold_to_toggle {
            InteractionExecution::Toggle
        } else {
            execution
        },
        InteractionExecution::Mash { .. } => if config.mash_auto_complete {
            InteractionExecution::Hold { duration_seconds: mash_hold_seconds }
        } else {
            execution
        },
        _ => execution,
    }
}

/// The clock readings at which cooldowns started now would end; the host
/// adds the slot's cooldown lengths to the current time.
#[derive(Clone, Copy, Debug, PartialEq, Eq, Structural)]
pub struct CompletionClock {
    pub shared_expiry: Seconds,
    pub per_actor_expiry: Seconds,
}

/// The stage a sequence of `len` stages moves to after stage `index`
/// completes: one further, stopping at the last or wrapping to the first.
pub open spec fn next_stage_index(mode: SequenceAdvanceMode, index: usize, len: usize) -> usize {
    match mode {
        SequenceAdvanceMode::StopAtLast => if index + 1 < len - 1 {
            (index + 1) as usize
        } else {
            (len - 1) as usize
        },
        SequenceAdvanceMode::Loop => ((index + 1) % (len as int)) as usize,
    }
}

/// The runtime state after `actor` completes stage `stage_index` of `slot`
/// on `target`: cooldowns with a positive length start, a one-shot slot is
/// used up, a staged slot moves to its next stage, and the slot's
/// reservation is released.
pub open spec fn spec_after_completion(
    rt: RuntimeView,
    actor: EntityId,
    target: EntityId,
    slot: InteractionSlot,
    stage_index: usize,
    clock: CompletionClock,
) -> RuntimeView {
    let key = (target, slot.id@);
    RuntimeView {
        shared_cooldowns: if slot.cooldown.shared_seconds.positive() {
            rt.shared_cooldowns.insert(key, clock.shared_expiry)
        } else {
            rt.shared_cooldowns
        },
        per_actor_cooldowns: if slot.cooldown.per_actor_seconds.positive() {
            rt.per_actor_cooldowns.insert((actor, key), clock.per_actor_expiry)
        } else {
            rt.per_actor_cooldowns
        },
        consumed_global: if slot.availability.consumption == InteractionConsumption::OnceGlobal {
            rt.consumed_global.insert(key)
        } else {
            rt.consumed_global
        },
        consumed_per_actor: if slot.availability.consumption == InteractionConsumption::OncePerActor {
            rt.consumed_per_actor.insert((actor, key))
        } else {
            rt.consumed_per_actor
        },
        stage_indices: match slot.behavior {
            InteractionBehavior::Sequence { stages, advance_mode } => if stages@.len() > 0 {
                rt.stage_indices.insert(key, next_stage_index(advance_mode, stage_index, stages@.len() as usize))
            } else {
                rt.stage_indices
            },
            _ => rt.stage_indices,
        },
        reservations: rt.reservations.remove(key),
        ..rt
    }
}

/// The stage-advance report of a completion, when the stage moved.
pub open spec fn spec_stage_advance(
    actor: EntityId,
    target: EntityId,
    slot: InteractionSlot,
    stage_id: Option<InteractionStageId>,
    stage_index: usize,
) -> Option<InteractionStageAdvanced> {
    match slot.behavior {
        InteractionBehavior::Sequence { stages, advance_mode } => if stages@.len() > 0 {
            let next = next_stage_index(advance_mode, stage_index, stages@.len() as usize);
            if next != stage_index {
                Some(
                    InteractionStageAdvanced {
                        interactor: actor,
                        target,
                        slot_id: slot.id,
                        previous_stage_id: stage_id,
                        next_stage_id: Some(stages@[next as int].id),
                        terminal: advance_mode == SequenceAdvanceMode::StopAtLast && next == stages@.len() - 1,
                    },
                )
            } else {
                None
            }
        } else {
            None
        },
        _ => None,
    }
}

/// What a completion reports.
pub open spec fn spec_completed(
    actor: EntityId,
    target: EntityId,
    slot: InteractionSlot,
    stage_id: Option<InteractionStageId>,
    toggle_state: Option<bool>,
) -> InteractionCompleted {
    InteractionCompleted { interactor: actor, target, slot_id: slot.id, stage_id, toggle_state }
}

/// Records the completion of stage `stage_index` of `slot` on
/// `target_entity` by `interactor_entity`, and reports it together with the
/// stage advance it causes.
pub fn apply_completion(
    runtime: &mut InteractionRuntimeState,
    interactor_entity: EntityId,
    target_entity: EntityId,
    slot: &InteractionSlot,
    stage_id: Option<InteractionStageId>,
    stage_index: usize,
    toggle_state: Option<bool>,
    clock: CompletionClock,
) -> (r: (InteractionCompleted, Option<InteractionStageAdvanced>))
    requires
        stage_index < usize::MAX,
    ensures
        final(runtime)@ == spec_after_completion(old(runtime)@, interactor_entity, target_entity, *slot, stage_index, clock),
        r.0 == spec_completed(interactor_entity, target_entity, *slot, stage_id, toggle_state),
        r.1 == spec_stage_advance(interactor_entity, target_entity, *slot, stage_id, stage_index),
{
    let completed = InteractionCompleted {
        interactor: interactor_entity,
        target: target_entity,
        slot_id: slot.id.clone(),
        stage_id: crate::components::clone_opt_stage_id(&stage_id),
        toggle_state,
    };
    let key = TargetSlotKey::new(target_entity, &slot.id);
    if slot.cooldown.shared_seconds.is_positive() {
        runtime.shared_cooldowns.insert(key.clone(), clock.shared_expiry);
    }
    if slot.cooldown.per_actor_seconds.is_positive() {
        runtime.per_actor_cooldowns.insert(ActorSlotKey { actor: interactor_entity, key: key.clone() }, clock.per_actor_expiry);
    }
    if matches!(slot.availability.consumption, InteractionConsumption::OnceGlobal) {
        runtime.consumed_global.insert(key.clone(), ());
    }
    if matches!(slot.availability.consumption, InteractionConsumption::OncePerActor) {
        runtime.consumed_per_actor.insert(ActorSlotKey { actor: interactor_entity, key: key.clone() }, ());
    }
    let mut advanced: Option<InteractionStageAdvanced> = None;
    match &slot.behavior {
        InteractionBehavior::Sequence { stages, advance_mode } => {
            if stages.len() > 0 {
                let last = stages.len() - 1;
                let next_index = match advance_mode {
                    SequenceAdvanceMode::StopAtLast => if stage_index + 1 < last {
                        stage_index + 1
                    } else {
                        last
                    },
                    SequenceAdvanceMode::Loop => (stage_index + 1) % stages.len(),
                };
                runtime.stage_indices.insert(key.clone(), next_index);
                if next_index != stage_index {
                    advanced = Some(
                        InteractionStageAdvanced {
                            interactor: interactor_entity,
                            target: target_entity,
                            slot_id: slot.id.clone(),
                            previous_stage_id: stage_id,
                            next_stage_id: Some(stages[next_index].id.clone()),
                            terminal: matches!(advance_mode, SequenceAdvanceMode::StopAtLast) && next_index == last,
                        },
                    );
                }
            }
        },
        InteractionBehavior::Single(_) => {},
    }
    runtime.reservations.remove(&key);
    proof {
        assert(runtime@.consumed_global =~= spec_after_completion(old(runtime)@, interactor_entity, target_entity, *slot, stage_index, clock).consumed_global);
        assert(runtime@.consumed_per_actor =~= spec_after_completion(old(runtime)@, interactor_entity, target_entity, *slot, stage_index, clock).consumed_per_actor);
    }
    (completed, advanced)
}

/// The reservations after `interactor` gives up `slot_id` on `target`: only
/// a reservation it holds is released.
pub open spec fn spec_after_release(rt: RuntimeView, interactor: EntityId, target: EntityId, slot_id: Seq<char>) -> RuntimeView {
    let key = (target, slot_id);
    if rt.reservations.dom().contains(key) && rt.reservations[key] == interactor {
        RuntimeView { reservations: rt.reservations.remove(key), ..rt }
    } else {
        rt
    }
}

/// Releases the reservation of a slot if `interactor_entity` holds it.
pub fn release_reservation(
    runtime: &mut InteractionRuntimeState,
    interactor_entity: EntityId,
    target_entity: EntityId,
    slot_id: &InteractionSlotId,
)
    ensures
        final(runtime)@ == spec_after_release(old(runtime)@, interactor_entity, target_entity, slot_id@),
{
    let key = TargetSlotKey::new(target_entity, slot_id);
    let owned = match runtime.reservation_owner(&key) {
        Some(owner) => owner == interactor_entity,
        None => false,
    };
    if owned {
        runtime.reservations.remove(&key);
    }
}

/// Ends an active interaction that was cancelled for `reason`: the actor's
/// reservation of the slot is released and the cancellation is reported.
pub fn end_canceled(
    runtime: &mut InteractionRuntimeState,
    interactor_entity: EntityId,
    active: &ActiveInteraction,
    reason: InteractionCancelReason,
) -> (r: InteractionCanceled)
    ensures
        final(runtime)@ == spec_after_release(old(runtime)@, interactor_entity, active.target, active.slot_id@),
        r == (InteractionCanceled {
            interactor: interactor_entity,
            target: active.target,
            slot_id: active.slot_id,
            reason,
        }),
{
    release_reservation(runtime, interactor_entity, active.target, &active.slot_id);
    InteractionCanceled {
        interactor: interactor_entity,
        target: active.target,
        slot_id: active.slot_id.clone(),
        reason,
    }
}

/// What one actor does in an execution pass.
#[derive(Debug, PartialEq)]
pub enum ActorStep {
    /// The active interaction stops for this reason.
    Cancel(InteractionCancelReason),
    /// The active interaction advances.
    Tick,
    /// The actor has no active interaction and may start one.
    TryStart,
}

/// The step an actor takes: an actor holds at most one active interaction,
/// so a busy actor is cancelled or advanced and never starts another; an
/// idle actor may start.
pub open spec fn spec_next_step(
    active: Option<ActiveInteraction>,
    cancel: Option<InteractionCancelReason>,
) -> ActorStep {
    match active {
        None => ActorStep::TryStart,
        Some(_) => match cancel {
            Some(c) => ActorStep::Cancel(c),
            None => ActorStep::Tick,
        },
    }
}

/// Chooses an actor's step from its active interaction and, when it has
/// one, the cancellation reason [`cancel_active_if_needed`] gave.
pub fn next_step(active: &Option<ActiveInteraction>, cancel: Option<InteractionCancelReason>) -> (r: ActorStep)
    ensures
        r == spec_next_step(*active, cancel),
        active is None ==> r == ActorStep::TryStart,
        active is Some ==> r == match cancel {
            Some(c) => ActorStep::Cancel(c),
            None => ActorStep::Tick,
        },
{
    match active {
        None => ActorStep::TryStart,
        Some(_) => match cancel {
            Some(c) => ActorStep::Cancel(c),
            None => ActorStep::Tick,
        },
    }
}

/// The runtime once an execution pass is over: the external cancellations
/// it was handed are consumed.
pub open spec fn spec_after_pass(rt: RuntimeView) -> RuntimeView {
    RuntimeView { pending_external_cancels: Map::empty(), ..rt }
}

/// Ends an execution pass.
pub fn finish_pass(runtime: &mut InteractionRuntimeState)
    ensures
        final(runtime)@ == spec_after_pass(old(runtime)@),
{
    runtime.clear_external_cancels();
}

/// Why an active interaction stops, if it must: a pending external
/// cancellation first; then a vanished target or actor; a slot no longer on
/// the target lets it run on; then an explicit cancel, a release during a
/// hold, a loss of focus, and a re-gating failure, each when the slot's
/// cancellation policy allows it.
pub open spec fn spec_cancel_reason(
    rt: RuntimeView,
    actor: EntityId,
    active: ActiveInteraction,
    focus: FocusedInteraction,
    control: InteractorControlState,
    target: Option<(&Interactable, &InteractionTarget)>,
    target_tags: Seq<Seq<char>>,
    interactor: Option<&Interactor>,
    actor_tags: Seq<Seq<char>>,
    facts: GateFacts,
) -> Option<InteractionCancelReason> {
    if rt.pending_external_cancels.dom().contains(actor) {
        Some(rt.pending_external_cancels[actor])
    } else if target is None || interactor is None {
        Some(InteractionCancelReason::TargetMissing)
    } else {
        let (interactable, t) = target->0;
        let who = interactor->0;
        match slot_position(t.slots@, active.slot_id@) {
            None => None,
            Some(i) => {
                let slot = t.slots@[i];
                if control.cancel_requested {
                    Some(InteractionCancelReason::ExplicitCancel)
                } else if slot.cancellation.on_release && active.execution is Hold && control.confirm_released {
                    Some(InteractionCancelReason::InputReleased)
                } else if slot.cancellation.on_focus_loss && (focus.target != Some(active.target) || !(
                focus.slot_id matches Some(id) && id@ == active.slot_id@)) {
                    Some(InteractionCancelReason::FocusLost)
                } else if slot.cancellation.on_blocked_state {
                    match gate_verdict(rt, actor, active.target, *who, *interactable, slot, actor_tags, target_tags, facts) {
                        Some(reason) => Some(cancel_reason_for(reason)),
                        None => None,
                    }
                } else {
                    None
                }
            },
        }
    }
}

/// How a failed re-gate reads as a cancellation: line of sight and range
/// keep their meaning, a failed predicate invalidates, and every other
/// reason reads as busy.
pub open spec fn cancel_reason_for(reason: InteractionAvailabilityReason) -> InteractionCancelReason {
    match reason {
        InteractionAvailabilityReason::LineOfSightBlocked => InteractionCancelReason::LineOfSightBreak,
        InteractionAvailabilityReason::OutOfRange => InteractionCancelReason::DistanceBreak,
        InteractionAvailabilityReason::PredicateFailed { predicate, detail_key } => InteractionCancelReason::PredicateInvalidated {
            predicate,
            detail_key,
        },
        _ => InteractionCancelReason::Busy,
    }
}

/// The facts fit the active slot when that slot is still on the target.
pub open spec fn cancel_facts_fit(target: Option<(&Interactable, &InteractionTarget)>, slot_id: Seq<char>, facts: GateFacts) -> bool {
    match target {
        Some((_, t)) => match slot_position(t.slots@, slot_id) {
            Some(i) => facts.fits(t.slots@[i]),
            None => true,
        },
        None => true,
    }
}

/// Decides whether an active interaction must stop this update, and why.
pub fn cancel_active_if_needed(
    runtime: &InteractionRuntimeState,
    interactor_entity: EntityId,
    active: &ActiveInteraction,
    focus: &FocusedInteraction,
    control: &InteractorControlState,
    target: Option<(&Interactable, &InteractionTarget)>,
    target_tags: Option<&InteractionTags>,
    interactor: Option<&Interactor>,
    interactor_tags: Option<&InteractionTags>,
    facts: &GateFacts,
) -> (r: Option<InteractionCancelReason>)
    requires
        cancel_facts_fit(target, active.slot_id@, *facts),
    ensures
        r == spec_cancel_reason(
            runtime@,
            interactor_entity,
            *active,
            *focus,
            *control,
            target,
            names_of(target_tags),
            interactor,
            names_of(interactor_tags),
            *facts,
        ),
{
    if let Some(reason) = runtime.pending_external_cancels.get(&interactor_entity) {
        return Some(reason.clone());
    }
    let (interactable, target_parts) = match target {
        Some(parts) => parts,
        None => return Some(InteractionCancelReason::TargetMissing),
    };
    let who = match interactor {
        Some(w) => w,
        None => return Some(InteractionCancelReason::TargetMissing),
    };
    let index = match find_slot(&target_parts.slots, &active.slot_id) {
        Some(i) => i,
        None => return None,
    };
    let slot = &target_parts.slots[index];
    if control.cancel_requested {
        return Some(InteractionCancelReason::ExplicitCancel);
    }
    if slot.cancellation.on_release && matches!(active.execution, InteractionExecution::Hold { .. })
        && control.confirm_released {
        return Some(InteractionCancelReason::InputReleased);
    }
    let focus_matches = focus.target == Some(active.target) && match &focus.slot_id {
        Some(id) => id.same(&active.slot_id),
        None => false,
    };
    if slot.cancellation.on_focus_loss && !focus_matches {
        return Some(InteractionCancelReason::FocusLost);
    }
    if slot.cancellation.on_blocked_state {
        let verdict = evaluate_slot(
            runtime,
            interactor_entity,
            active.target,
            who,
            interactable,
            slot,
            interactor_tags,
            target_tags,
            facts,
        );
        return match verdict {
            Some(reason) => Some(
                match reason {
                    InteractionAvailabilityReason::LineOfSightBlocked => InteractionCancelReason::LineOfSightBreak,
                    InteractionAvailabilityReason::OutOfRange => InteractionCancelReason::DistanceBreak,
                    InteractionAvailabilityReason::PredicateFailed { predicate, detail_key } => InteractionCancelReason::PredicateInvalidated {
                        predicate,
                        detail_key,
                    },
                    _ => InteractionCancelReason::Busy,
                },
            ),
            None => None,
        };
    }
    None
}

} // verus!

verus! {

/// What one update of an active interaction reports, and what stays active.
#[derive(Debug, PartialEq)]
pub struct TickOutcome {
    pub progress: Option<InteractionProgress>,
    pub completed: Option<InteractionCompleted>,
    pub stage_advanced: Option<InteractionStageAdvanced>,
    pub active: Option<ActiveInteraction>,
}

/// Advances an active interaction to `progress`, which the host computed
/// from the elapsed time or the presses of this update. When the target or
/// the slot is gone the interaction ends silently. Otherwise the progress is
/// reported, and reaching `1.0` completes the interaction and ends it.
pub fn tick_active(
    runtime: &mut InteractionRuntimeState,
    interactor_entity: EntityId,
    active: ActiveInteraction,
    target: Option<&InteractionTarget>,
    progress: Scalar,
    clock: CompletionClock,
) -> (r: TickOutcome)
    requires
        active.stage_index < usize::MAX,
    ensures
        match target {
            None => final(runtime)@ == old(runtime)@ && r == (TickOutcome {
                progress: None,
                completed: None,
                stage_advanced: None,
                active: None,
            }),
            Some(t) => match slot_position(t.slots@, active.slot_id@) {
                None => final(runtime)@ == old(runtime)@ && r == (TickOutcome {
                    progress: None,
                    completed: None,
                    stage_advanced: None,
                    active: None,
                }),
                Some(i) => {
                    &&& r.progress == Some(
                        InteractionProgress {
                            interactor: interactor_entity,
                            target: active.target,
                            slot_id: active.slot_id,
                            stage_id: active.stage_id,
                            progress,
                        },
                    )
                    &&& if progress.reaches_one() {
                        &&& final(runtime)@ == spec_after_completion(
                            old(runtime)@,
                            interactor_entity,
                            active.target,
                            t.slots@[i],
                            active.stage_index,
                            clock,
                        )
                        &&& r.completed == Some(
                            spec_completed(interactor_entity, active.target, t.slots@[i], active.stage_id, active.toggle_state),
                        )
                        &&& r.stage_advanced == spec_stage_advance(
                            interactor_entity,
                            active.target,
                            t.slots@[i],
                            active.stage_id,
                            active.stage_index,
                        )
                        &&& r.active.is_none()
                    } else {
                        &&& final(runtime)@ == old(runtime)@
                        &&& r.completed.is_none()
                        &&& r.stage_advanced.is_none()
                        &&& r.active == Some(ActiveInteraction { progress, ..active })
                    }
                },
            },
        },
{
    let gone = TickOutcome { progress: None, completed: None, stage_advanced: None, active: None };
    let target = match target {
        Some(t) => t,
        None => return gone,
    };
    let index = match find_slot(&target.slots, &active.slot_id) {
        Some(i) => i,
        None => return gone,
    };
    let slot = &target.slots[index];
    let report = InteractionProgress {
        interactor: interactor_entity,
        target: active.target,
        slot_id: active.slot_id.clone(),
        stage_id: crate::components::clone_opt_stage_id(&active.stage_id),
        progress,
    };
    if progress.is_at_least_one() {
        let (completed, advanced) = apply_completion(
            runtime,
            interactor_entity,
            active.target,
            slot,
            active.stage_id,
            active.stage_index,
            active.toggle_state,
            clock,
        );
        TickOutcome { progress: Some(report), completed: Some(completed), stage_advanced: advanced, active: None }
    } else {
        TickOutcome {
            progress: Some(report),
            completed: None,
            stage_advanced: None,
            active: Some(ActiveInteraction { progress, ..active }),
        }
    }
}

/// What the host measures before a start attempt: the gating facts of the
/// offered slot, the current time, the cooldown ends a completion now would
/// set, and the hold length that mash accessibility converts to.
pub struct StartFacts {
    pub gate: GateFacts,
    pub now: Seconds,
    pub clock: CompletionClock,
    pub mash_hold_seconds: Scalar,
}

/// What a start attempt did.
#[derive(Debug, PartialEq)]
pub enum StartOutcome {
    /// Nothing was attempted.
    Idle,
    /// The offered slot was wanted but failed its gate.
    Failed(InteractionFailed),
    /// The slot started; it either completed at once or left an active
    /// interaction behind.
    Started {
        started: InteractionStarted,
        completed: Option<InteractionCompleted>,
        stage_advanced: Option<InteractionStageAdvanced>,
        active: Option<ActiveInteraction>,
    },
}

/// The slot a start attempt would use: the focused target must exist and
/// hold the slot named by the current offer.
pub open spec fn start_slot(
    focus: FocusedInteraction,
    prompt_state: InteractionPromptState,
    target: Option<(&Interactable, &InteractionTarget)>,
) -> Option<int> {
    if focus.target is Some && prompt_state.offer is Some && target is Some {
        slot_position((target->0).1.slots@, prompt_state.offer->0.slot_id@)
    } else {
        None
    }
}

/// The record of the offer being auto-started.
pub open spec fn offer_record(prompt_state: InteractionPromptState) -> AutoStartedOffer {
    let offer = prompt_state.offer->0;
    AutoStartedOffer { target: offer.target, slot_id: offer.slot_id, stage_id: offer.stage_id }
}

/// Whether the current offer starts by itself: it is available, either the
/// runtime or the slot starts on focus, and it is not the offer already
/// auto-started.
pub open spec fn auto_start_requested(
    config: InteractionConfig,
    slot: InteractionSlot,
    prompt_state: InteractionPromptState,
    control: InteractorControlState,
) -> bool {
    &&& prompt_state.offer->0.availability is None
    &&& (config.auto_interact_on_focus || slot.auto_trigger_on_focus)
    &&& auto_view(control.auto_started_offer) != Some(offer_record(prompt_state)@)
}

/// Whether a start is wanted: confirm pressed this update, a buffered
/// confirm still pending, or an automatic start.
pub open spec fn start_wanted(
    config: InteractionConfig,
    slot: InteractionSlot,
    prompt_state: InteractionPromptState,
    control: InteractorControlState,
) -> bool {
    control.confirm_pressed || control.confirm_buffer_remaining.positive() || auto_start_requested(
        config,
        slot,
        prompt_state,
        control,
    )
}

/// The availability of the slot that a start tries, or why it is refused.
pub open spec fn start_verdict(
    rt: RuntimeView,
    actor: EntityId,
    interactor: Interactor,
    actor_tags: Seq<Seq<char>>,
    focus: FocusedInteraction,
    target: Option<(&Interactable, &InteractionTarget)>,
    target_tags: Seq<Seq<char>>,
    slot: InteractionSlot,
    facts: StartFacts,
) -> Option<InteractionAvailabilityReason> {
    gate_verdict(rt, actor, focus.target->0, interactor, *(target->0).0, slot, actor_tags, target_tags, facts.gate)
}

/// The runtime once a slot starts and its execution runs: an exclusive slot
/// is reserved for the actor; an instant execution completes; a toggle
/// flips the slot's toggle state and completes.
pub open spec fn spec_runtime_after_start(
    rt: RuntimeView,
    actor: EntityId,
    target: EntityId,
    slot: InteractionSlot,
    execution: InteractionExecution,
    stage_index: usize,
    clock: CompletionClock,
) -> RuntimeView {
    let key = (target, slot.id@);
    let reserved = if slot.reservation == InteractionReservationPolicy::Exclusive {
        RuntimeView { reservations: rt.reservations.insert(key, actor), ..rt }
    } else {
        rt
    };
    match execution {
        InteractionExecution::Instant => spec_after_completion(reserved, actor, target, slot, stage_index, clock),
        InteractionExecution::Toggle => spec_after_completion(
            RuntimeView { toggle_states: reserved.toggle_states.insert(key, !reserved.toggle_of(key)), ..reserved },
            actor,
            target,
            slot,
            stage_index,
            clock,
        ),
        _ => reserved,
    }
}

/// The offered slot that a start attempt would run: the focused target
/// still holds it, a start is wanted, and it passes its gate. A caller can
/// test this before [`try_start`] to learn which slot must be runnable.
pub fn start_would_run(
    runtime: &InteractionRuntimeState,
    config: &InteractionConfig,
    interactor_entity: EntityId,
    interactor: &Interactor,
    interactor_tags: Option<&InteractionTags>,
    focus: &FocusedInteraction,
    prompt_state: &InteractionPromptState,
    control: &InteractorControlState,
    target: Option<(&Interactable, &InteractionTarget)>,
    target_tags: Option<&InteractionTags>,
    facts: &StartFacts,
) -> (r: Option<usize>)
    requires
        start_slot(*focus, *prompt_state, target) matches Some(i) ==> facts.gate.fits((target->0).1.slots@[i]),
    ensures
        r == (match start_slot(*focus, *prompt_state, target) {
            Some(i) => {
                let slot = (target->0).1.slots@[i];
                if start_wanted(*config, slot, *prompt_state, *control) && start_verdict(
                    runtime@,
                    interactor_entity,
                    *interactor,
                    names_of(interactor_tags),
                    *focus,
                    target,
                    names_of(target_tags),
                    slot,
                    *facts,
                ) is None {
                    Some(i as usize)
                } else {
                    None
                }
            },
            None => None,
        }),
{
    let target_entity = match focus.target {
        Some(t) => t,
        None => return None,
    };
    let offer = match &prompt_state.offer {
        Some(o) => o,
        None => return None,
    };
    let (interactable, target_parts) = match target {
        Some(parts) => parts,
        None => return None,
    };
    let index = match find_slot(&target_parts.slots, &offer.slot_id) {
        Some(i) => i,
        None => return None,
    };
    let slot = &target_parts.slots[index];
    let auto_offer = AutoStartedOffer {
        target: offer.target,
        slot_id: offer.slot_id.clone(),
        stage_id: crate::components::clone_opt_stage_id(&offer.stage_id),
    };
    let already = match &control.auto_started_offer {
        Some(previous) => previous.same(&auto_offer),
        None => false,
    };
    let auto_requested = offer.availability.is_none() && (config.auto_interact_on_focus
        || slot.auto_trigger_on_focus) && !already;
    let wants_start = control.confirm_pressed || control.confirm_buffer_remaining.is_positive()
        || auto_requested;
    if !wants_start {
        return None;
    }
    let verdict = evaluate_slot(
        runtime,
        interactor_entity,
        target_entity,
        interactor,
        interactable,
        slot,
        interactor_tags,
        target_tags,
        &facts.gate,
    );
    if verdict.is_some() {
        None
    } else {
        Some(index)
    }
}

/// A start attempt for the actor's current offer.
///
/// Nothing happens unless the focused target exists and still holds the
/// offered slot and a start is wanted. A wanted slot is gated again; a
/// failure is reported. Otherwise an automatic start is recorded, the
/// slot's current stage runs with accessibility applied, an exclusive slot
/// is reserved, and the execution either completes at once (instant, toggle)
/// or becomes the active interaction, which consumes the confirm buffer.
pub fn try_start(
    runtime: &mut InteractionRuntimeState,
    config: &InteractionConfig,
    interactor_entity: EntityId,
    interactor: &Interactor,
    interactor_tags: Option<&InteractionTags>,
    focus: &FocusedInteraction,
    prompt_state: &InteractionPromptState,
    control: &mut InteractorControlState,
    target: Option<(&Interactable, &InteractionTarget)>,
    target_tags: Option<&InteractionTags>,
    facts: &StartFacts,
) -> (r: StartOutcome)
    requires
        start_slot(*focus, *prompt_state, target) matches Some(i) ==> {
            let slot = (target->0).1.slots@[i];
            &&& facts.gate.fits(slot)
            &&& (start_wanted(*config, slot, *prompt_state, *old(control)) && start_verdict(
                old(runtime)@,
                interactor_entity,
                *interactor,
                names_of(interactor_tags),
                *focus,
                target,
                names_of(target_tags),
                slot,
                *facts,
            ) is None) ==> slot.behavior.runnable()
        },
    ensures
        match start_slot(*focus, *prompt_state, target) {
            None => r == StartOutcome::Idle && final(runtime)@ == old(runtime)@ && *final(control) == *old(control),
            Some(i) => {
                let slot = (target->0).1.slots@[i];
                let target_entity = focus.target->0;
                if !start_wanted(*config, slot, *prompt_state, *old(control)) {
                    r == StartOutcome::Idle && final(runtime)@ == old(runtime)@ && *final(control) == *old(control)
                } else {
                    match start_verdict(
                        old(runtime)@,
                        interactor_entity,
                        *interactor,
                        names_of(interactor_tags),
                        *focus,
                        target,
                        names_of(target_tags),
                        slot,
                        *facts,
                    ) {
                        Some(reason) => {
                            &&& r == StartOutcome::Failed(
                                InteractionFailed {
                                    interactor: interactor_entity,
                                    target: Some(target_entity),
                                    slot_id: Some(slot.id),
                                    reason,
                                },
                            )
                            &&& final(runtime)@ == old(runtime)@
                            &&& *final(control) == *old(control)
                        },
                        None => {
                            let (planned, stage_id, stage_index) = spec_execution_for_slot(old(runtime)@, target_entity, slot);
                            let execution = spec_effective_execution(*config, planned, facts.mash_hold_seconds);
                            let auto = auto_start_requested(*config, slot, *prompt_state, *old(control));
                            let recorded = if auto {
                                InteractorControlState { auto_started_offer: Some(offer_record(*prompt_state)), ..*old(control) }
                            } else {
                                *old(control)
                            };
                            let key = (target_entity, slot.id@);
                            &&& final(runtime)@ == spec_runtime_after_start(
                                old(runtime)@,
                                interactor_entity,
                                target_entity,
                                slot,
                                execution,
                                stage_index,
                                facts.clock,
                            )
                            &&& r matches StartOutcome::Started { started, completed, stage_advanced, active }
                            &&& started == (InteractionStarted {
                                interactor: interactor_entity,
                                target: target_entity,
                                slot_id: slot.id,
                                stage_id,
                            })
                            &&& match execution {
                                InteractionExecution::Instant => {
                                    &&& completed == Some(spec_completed(interactor_entity, target_entity, slot, stage_id, None))
                                    &&& stage_advanced == spec_stage_advance(interactor_entity, target_entity, slot, stage_id, stage_index)
                                    &&& active.is_none()
                                    &&& *final(control) == recorded
                                },
                                InteractionExecution::Toggle => {
                                    let reserved = if slot.reservation == InteractionReservationPolicy::Exclusive {
                                        old(runtime)@.reservations.insert(key, interactor_entity)
                                    } else {
                                        old(runtime)@.reservations
                                    };
                                    &&& completed == Some(
                                        spec_completed(
                                            interactor_entity,
                                            target_entity,
                                            slot,
                                            stage_id,
                                            Some(!old(runtime)@.toggle_of(key)),
                                        ),
                                    )
                                    &&& stage_advanced == spec_stage_advance(interactor_entity, target_entity, slot, stage_id, stage_index)
                                    &&& active.is_none()
                                    &&& *final(control) == recorded
                                },
                                _ => {
                                    &&& completed.is_none()
                                    &&& stage_advanced.is_none()
                                    &&& active == Some(
                                        ActiveInteraction {
                                            target: target_entity,
                                            slot_id: slot.id,
                                            stage_id,
                                            execution,
                                            progress: Scalar::spec_zero(),
                                            started_at_seconds: facts.now,
                                            toggle_state: None,
                                            stage_index,
                                        },
                                    )
                                    &&& *final(control) == (InteractorControlState {
                                        confirm_buffer_remaining: Scalar::spec_zero(),
                                        ..recorded
                                    })
                                },
                            }
                        },
                    }
                }
            },
        },
{
    let target_entity = match focus.target {
        Some(t) => t,
        None => return StartOutcome::Idle,
    };
    let offer = match &prompt_state.offer {
        Some(o) => o,
        None => return StartOutcome::Idle,
    };
    let (interactable, target_parts) = match target {
        Some(parts) => parts,
        None => return StartOutcome::Idle,
    };
    let index = match find_slot(&target_parts.slots, &offer.slot_id) {
        Some(i) => i,
        None => return StartOutcome::Idle,
    };
    let slot = &target_parts.slots[index];
    let auto_offer = AutoStartedOffer {
        target: offer.target,
        slot_id: offer.slot_id.clone(),
        stage_id: crate::components::clone_opt_stage_id(&offer.stage_id),
    };
    let already = match &control.auto_started_offer {
        Some(previous) => previous.same(&auto_offer),
        None => false,
    };
    let auto_requested = offer.availability.is_none() && (config.auto_interact_on_focus
        || slot.auto_trigger_on_focus) && !already;
    let wants_start = control.confirm_pressed || control.confirm_buffer_remaining.is_positive()
        || auto_requested;
    if !wants_start {
        return StartOutcome::Idle;
    }
    if let Some(reason) = evaluate_slot(
        runtime,
        interactor_entity,
        target_entity,
        interactor,
        interactable,
        slot,
        interactor_tags,
        target_tags,
        &facts.gate,
    ) {
        return StartOutcome::Failed(
            InteractionFailed {
                interactor: interactor_entity,
                target: Some(target_entity),
                slot_id: Some(slot.id.clone()),
                reason,
            },
        );
    }
    if auto_requested {
        control.auto_started_offer = Some(auto_offer);
    }
    let (planned, stage_id, stage_index) = execution_for_slot(runtime, target_entity, slot);
    let execution = effective_execution(config, planned, facts.mash_hold_seconds);
    let started = InteractionStarted {
        interactor: interactor_entity,
        target: target_entity,
        slot_id: slot.id.clone(),
        stage_id: crate::components::clone_opt_stage_id(&stage_id),
    };
    let key = TargetSlotKey::new(target_entity, &slot.id);
    if matches!(slot.reservation, InteractionReservationPolicy::Exclusive) {
        runtime.reservations.insert(key.clone(), interactor_entity);
    }
    proof {
        crate::util::lemma_stage_index_bounded(old(runtime)@, target_entity, *slot);
    }
    match execution {
        InteractionExecution::Instant => {
            let (completed, advanced) = apply_completion(
                runtime,
                interactor_entity,
                target_entity,
                slot,
                stage_id,
                stage_index,
                None,
                facts.clock,
            );
            StartOutcome::Started { started, completed: Some(completed), stage_advanced: advanced, active: None }
        },
        InteractionExecution::Toggle => {
            let previous = match runtime.toggle_states.get(&key) {
                Some(v) => *v,
                None => false,
            };
            let next = !previous;
            runtime.toggle_states.insert(key, next);
            let (completed, advanced) = apply_completion(
                runtime,
                interactor_entity,
                target_entity,
                slot,
                stage_id,
                stage_index,
                Some(next),
                facts.clock,
            );
            StartOutcome::Started { started, completed: Some(completed), stage_advanced: advanced, active: None }
        },
        _ => {
            let active = ActiveInteraction {
                target: target_entity,
                slot_id: slot.id.clone(),
                stage_id,
                execution,
                progress: Scalar::zero(),
                started_at_seconds: facts.now,
                toggle_state: None,
                stage_index,
            };
            control.confirm_buffer_remaining = Scalar::zero();
            StartOutcome::Started { started, completed: None, stage_advanced: None, active: Some(active) }
        },
    }
}

} // verus!
