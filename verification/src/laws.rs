//! Properties that span several operations of the runtime.

use vstd::prelude::*;

use crate::components::{
    ActiveInteraction, FocusedInteraction, InteractionAvailabilityReason, InteractionBehavior,
    FocusSource, InteractionCancelReason, InteractionConsumption, InteractionExecution, InteractionOffer,
    InteractionPromptState, InteractionReservationPolicy, InteractionSlot, InteractionTarget,
    Interactable, Interactor, LineOfSightPolicy, PromptSuppressionPolicy, SequenceAdvanceMode,
};
use crate::config::InteractionConfig;
use crate::prompt::{opt_offers_match, opt_stage_text};
use crate::scalar::Scalar;
use crate::control::InteractorControlState;
use crate::execution::{
    next_stage_index, spec_after_pass, spec_next_step, ActorStep, spec_after_completion, spec_after_release, spec_cancel_reason,
    spec_effective_execution, spec_runtime_after_start, start_wanted, CompletionClock,
};
use crate::gating::{
    available_slots, failed_at, first_available_at, gate_verdict, missing_at, present_at, slot_before,
    slot_position, spec_offer, spec_offer_choice, GateFacts, PredicateOutcome,
};
use crate::ids::{EntityId, InteractionTag};
use crate::order::sorts;
use crate::runtime::RuntimeView;
use crate::util::channels_compatible;

verus! {

/// Two toggle completions of the same slot, by any actors, leave its toggle
/// state where it was.
pub proof fn toggle_twice_restores(
    rt: RuntimeView,
    first: EntityId,
    second: EntityId,
    target: EntityId,
    slot: InteractionSlot,
    first_index: usize,
    second_index: usize,
    first_clock: CompletionClock,
    second_clock: CompletionClock,
)
    ensures
        ({
            let once = spec_runtime_after_start(rt, first, target, slot, InteractionExecution::Toggle, first_index, first_clock);
            let twice = spec_runtime_after_start(once, second, target, slot, InteractionExecution::Toggle, second_index, second_clock);
            &&& once.toggle_of((target, slot.id@)) == !rt.toggle_of((target, slot.id@))
            &&& twice.toggle_of((target, slot.id@)) == rt.toggle_of((target, slot.id@))
        }),
{
}

/// The number of the stage reached after `steps` completions from stage
/// `index` of a sequence of `len` stages.
pub open spec fn stage_after(mode: SequenceAdvanceMode, index: usize, len: usize, steps: nat) -> usize
    decreases steps,
{
    if steps == 0 {
        index
    } else {
        next_stage_index(mode, stage_after(mode, index, len, (steps - 1) as nat), len)
    }
}

proof fn loop_stage_after(index: usize, len: usize, steps: nat)
    requires
        0 < len < usize::MAX,
        index < len,
    ensures
        stage_after(SequenceAdvanceMode::Loop, index, len, steps) == (index + steps) % (len as int),
    decreases steps,
{
    if steps > 0 {
        loop_stage_after(index, len, (steps - 1) as nat);
        let prev = stage_after(SequenceAdvanceMode::Loop, index, len, (steps - 1) as nat);
        let m = len as int;
        let x = index + steps - 1;
        assert(prev == x % m);
        vstd::arithmetic::div_mod::lemma_add_mod_noop_right(1, x, m);
        assert((1 + (x % m)) % m == (1 + x) % m);
        assert(prev + 1 == 1 + (x % m));
        assert((prev + 1) % m == (index + steps) % m);
        assert(0 <= (prev + 1) % m < m);
        assert(next_stage_index(SequenceAdvanceMode::Loop, prev, len) == (prev + 1) % m);
        assert(stage_after(SequenceAdvanceMode::Loop, index, len, steps) == next_stage_index(SequenceAdvanceMode::Loop, prev, len));
    } else {
        vstd::arithmetic::div_mod::lemma_small_mod(index as nat, len as nat);
    }
}

/// A looping sequence comes back to the stage it started from after one
/// completion per stage.
pub proof fn loop_sequence_cycles(index: usize, len: usize)
    requires
        0 < len < usize::MAX,
        index < len,
    ensures
        stage_after(SequenceAdvanceMode::Loop, index, len, len as nat) == index,
{
    loop_stage_after(index, len, len as nat);
    vstd::arithmetic::div_mod::lemma_add_mod_noop(index as int, len as int, len as int);
    vstd::arithmetic::div_mod::lemma_mod_self_0(len as int);
    vstd::arithmetic::div_mod::lemma_small_mod(index as nat, len as nat);
}

/// A sequence that stops at its last stage moves one stage per completion
/// until the last stage, then stays there.
pub proof fn stop_at_last_settles(index: usize, len: usize, steps: nat)
    requires
        0 < len < usize::MAX,
        index < len,
    ensures
        stage_after(SequenceAdvanceMode::StopAtLast, index, len, steps) == (if index + steps < len - 1 {
            index + steps
        } else {
            len - 1
        }),
    decreases steps,
{
    if steps > 0 {
        stop_at_last_settles(index, len, (steps - 1) as nat);
    }
}

/// Once a slot that is used up globally completes, every actor that can see
/// the enabled target is told the slot is consumed.
pub proof fn once_global_consumes_for_everyone(
    rt: RuntimeView,
    actor: EntityId,
    other: EntityId,
    target: EntityId,
    slot: InteractionSlot,
    stage_index: usize,
    clock: CompletionClock,
    interactor: Interactor,
    interactable: Interactable,
    actor_tags: Seq<Seq<char>>,
    target_tags: Seq<Seq<char>>,
    facts: GateFacts,
)
    requires
        slot.availability.consumption == InteractionConsumption::OnceGlobal,
        interactable.enabled,
        slot.availability.enabled,
        channels_compatible(interactor.channels@, interactable.channels@),
    ensures
        gate_verdict(
            spec_after_completion(rt, actor, target, slot, stage_index, clock),
            other,
            target,
            interactor,
            interactable,
            slot,
            actor_tags,
            target_tags,
            facts,
        ) == Some(InteractionAvailabilityReason::Consumed),
{
}

/// A slot used up per actor is consumed for the actor that completed it and
/// for no one else.
pub proof fn once_per_actor_consumes_for_that_actor(
    rt: RuntimeView,
    actor: EntityId,
    other: EntityId,
    target: EntityId,
    slot: InteractionSlot,
    stage_index: usize,
    clock: CompletionClock,
    interactor: Interactor,
    interactable: Interactable,
    actor_tags: Seq<Seq<char>>,
    target_tags: Seq<Seq<char>>,
    facts: GateFacts,
)
    requires
        slot.availability.consumption == InteractionConsumption::OncePerActor,
        interactable.enabled,
        slot.availability.enabled,
        channels_compatible(interactor.channels@, interactable.channels@),
        other != actor,
    ensures
        gate_verdict(
            spec_after_completion(rt, actor, target, slot, stage_index, clock),
            actor,
            target,
            interactor,
            interactable,
            slot,
            actor_tags,
            target_tags,
            facts,
        ) == Some(InteractionAvailabilityReason::Consumed),
        spec_after_completion(rt, actor, target, slot, stage_index, clock).consumed_per_actor.contains(
            (other, (target, slot.id@)),
        ) == rt.consumed_per_actor.contains((other, (target, slot.id@))),
{
}

/// Completing a slot starts only the completing actor's own cooldown; other
/// actors' cooldowns on the slot are untouched.
pub proof fn per_actor_cooldown_is_private(
    rt: RuntimeView,
    actor: EntityId,
    other: EntityId,
    target: EntityId,
    slot: InteractionSlot,
    stage_index: usize,
    clock: CompletionClock,
)
    requires
        other != actor,
    ensures
        ({
            let after = spec_after_completion(rt, actor, target, slot, stage_index, clock);
            let theirs = (other, (target, slot.id@));
            &&& after.per_actor_cooldowns.dom().contains(theirs) == rt.per_actor_cooldowns.dom().contains(theirs)
            &&& rt.per_actor_cooldowns.dom().contains(theirs) ==> after.per_actor_cooldowns[theirs]
                == rt.per_actor_cooldowns[theirs]
        }),
{
}

/// A completed slot is never left reserved.
pub proof fn completion_releases_reservation(
    rt: RuntimeView,
    actor: EntityId,
    target: EntityId,
    slot: InteractionSlot,
    stage_index: usize,
    clock: CompletionClock,
)
    ensures
        !spec_after_completion(rt, actor, target, slot, stage_index, clock).reservations.dom().contains(
            (target, slot.id@),
        ),
{
}

/// Starting a timed exclusive slot reserves it for the actor, and every
/// other actor that can see the enabled target is then refused with
/// `ReservedByOther`.
pub proof fn exclusive_start_reserves(
    rt: RuntimeView,
    actor: EntityId,
    other: EntityId,
    target: EntityId,
    slot: InteractionSlot,
    execution: InteractionExecution,
    stage_index: usize,
    clock: CompletionClock,
    interactor: Interactor,
    interactable: Interactable,
    actor_tags: Seq<Seq<char>>,
    target_tags: Seq<Seq<char>>,
    facts: GateFacts,
)
    requires
        slot.reservation == InteractionReservationPolicy::Exclusive,
        execution.is_timed(),
        other != actor,
        interactable.enabled,
        slot.availability.enabled,
        channels_compatible(interactor.channels@, interactable.channels@),
    ensures
        ({
            let after = spec_runtime_after_start(rt, actor, target, slot, execution, stage_index, clock);
            &&& after.reservations[(target, slot.id@)] == actor
            &&& gate_verdict(after, other, target, interactor, interactable, slot, actor_tags, target_tags, facts)
                == Some(InteractionAvailabilityReason::ReservedByOther)
        }),
{
}

/// Only the holder of a reservation can release it.
pub proof fn release_needs_owner(rt: RuntimeView, actor: EntityId, target: EntityId, slot_id: Seq<char>)
    requires
        !(rt.reservations.dom().contains((target, slot_id)) && rt.reservations[(target, slot_id)] == actor),
    ensures
        spec_after_release(rt, actor, target, slot_id) == rt,
{
}

/// A pending external cancellation stops an active interaction before any
/// other check, with the injected reason.
pub proof fn external_cancel_first(
    rt: RuntimeView,
    actor: EntityId,
    active: ActiveInteraction,
    focus: FocusedInteraction,
    control: InteractorControlState,
    target: Option<(&Interactable, &InteractionTarget)>,
    target_tags: Seq<Seq<char>>,
    interactor: Option<&Interactor>,
    actor_tags: Seq<Seq<char>>,
    facts: GateFacts,
)
    requires
        rt.pending_external_cancels.dom().contains(actor),
    ensures
        spec_cancel_reason(rt, actor, active, focus, control, target, target_tags, interactor, actor_tags, facts)
            == Some(rt.pending_external_cancels[actor]),
{
}

/// An actor with an active interaction never starts another in a pass.
pub proof fn busy_actor_never_starts(active: ActiveInteraction, cancel: Option<InteractionCancelReason>)
    ensures
        spec_next_step(Some(active), cancel) != ActorStep::TryStart,
{
}

/// In an execution pass, an actor with an active interaction and a pending
/// external cancellation is cancelled with the injected reason, and once the
/// pass is over no pending cancellation remains, for any actor.
pub proof fn external_cancels_consumed_by_pass(
    rt: RuntimeView,
    actor: EntityId,
    active: ActiveInteraction,
    focus: FocusedInteraction,
    control: InteractorControlState,
    target: Option<(&Interactable, &InteractionTarget)>,
    target_tags: Seq<Seq<char>>,
    interactor: Option<&Interactor>,
    actor_tags: Seq<Seq<char>>,
    facts: GateFacts,
    any: EntityId,
)
    requires
        rt.pending_external_cancels.dom().contains(actor),
    ensures
        spec_next_step(
            Some(active),
            spec_cancel_reason(rt, actor, active, focus, control, target, target_tags, interactor, actor_tags, facts),
        ) == ActorStep::Cancel(rt.pending_external_cancels[actor]),
        !spec_after_pass(rt).pending_external_cancels.dom().contains(any),
{
}

/// An explicit cancel stops an active interaction whose target and slot
/// still exist, whatever else holds.
pub proof fn explicit_cancel_stops(
    rt: RuntimeView,
    actor: EntityId,
    active: ActiveInteraction,
    focus: FocusedInteraction,
    control: InteractorControlState,
    target: Option<(&Interactable, &InteractionTarget)>,
    target_tags: Seq<Seq<char>>,
    interactor: Option<&Interactor>,
    actor_tags: Seq<Seq<char>>,
    facts: GateFacts,
)
    requires
        !rt.pending_external_cancels.dom().contains(actor),
        target is Some,
        interactor is Some,
        slot_position((target->0).1.slots@, active.slot_id@) is Some,
        control.cancel_requested,
    ensures
        spec_cancel_reason(rt, actor, active, focus, control, target, target_tags, interactor, actor_tags, facts)
            == Some(InteractionCancelReason::ExplicitCancel),
{
}

/// Releasing the input only ever cancels a hold.
pub proof fn release_cancels_only_holds(
    rt: RuntimeView,
    actor: EntityId,
    active: ActiveInteraction,
    focus: FocusedInteraction,
    control: InteractorControlState,
    target: Option<(&Interactable, &InteractionTarget)>,
    target_tags: Seq<Seq<char>>,
    interactor: Option<&Interactor>,
    actor_tags: Seq<Seq<char>>,
    facts: GateFacts,
)
    requires
        !rt.pending_external_cancels.dom().contains(actor),
    ensures
        spec_cancel_reason(rt, actor, active, focus, control, target, target_tags, interactor, actor_tags, facts)
            == Some(InteractionCancelReason::InputReleased) ==> active.execution is Hold && control.confirm_released,
{
}

/// An explicit slot selection names the slot that is offered.
pub proof fn selection_wins(
    rt: RuntimeView,
    actor: EntityId,
    target: EntityId,
    interactor: Interactor,
    interactable: Interactable,
    slots: Seq<InteractionSlot>,
    actor_tags: Seq<Seq<char>>,
    target_tags: Seq<Seq<char>>,
    facts: Seq<GateFacts>,
    focus: FocusedInteraction,
    control: InteractorControlState,
    order: Seq<usize>,
    i: int,
)
    requires
        control.select_slot is Some,
        slot_position(slots, control.select_slot->0@) == Some(i),
    ensures
        spec_offer_choice(rt, actor, target, interactor, interactable, slots, actor_tags, target_tags, facts, focus, control, order)
            == i,
{
}

/// With nothing asked for, the offer is the highest-priority available slot:
/// every slot ranked before it is unavailable.
pub proof fn best_available_is_offered(
    rt: RuntimeView,
    actor: EntityId,
    target: EntityId,
    interactor: Interactor,
    interactable: Interactable,
    slots: Seq<InteractionSlot>,
    actor_tags: Seq<Seq<char>>,
    target_tags: Seq<Seq<char>>,
    facts: Seq<GateFacts>,
    focus: FocusedInteraction,
    control: InteractorControlState,
    order: Seq<usize>,
    j: int,
)
    requires
        slots.len() <= usize::MAX,
        sorts(order, slots.len() as int, slot_before(slots)),
        control.select_slot is None,
        control.cycle_delta == 0,
        focus.slot_id is None,
        0 <= j < slots.len(),
        available_slots(rt, actor, target, interactor, interactable, slots, actor_tags, target_tags, facts)(j),
    ensures
        ({
            let c = spec_offer_choice(rt, actor, target, interactor, interactable, slots, actor_tags, target_tags, facts, focus, control, order);
            let available = available_slots(rt, actor, target, interactor, interactable, slots, actor_tags, target_tags, facts);
            &&& available(c)
            &&& forall|k: int| 0 <= k < slots.len() && #[trigger] slot_before(slots)(k, c) ==> !available(k)
        }),
{
    let available = available_slots(rt, actor, target, interactor, interactable, slots, actor_tags, target_tags, facts);
    assert(order.contains(j as usize));
    let pj = choose|p: int| 0 <= p < order.len() && order[p] == j as usize;
    assert(available(order[pj] as int));
    lemma_first_available_exists(order, available, pj);
    let p = choose|p: int| first_available_at(order, available, p);
    let c = order[p] as int;
    assert forall|k: int| 0 <= k < slots.len() && #[trigger] slot_before(slots)(k, c) implies !available(k) by {
        assert(order.contains(k as usize));
        let pk = choose|q: int| 0 <= q < order.len() && order[q] == k as usize;
        if pk >= p {
            if pk > p {
                assert(slot_before(slots)(c, k));
            }
        }
    }
}

proof fn lemma_first_available_exists(order: Seq<usize>, available: spec_fn(int) -> bool, p: int)
    requires
        0 <= p < order.len(),
        available(order[p] as int),
    ensures
        exists|q: int| first_available_at(order, available, q),
    decreases p,
{
    if forall|q: int| 0 <= q < p ==> !available(#[trigger] order[q] as int) {
        assert(first_available_at(order, available, p));
    } else {
        let q = choose|q: int| 0 <= q < p && available(#[trigger] order[q] as int);
        lemma_first_available_exists(order, available, q);
    }
}

/// With nothing asked for and every slot blocked, the highest-priority slot
/// is still offered (with its reason).
pub proof fn blocked_target_offers_top_slot(
    rt: RuntimeView,
    actor: EntityId,
    target: EntityId,
    interactor: Interactor,
    interactable: Interactable,
    slots: Seq<InteractionSlot>,
    actor_tags: Seq<Seq<char>>,
    target_tags: Seq<Seq<char>>,
    facts: Seq<GateFacts>,
    focus: FocusedInteraction,
    control: InteractorControlState,
    order: Seq<usize>,
)
    requires
        slots.len() <= usize::MAX,
        sorts(order, slots.len() as int, slot_before(slots)),
        slots.len() > 0,
        control.select_slot is None,
        control.cycle_delta == 0,
        focus.slot_id is None,
        forall|j: int| 0 <= j < slots.len() ==> !#[trigger] available_slots(rt, actor, target, interactor, interactable, slots, actor_tags, target_tags, facts)(j),
    ensures
        ({
            let c = spec_offer_choice(rt, actor, target, interactor, interactable, slots, actor_tags, target_tags, facts, focus, control, order);
            &&& c == order[0] as int
            &&& forall|k: int| 0 <= k < slots.len() && k != c ==> #[trigger] slot_before(slots)(c, k)
        }),
{
    let available = available_slots(rt, actor, target, interactor, interactable, slots, actor_tags, target_tags, facts);
    assert forall|p: int| !first_available_at(order, available, p) by {
        if 0 <= p < order.len() {
            assert(!available(order[p] as int));
        }
    }
    assert forall|k: int| 0 <= k < slots.len() && k != order[0] as int implies #[trigger] slot_before(slots)(order[0] as int, k) by {
        crate::gating::slot_before_is_strict_total(slots);
        crate::order::first_is_least(order, slots.len() as int, slot_before(slots), k as usize);
    }
}


/// Every check that comes before line of sight passes: the target and slot
/// are enabled, the channels meet, nobody reserves the slot, it is not used
/// up, no cooldown runs, every required tag is carried and no blocked tag
/// is, and the target is in range.
pub open spec fn checks_before_sight_pass(
    rt: RuntimeView,
    actor: EntityId,
    target: EntityId,
    interactor: Interactor,
    interactable: Interactable,
    slot: InteractionSlot,
    actor_tags: Seq<Seq<char>>,
    target_tags: Seq<Seq<char>>,
    facts: GateFacts,
) -> bool {
    let key = (target, slot.id@);
    let rules = slot.availability;
    &&& interactable.enabled
    &&& rules.enabled
    &&& channels_compatible(interactor.channels@, interactable.channels@)
    &&& !rt.reservations.dom().contains(key)
    &&& !rt.consumed_global.contains(key)
    &&& !rt.consumed_per_actor.contains((actor, key))
    &&& facts.shared_cooldown_remaining is None
    &&& facts.per_actor_cooldown_remaining is None
    &&& forall|i: int| 0 <= i < rules.required_actor_tags@.len() ==> actor_tags.contains(#[trigger] rules.required_actor_tags@[i]@)
    &&& forall|i: int| 0 <= i < rules.blocked_actor_tags@.len() ==> !actor_tags.contains(#[trigger] rules.blocked_actor_tags@[i]@)
    &&& forall|i: int| 0 <= i < rules.required_target_tags@.len() ==> target_tags.contains(#[trigger] rules.required_target_tags@[i]@)
    &&& forall|i: int| 0 <= i < rules.blocked_target_tags@.len() ==> !target_tags.contains(#[trigger] rules.blocked_target_tags@[i]@)
    &&& !facts.out_of_range
}

/// A blocked segment refuses a slot whose earlier checks pass exactly when
/// line of sight is required: the target demands it, or it defers to the
/// actor and the actor requires it. A target that ignores line of sight is
/// never refused for it.
pub proof fn blocked_sight_refuses_exactly_when_required(
    rt: RuntimeView,
    actor: EntityId,
    target: EntityId,
    interactor: Interactor,
    interactable: Interactable,
    slot: InteractionSlot,
    actor_tags: Seq<Seq<char>>,
    target_tags: Seq<Seq<char>>,
    facts: GateFacts,
)
    requires
        checks_before_sight_pass(rt, actor, target, interactor, interactable, slot, actor_tags, target_tags, facts),
        facts.line_of_sight_blocked,
    ensures
        (gate_verdict(rt, actor, target, interactor, interactable, slot, actor_tags, target_tags, facts)
            == Some(InteractionAvailabilityReason::LineOfSightBlocked)) <==> (
        interactable.line_of_sight_policy == LineOfSightPolicy::Require || (interactable.line_of_sight_policy
            == LineOfSightPolicy::UseInteractorSetting && interactor.require_line_of_sight)),
{
    let rules = slot.availability;
    assert(!exists|i: int| missing_at(rules.required_actor_tags@, actor_tags, i)) by {
        if exists|i: int| missing_at(rules.required_actor_tags@, actor_tags, i) {
            let i = choose|i: int| missing_at(rules.required_actor_tags@, actor_tags, i);
            assert(actor_tags.contains(rules.required_actor_tags@[i]@));
        }
    }
    assert(!exists|i: int| present_at(rules.blocked_actor_tags@, actor_tags, i)) by {
        if exists|i: int| present_at(rules.blocked_actor_tags@, actor_tags, i) {
            let i = choose|i: int| present_at(rules.blocked_actor_tags@, actor_tags, i);
            assert(!actor_tags.contains(rules.blocked_actor_tags@[i]@));
        }
    }
    assert(!exists|i: int| missing_at(rules.required_target_tags@, target_tags, i)) by {
        if exists|i: int| missing_at(rules.required_target_tags@, target_tags, i) {
            let i = choose|i: int| missing_at(rules.required_target_tags@, target_tags, i);
            assert(target_tags.contains(rules.required_target_tags@[i]@));
        }
    }
    assert(!exists|i: int| present_at(rules.blocked_target_tags@, target_tags, i)) by {
        if exists|i: int| present_at(rules.blocked_target_tags@, target_tags, i) {
            let i = choose|i: int| present_at(rules.blocked_target_tags@, target_tags, i);
            assert(!target_tags.contains(rules.blocked_target_tags@[i]@));
        }
    }
}

/// With no selection and no cycle step, the slot chosen before stays
/// chosen, whatever the priorities and availabilities of the slots.
pub proof fn chosen_slot_is_sticky(
    rt: RuntimeView,
    actor: EntityId,
    target: EntityId,
    interactor: Interactor,
    interactable: Interactable,
    slots: Seq<InteractionSlot>,
    actor_tags: Seq<Seq<char>>,
    target_tags: Seq<Seq<char>>,
    facts: Seq<GateFacts>,
    focus: FocusedInteraction,
    control: InteractorControlState,
    order: Seq<usize>,
    i: int,
)
    requires
        control.select_slot is None,
        control.cycle_delta == 0,
        focus.slot_id is Some,
        slot_position(slots, focus.slot_id->0@) == Some(i),
    ensures
        spec_offer_choice(rt, actor, target, interactor, interactable, slots, actor_tags, target_tags, facts, focus, control, order)
            == i,
        slots[i].id@ == focus.slot_id->0@,
{
}

/// A slot whose policy cancels on focus loss is cancelled as soon as the
/// actor's focus is not on the active target, including when the actor
/// focuses nothing, unless an external, explicit, or release cancel comes
/// first.
pub proof fn focus_away_cancels(
    rt: RuntimeView,
    actor: EntityId,
    active: ActiveInteraction,
    focus: FocusedInteraction,
    control: InteractorControlState,
    target: Option<(&Interactable, &InteractionTarget)>,
    target_tags: Seq<Seq<char>>,
    interactor: Option<&Interactor>,
    actor_tags: Seq<Seq<char>>,
    facts: GateFacts,
    i: int,
)
    requires
        !rt.pending_external_cancels.dom().contains(actor),
        target is Some,
        interactor is Some,
        slot_position((target->0).1.slots@, active.slot_id@) == Some(i),
        !control.cancel_requested,
        !control.confirm_released,
        (target->0).1.slots@[i].cancellation.on_focus_loss,
        focus.target != Some(active.target),
    ensures
        spec_cancel_reason(rt, actor, active, focus, control, target, target_tags, interactor, actor_tags, facts)
            == Some(InteractionCancelReason::FocusLost),
{
}

/// When the runtime starts focused offers by itself, an available offer that
/// was not already auto-started is wanted without any confirm input, for
/// every slot, whatever the slot's own auto-trigger flag says.
pub proof fn global_auto_interact_starts(
    config: InteractionConfig,
    slot: InteractionSlot,
    prompt_state: InteractionPromptState,
    control: InteractorControlState,
)
    requires
        config.auto_interact_on_focus,
        prompt_state.offer is Some,
        prompt_state.offer->0.availability is None,
        control.auto_started_offer is None,
    ensures
        start_wanted(config, slot, prompt_state, control),
{
}

/// Two offers that match agree on the target, the slot, whether the slot
/// is available, the suppression, and the focus source; so an offer whose
/// slot becomes available or unavailable is always reported anew.
pub proof fn matching_offers_agree(a: InteractionOffer, b: InteractionOffer)
    requires
        opt_offers_match(Some(a), Some(b)),
    ensures
        a.target == b.target,
        a.slot_id@ == b.slot_id@,
        a.availability is Some <==> b.availability is Some,
        a.suppressed == b.suppressed,
        a.source == b.source,
{
}


/// Every availability check passes: both enabled, channels meet, no
/// exclusive reservation by someone else, not used up under the slot's
/// consumption, no cooldown running, every required tag carried and no
/// blocked tag, in range, no blocked segment where sight is required, and
/// every predicate accepts.
pub open spec fn gate_passes(
    rt: RuntimeView,
    actor: EntityId,
    target: EntityId,
    interactor: Interactor,
    interactable: Interactable,
    slot: InteractionSlot,
    actor_tags: Seq<Seq<char>>,
    target_tags: Seq<Seq<char>>,
    facts: GateFacts,
) -> bool {
    let key = (target, slot.id@);
    let rules = slot.availability;
    let policy = interactable.line_of_sight_policy;
    &&& interactable.enabled
    &&& rules.enabled
    &&& channels_compatible(interactor.channels@, interactable.channels@)
    &&& !(rt.reservations.dom().contains(key) && rt.reservations[key] != actor && slot.reservation
        == InteractionReservationPolicy::Exclusive)
    &&& !(rt.consumed_global.contains(key) && rules.consumption == InteractionConsumption::OnceGlobal)
    &&& !(rt.consumed_per_actor.contains((actor, key)) && rules.consumption == InteractionConsumption::OncePerActor)
    &&& facts.shared_cooldown_remaining is None
    &&& facts.per_actor_cooldown_remaining is None
    &&& forall|i: int| 0 <= i < rules.required_actor_tags@.len() ==> actor_tags.contains(#[trigger] rules.required_actor_tags@[i]@)
    &&& forall|i: int| 0 <= i < rules.blocked_actor_tags@.len() ==> !actor_tags.contains(#[trigger] rules.blocked_actor_tags@[i]@)
    &&& forall|i: int| 0 <= i < rules.required_target_tags@.len() ==> target_tags.contains(#[trigger] rules.required_target_tags@[i]@)
    &&& forall|i: int| 0 <= i < rules.blocked_target_tags@.len() ==> !target_tags.contains(#[trigger] rules.blocked_target_tags@[i]@)
    &&& !facts.out_of_range
    &&& !(facts.line_of_sight_blocked && (policy == LineOfSightPolicy::Require || (policy
        == LineOfSightPolicy::UseInteractorSetting && interactor.require_line_of_sight)))
    &&& forall|i: int| 0 <= i < facts.predicate_outcomes@.len() ==> #[trigger] facts.predicate_outcomes@[i] is Ok
}

proof fn lemma_first_missing(required: Seq<InteractionTag>, have: Seq<Seq<char>>, i: int)
    requires
        0 <= i < required.len(),
        !have.contains(required[i]@),
    ensures
        exists|j: int| missing_at(required, have, j),
    decreases i,
{
    if forall|j: int| 0 <= j < i ==> have.contains(#[trigger] required[j]@) {
        assert(missing_at(required, have, i));
    } else {
        let j = choose|j: int| 0 <= j < i && !have.contains(#[trigger] required[j]@);
        lemma_first_missing(required, have, j);
    }
}

proof fn lemma_first_present(blocked: Seq<InteractionTag>, have: Seq<Seq<char>>, i: int)
    requires
        0 <= i < blocked.len(),
        have.contains(blocked[i]@),
    ensures
        exists|j: int| present_at(blocked, have, j),
    decreases i,
{
    if forall|j: int| 0 <= j < i ==> !have.contains(#[trigger] blocked[j]@) {
        assert(present_at(blocked, have, i));
    } else {
        let j = choose|j: int| 0 <= j < i && have.contains(#[trigger] blocked[j]@);
        lemma_first_present(blocked, have, j);
    }
}

proof fn lemma_first_failed(outcomes: Seq<PredicateOutcome>, i: int)
    requires
        0 <= i < outcomes.len(),
        outcomes[i] is Err,
    ensures
        exists|j: int| failed_at(outcomes, j),
    decreases i,
{
    if forall|j: int| 0 <= j < i ==> #[trigger] outcomes[j] is Ok {
        assert(failed_at(outcomes, i));
    } else {
        let j = choose|j: int| 0 <= j < i && !(#[trigger] outcomes[j] is Ok);
        lemma_first_failed(outcomes, j);
    }
}

/// A slot is available exactly when every availability check passes.
pub proof fn available_exactly_when_every_check_passes(
    rt: RuntimeView,
    actor: EntityId,
    target: EntityId,
    interactor: Interactor,
    interactable: Interactable,
    slot: InteractionSlot,
    actor_tags: Seq<Seq<char>>,
    target_tags: Seq<Seq<char>>,
    facts: GateFacts,
)
    ensures
        gate_verdict(rt, actor, target, interactor, interactable, slot, actor_tags, target_tags, facts) is None
            <==> gate_passes(rt, actor, target, interactor, interactable, slot, actor_tags, target_tags, facts),
{
    let rules = slot.availability;
    if gate_passes(rt, actor, target, interactor, interactable, slot, actor_tags, target_tags, facts) {
        assert(!exists|i: int| missing_at(rules.required_actor_tags@, actor_tags, i)) by {
            if exists|i: int| missing_at(rules.required_actor_tags@, actor_tags, i) {
                let i = choose|i: int| missing_at(rules.required_actor_tags@, actor_tags, i);
                assert(actor_tags.contains(rules.required_actor_tags@[i]@));
            }
        }
        assert(!exists|i: int| present_at(rules.blocked_actor_tags@, actor_tags, i)) by {
            if exists|i: int| present_at(rules.blocked_actor_tags@, actor_tags, i) {
                let i = choose|i: int| present_at(rules.blocked_actor_tags@, actor_tags, i);
                assert(!actor_tags.contains(rules.blocked_actor_tags@[i]@));
            }
        }
        assert(!exists|i: int| missing_at(rules.required_target_tags@, target_tags, i)) by {
            if exists|i: int| missing_at(rules.required_target_tags@, target_tags, i) {
                let i = choose|i: int| missing_at(rules.required_target_tags@, target_tags, i);
                assert(target_tags.contains(rules.required_target_tags@[i]@));
            }
        }
        assert(!exists|i: int| present_at(rules.blocked_target_tags@, target_tags, i)) by {
            if exists|i: int| present_at(rules.blocked_target_tags@, target_tags, i) {
                let i = choose|i: int| present_at(rules.blocked_target_tags@, target_tags, i);
                assert(!target_tags.contains(rules.blocked_target_tags@[i]@));
            }
        }
        assert(!exists|i: int| failed_at(facts.predicate_outcomes@, i)) by {
            if exists|i: int| failed_at(facts.predicate_outcomes@, i) {
                let i = choose|i: int| failed_at(facts.predicate_outcomes@, i);
                assert(facts.predicate_outcomes@[i] is Ok);
            }
        }
    }
    if gate_verdict(rt, actor, target, interactor, interactable, slot, actor_tags, target_tags, facts) is None {
        assert forall|i: int| 0 <= i < rules.required_actor_tags@.len() implies actor_tags.contains(
            #[trigger] rules.required_actor_tags@[i]@,
        ) by {
            if !actor_tags.contains(rules.required_actor_tags@[i]@) {
                lemma_first_missing(rules.required_actor_tags@, actor_tags, i);
            }
        }
        assert forall|i: int| 0 <= i < rules.blocked_actor_tags@.len() implies !actor_tags.contains(
            #[trigger] rules.blocked_actor_tags@[i]@,
        ) by {
            if actor_tags.contains(rules.blocked_actor_tags@[i]@) {
                lemma_first_present(rules.blocked_actor_tags@, actor_tags, i);
            }
        }
        assert forall|i: int| 0 <= i < rules.required_target_tags@.len() implies target_tags.contains(
            #[trigger] rules.required_target_tags@[i]@,
        ) by {
            if !target_tags.contains(rules.required_target_tags@[i]@) {
                lemma_first_missing(rules.required_target_tags@, target_tags, i);
            }
        }
        assert forall|i: int| 0 <= i < rules.blocked_target_tags@.len() implies !target_tags.contains(
            #[trigger] rules.blocked_target_tags@[i]@,
        ) by {
            if target_tags.contains(rules.blocked_target_tags@[i]@) {
                lemma_first_present(rules.blocked_target_tags@, target_tags, i);
            }
        }
        assert forall|i: int| 0 <= i < facts.predicate_outcomes@.len() implies #[trigger] facts.predicate_outcomes@[i] is Ok by {
            if !(facts.predicate_outcomes@[i] is Ok) {
                lemma_first_failed(facts.predicate_outcomes@, i);
            }
        }
    }
}

/// Accessibility changes only holds and mashes: with hold-to-toggle a hold
/// completes at once as a toggle, with mash auto-complete a mash becomes a
/// hold of the given length, and every other execution runs as authored.
pub proof fn accessibility_changes_only_holds_and_mashes(
    config: InteractionConfig,
    execution: InteractionExecution,
    mash_hold_seconds: Scalar,
)
    ensures
        execution is Hold && config.hold_to_toggle ==> spec_effective_execution(config, execution, mash_hold_seconds)
            == InteractionExecution::Toggle,
        execution is Mash && config.mash_auto_complete ==> spec_effective_execution(config, execution, mash_hold_seconds)
            == (InteractionExecution::Hold { duration_seconds: mash_hold_seconds }),
        !(execution is Hold && config.hold_to_toggle) && !(execution is Mash && config.mash_auto_complete)
            ==> spec_effective_execution(config, execution, mash_hold_seconds) == execution,
{
}

/// A confirm press, or a confirm still buffered, always asks for a start.
pub proof fn confirm_asks_for_a_start(
    config: InteractionConfig,
    slot: InteractionSlot,
    prompt_state: InteractionPromptState,
    control: InteractorControlState,
)
    requires
        control.confirm_pressed || control.confirm_buffer_remaining.positive(),
    ensures
        start_wanted(config, slot, prompt_state, control),
{
}

/// An offer that was already started automatically is not started again
/// without confirm input; neither is an unavailable offer, nor any offer
/// when neither the runtime nor the slot starts on focus.
pub proof fn automatic_start_needs_a_fresh_available_offer(
    config: InteractionConfig,
    slot: InteractionSlot,
    prompt_state: InteractionPromptState,
    control: InteractorControlState,
)
    requires
        !control.confirm_pressed,
        !control.confirm_buffer_remaining.positive(),
        prompt_state.offer is Some,
        ({
            let offer = prompt_state.offer->0;
            ||| control.auto_started_offer matches Some(previous) && previous.target == offer.target
                && previous.slot_id@ == offer.slot_id@ && opt_stage_text(previous.stage_id) == opt_stage_text(
                offer.stage_id,
            )
            ||| offer.availability is Some
            ||| !config.auto_interact_on_focus && !slot.auto_trigger_on_focus
        }),
    ensures
        !start_wanted(config, slot, prompt_state, control),
{
}

/// A completion starts each cooldown of positive length, ending at the
/// clock reading given for it, and leaves a cooldown of zero length alone.
pub proof fn completion_starts_positive_cooldowns(
    rt: RuntimeView,
    actor: EntityId,
    target: EntityId,
    slot: InteractionSlot,
    stage_index: usize,
    clock: CompletionClock,
)
    ensures
        ({
            let after = spec_after_completion(rt, actor, target, slot, stage_index, clock);
            let key = (target, slot.id@);
            &&& slot.cooldown.shared_seconds.positive() ==> after.shared_cooldowns.dom().contains(key)
                && after.shared_cooldowns[key] == clock.shared_expiry
            &&& !slot.cooldown.shared_seconds.positive() ==> after.shared_cooldowns == rt.shared_cooldowns
            &&& slot.cooldown.per_actor_seconds.positive() ==> after.per_actor_cooldowns.dom().contains((actor, key))
                && after.per_actor_cooldowns[(actor, key)] == clock.per_actor_expiry
            &&& !slot.cooldown.per_actor_seconds.positive() ==> after.per_actor_cooldowns == rt.per_actor_cooldowns
        }),
{
}

/// When a still-focused active interaction is re-gated on a blocked state,
/// leaving range breaks it for distance, losing sight breaks it for line of
/// sight, a failed predicate invalidates it with that predicate, any other
/// refusal makes it busy, and an available slot keeps running.
pub proof fn regate_failures_cancel_by_kind(
    rt: RuntimeView,
    actor: EntityId,
    active: ActiveInteraction,
    focus: FocusedInteraction,
    control: InteractorControlState,
    interactable: &Interactable,
    t: &InteractionTarget,
    target_tags: Seq<Seq<char>>,
    interactor: &Interactor,
    actor_tags: Seq<Seq<char>>,
    facts: GateFacts,
    i: int,
)
    requires
        !rt.pending_external_cancels.dom().contains(actor),
        slot_position(t.slots@, active.slot_id@) == Some(i),
        !control.cancel_requested,
        !control.confirm_released,
        focus.target == Some(active.target),
        focus.slot_id is Some && focus.slot_id->0@ == active.slot_id@,
        t.slots@[i].cancellation.on_blocked_state,
    ensures
        ({
            let reason = spec_cancel_reason(rt, actor, active, focus, control, Some((interactable, t)), target_tags, Some(interactor), actor_tags, facts);
            let verdict = gate_verdict(rt, actor, active.target, *interactor, *interactable, t.slots@[i], actor_tags, target_tags, facts);
            &&& verdict is None ==> reason is None
            &&& verdict == Some(InteractionAvailabilityReason::OutOfRange) ==> reason == Some(InteractionCancelReason::DistanceBreak)
            &&& verdict == Some(InteractionAvailabilityReason::LineOfSightBlocked) ==> reason == Some(InteractionCancelReason::LineOfSightBreak)
            &&& verdict == Some(InteractionAvailabilityReason::ReservedByOther) ==> reason == Some(InteractionCancelReason::Busy)
            &&& verdict == Some(InteractionAvailabilityReason::Disabled) ==> reason == Some(InteractionCancelReason::Busy)
            &&& (verdict matches Some(InteractionAvailabilityReason::PredicateFailed { predicate, detail_key }) ==> reason == Some(
                InteractionCancelReason::PredicateInvalidated { predicate, detail_key },
            ))
        }),
{
}

/// An unavailable offer is hidden under `HideWhenUnavailable`, any offer is
/// hidden under `Always`, and none under `Never`; the offer names the
/// focused target and the chosen slot, and keeps the focus source (or
/// proximity when there is none).
pub proof fn offer_names_slot_and_hides_by_policy(
    rt: RuntimeView,
    target: EntityId,
    slot: InteractionSlot,
    availability: Option<InteractionAvailabilityReason>,
    source: Option<FocusSource>,
)
    ensures
        ({
            let offer = spec_offer(rt, target, slot, availability, source);
            &&& offer.target == target
            &&& offer.slot_id == slot.id
            &&& offer.availability == availability
            &&& offer.prompt.suppression == PromptSuppressionPolicy::Never ==> !offer.suppressed
            &&& offer.prompt.suppression == PromptSuppressionPolicy::Always ==> offer.suppressed
            &&& offer.prompt.suppression == PromptSuppressionPolicy::HideWhenUnavailable ==> (offer.suppressed
                <==> availability is Some)
            &&& offer.source == match source {
                Some(s) => s,
                None => FocusSource::Proximity,
            }
        }),
{
}

/// An actor without an active interaction may always start one.
pub proof fn idle_actor_may_start(cancel: Option<InteractionCancelReason>)
    ensures
        spec_next_step(None, cancel) == ActorStep::TryStart,
{
}

} // verus!
