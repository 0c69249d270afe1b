//! The runtime's cross-operation properties, on concrete values.

use saddle_interaction::components::{
    ActiveInteraction, FocusedInteraction, Interactable, InteractionAvailabilityReason,
    InteractionBehavior, InteractionCancelReason, InteractionConsumption, InteractionExecution,
    InteractionReservationPolicy, InteractionSlot, InteractionStage, InteractionTarget, Interactor,
    SequenceAdvanceMode,
};
use saddle_interaction::control::InteractorControlState;
use saddle_interaction::execution::{
    apply_completion, cancel_active_if_needed, release_reservation, CompletionClock,
};
use saddle_interaction::gating::{evaluate_slot, GateFacts};
use saddle_interaction::ids::{InteractionSlotId, TargetSlotKey};
use saddle_interaction::runtime::InteractionRuntimeState;
use saddle_interaction::scalar::{Scalar, Seconds};

fn clock() -> CompletionClock {
    CompletionClock { shared_expiry: Seconds { bits: 5.0f64.to_bits() }, per_actor_expiry: Seconds { bits: 6.0f64.to_bits() } }
}

fn staged(mode: SequenceAdvanceMode) -> InteractionSlot {
    let stage = |id: &str| InteractionStage { id: id.into(), execution: InteractionExecution::Instant, prompt: None };
    InteractionSlot {
        behavior: InteractionBehavior::Sequence { stages: vec![stage("a"), stage("b"), stage("c")], advance_mode: mode },
        ..InteractionSlot::instant("ritual", "interaction.ritual")
    }
}

#[test]
fn looping_sequence_returns_to_first_stage() {
    let mut runtime = InteractionRuntimeState::default();
    let slot = staged(SequenceAdvanceMode::Loop);
    let key = TargetSlotKey::new(2, &slot.id);
    let mut index = 0;
    let mut advances = 0;
    for _ in 0..3 {
        let (_, advanced) = apply_completion(&mut runtime, 1, 2, &slot, None, index, None, clock());
        if advanced.is_some() {
            advances += 1;
        }
        index = *runtime.stage_indices.get(&key).unwrap();
    }
    assert_eq!(index, 0);
    assert_eq!(advances, 3);
}

#[test]
fn stop_at_last_sequence_settles_on_terminal_stage() {
    let mut runtime = InteractionRuntimeState::default();
    let slot = staged(SequenceAdvanceMode::StopAtLast);
    let key = TargetSlotKey::new(2, &slot.id);
    let (_, first) = apply_completion(&mut runtime, 1, 2, &slot, Some("a".into()), 0, None, clock());
    let first = first.unwrap();
    assert!(!first.terminal);
    assert_eq!(first.next_stage_id, Some("b".into()));
    let (_, second) = apply_completion(&mut runtime, 1, 2, &slot, Some("b".into()), 1, None, clock());
    assert!(second.unwrap().terminal);
    let (_, third) = apply_completion(&mut runtime, 1, 2, &slot, Some("c".into()), 2, None, clock());
    assert!(third.is_none());
    assert_eq!(runtime.stage_indices.get(&key), Some(&2));
}

#[test]
fn global_consumption_blocks_every_actor() {
    let mut runtime = InteractionRuntimeState::default();
    let mut slot = InteractionSlot::instant("loot", "interaction.loot");
    slot.availability.consumption = InteractionConsumption::OnceGlobal;
    let _ = apply_completion(&mut runtime, 1, 2, &slot, None, 0, None, clock());
    for actor in [1u64, 3] {
        let verdict = evaluate_slot(&runtime, actor, 2, &Interactor::default(), &Interactable::default(), &slot, None, None, &GateFacts::clear());
        assert_eq!(verdict, Some(InteractionAvailabilityReason::Consumed));
    }
}

#[test]
fn per_actor_consumption_blocks_only_that_actor() {
    let mut runtime = InteractionRuntimeState::default();
    let mut slot = InteractionSlot::instant("reward", "interaction.reward");
    slot.availability.consumption = InteractionConsumption::OncePerActor;
    let _ = apply_completion(&mut runtime, 1, 2, &slot, None, 0, None, clock());
    let mine = evaluate_slot(&runtime, 1, 2, &Interactor::default(), &Interactable::default(), &slot, None, None, &GateFacts::clear());
    let theirs = evaluate_slot(&runtime, 3, 2, &Interactor::default(), &Interactable::default(), &slot, None, None, &GateFacts::clear());
    assert_eq!(mine, Some(InteractionAvailabilityReason::Consumed));
    assert_eq!(theirs, None);
}

#[test]
fn cooldowns_start_only_when_positive() {
    let mut runtime = InteractionRuntimeState::default();
    let mut slot = InteractionSlot::instant("use", "interaction.use");
    let key = TargetSlotKey::new(2, &slot.id);
    let _ = apply_completion(&mut runtime, 1, 2, &slot, None, 0, None, clock());
    assert_eq!(runtime.shared_cooldown_expiry(&key), None);
    slot.cooldown.shared_seconds = Scalar { bits: 1.0f32.to_bits() };
    slot.cooldown.per_actor_seconds = Scalar { bits: 2.0f32.to_bits() };
    let _ = apply_completion(&mut runtime, 1, 2, &slot, None, 0, None, clock());
    assert_eq!(runtime.shared_cooldown_expiry(&key), Some(clock().shared_expiry));
    assert_eq!(runtime.per_actor_cooldown_expiry(1, &key), Some(clock().per_actor_expiry));
    assert_eq!(runtime.per_actor_cooldown_expiry(3, &key), None);
}

#[test]
fn exclusive_reservation_blocks_others_until_released() {
    let mut runtime = InteractionRuntimeState::default();
    let slot = InteractionSlot { reservation: InteractionReservationPolicy::Exclusive, ..InteractionSlot::instant("drive", "interaction.drive") };
    let key = TargetSlotKey::new(2, &slot.id);
    runtime.reservations.insert(key, 1);
    let other = evaluate_slot(&runtime, 3, 2, &Interactor::default(), &Interactable::default(), &slot, None, None, &GateFacts::clear());
    assert_eq!(other, Some(InteractionAvailabilityReason::ReservedByOther));
    let owner = evaluate_slot(&runtime, 1, 2, &Interactor::default(), &Interactable::default(), &slot, None, None, &GateFacts::clear());
    assert_eq!(owner, None);
    release_reservation(&mut runtime, 3, 2, &slot.id);
    assert_eq!(runtime.reservation_count(), 1);
    release_reservation(&mut runtime, 1, 2, &slot.id);
    assert_eq!(runtime.reservation_count(), 0);
    runtime.reservations.insert(TargetSlotKey::new(2, &slot.id), 1);
    let _ = apply_completion(&mut runtime, 1, 2, &slot, None, 0, None, clock());
    assert_eq!(runtime.reservation_count(), 0);
}

fn hold_setup() -> (InteractionTarget, ActiveInteraction, FocusedInteraction) {
    let slot = InteractionSlot {
        behavior: InteractionBehavior::Single(InteractionExecution::Hold { duration_seconds: Scalar { bits: 1.0f32.to_bits() } }),
        ..InteractionSlot::instant("hold", "interaction.hold")
    };
    let active = ActiveInteraction {
        target: 2,
        slot_id: slot.id.clone(),
        stage_id: None,
        execution: match slot.behavior { InteractionBehavior::Single(e) => e, _ => InteractionExecution::Instant },
        progress: Scalar::zero(),
        started_at_seconds: Seconds::zero(),
        toggle_state: None,
        stage_index: 0,
    };
    let focus = FocusedInteraction { target: Some(2), slot_id: Some(slot.id.clone()), source: None };
    (InteractionTarget { slots: vec![slot] }, active, focus)
}

#[test]
fn external_cancel_wins_over_every_other_reason() {
    let (target, active, focus) = hold_setup();
    let mut runtime = InteractionRuntimeState::default();
    runtime.record_external_cancel(1, InteractionCancelReason::Other("cutscene".to_owned()));
    let control = InteractorControlState { cancel_requested: true, ..InteractorControlState::default() };
    let interactable = Interactable::default();
    let reason = cancel_active_if_needed(&runtime, 1, &active, &focus, &control, Some((&interactable, &target)), None, Some(&Interactor::default()), None, &GateFacts::clear());
    assert_eq!(reason, Some(InteractionCancelReason::Other("cutscene".to_owned())));
    runtime.clear_external_cancels();
    let reason = cancel_active_if_needed(&runtime, 1, &active, &focus, &control, Some((&interactable, &target)), None, Some(&Interactor::default()), None, &GateFacts::clear());
    assert_eq!(reason, Some(InteractionCancelReason::ExplicitCancel));
}

#[test]
fn cancellation_reasons_follow_the_policy() {
    let (target, active, focus) = hold_setup();
    let runtime = InteractionRuntimeState::default();
    let interactable = Interactable::default();
    let who = Interactor::default();
    let idle = InteractorControlState::default();
    let check = |focus: &FocusedInteraction, control: &InteractorControlState, target: Option<(&Interactable, &InteractionTarget)>, facts: &GateFacts| {
        cancel_active_if_needed(&runtime, 1, &active, focus, control, target, None, Some(&who), None, facts)
    };
    assert_eq!(check(&focus, &idle, Some((&interactable, &target)), &GateFacts::clear()), None);
    let released = InteractorControlState { confirm_released: true, ..InteractorControlState::default() };
    assert_eq!(check(&focus, &released, Some((&interactable, &target)), &GateFacts::clear()), Some(InteractionCancelReason::InputReleased));
    let elsewhere = FocusedInteraction { target: Some(9), ..focus.clone() };
    assert_eq!(check(&elsewhere, &idle, Some((&interactable, &target)), &GateFacts::clear()), Some(InteractionCancelReason::FocusLost));
    let far = GateFacts { out_of_range: true, ..GateFacts::clear() };
    assert_eq!(check(&focus, &idle, Some((&interactable, &target)), &far), Some(InteractionCancelReason::DistanceBreak));
    let shared = GateFacts { shared_cooldown_remaining: Some(Scalar { bits: 1.0f32.to_bits() }), ..GateFacts::clear() };
    assert_eq!(check(&focus, &idle, Some((&interactable, &target)), &shared), Some(InteractionCancelReason::Busy));
    assert_eq!(check(&focus, &idle, None, &GateFacts::clear()), Some(InteractionCancelReason::TargetMissing));
    let emptied = InteractionTarget { slots: Vec::new() };
    assert_eq!(check(&focus, &released, Some((&interactable, &emptied)), &GateFacts::clear()), None);
    let mut lenient = target.clone();
    lenient.slots[0].cancellation.on_release = false;
    assert_eq!(check(&focus, &released, Some((&interactable, &lenient)), &GateFacts::clear()), None);
}

#[test]
fn slot_ids_compare_by_name() {
    assert_eq!(InteractionSlotId::from("open"), InteractionSlotId("open".to_owned()));
}
