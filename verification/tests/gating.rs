//! Slot gating and offer resolution on concrete values.

use saddle_interaction::components::{
    FocusSource, FocusedInteraction, Interactable, InteractionAvailabilityReason,
    InteractionConsumption, InteractionCooldown, InteractionPromptState, InteractionReservationPolicy,
    InteractionSlot, InteractionTags, InteractionTarget, Interactor, LineOfSightPolicy,
    PromptSuppressionPolicy,
};
use saddle_interaction::config::InteractionPredicateFailure;
use saddle_interaction::control::InteractorControlState;
use saddle_interaction::gating::{evaluate_focus_offer, evaluate_slot, offer_slot_choice, priority_order, GateFacts};
use saddle_interaction::ids::{ActorSlotKey, InteractionChannel, InteractionPredicateId, InteractionSlotId, InteractionTag, TargetSlotKey};
use saddle_interaction::runtime::InteractionRuntimeState;
use saddle_interaction::scalar::{Scalar, Seconds};

fn sc(x: f32) -> Scalar {
    Scalar { bits: x.to_bits() }
}

fn fl(x: Scalar) -> f32 {
    f32::from_bits(x.bits)
}

/// Gate facts of an actor at the origin and a target one unit away, under
/// the default reach, at time zero.
fn near_facts(runtime: &InteractionRuntimeState, actor: u64, target: u64, slot: &InteractionSlot) -> GateFacts {
    let key = TargetSlotKey::new(target, &slot.id);
    let now = 0.0f64;
    let remaining = |expiry: Option<Seconds>| {
        expiry.and_then(|e| {
            let r = (f64::from_bits(e.bits) - now) as f32;
            if r > 0.0 { Some(sc(r)) } else { None }
        })
    };
    GateFacts {
        shared_cooldown_remaining: remaining(runtime.shared_cooldown_expiry(&key)),
        per_actor_cooldown_remaining: remaining(runtime.per_actor_cooldown_expiry(actor, &key)),
        out_of_range: 1.0 > 4.0,
        line_of_sight_blocked: false,
        predicate_outcomes: Vec::new(),
    }
}

#[test]
fn failed_gate_reports_reason() {
    let runtime = InteractionRuntimeState::default();
    let actor = 1;
    let target = 2;
    let interactor = Interactor::default();
    let interactable = Interactable::default();
    let mut slot = InteractionSlot::instant("use", "interaction.use");
    slot.availability.required_actor_tags = vec![InteractionTag::from("keycard")];
    let actor_tags = Some(InteractionTags::default());
    let facts = near_facts(&runtime, actor, target, &slot);
    let reason = evaluate_slot(&runtime, actor, target, &interactor, &interactable, &slot, actor_tags.as_ref(), None, &facts);
    assert_eq!(reason, Some(InteractionAvailabilityReason::MissingActorTag(InteractionTag::from("keycard"))));
}

#[test]
fn per_actor_cooldown_does_not_block_other_actor() {
    let mut runtime = InteractionRuntimeState::default();
    let first_actor = 1;
    let second_actor = 2;
    let target = 3;
    let slot = InteractionSlot {
        cooldown: InteractionCooldown { per_actor_seconds: sc(2.0), ..InteractionCooldown::default() },
        ..InteractionSlot::instant("use", "interaction.use")
    };
    let key = TargetSlotKey::new(target, &slot.id);
    runtime.per_actor_cooldowns.insert(ActorSlotKey { actor: first_actor, key }, Seconds { bits: 10.0f64.to_bits() });
    let interactor = Interactor::default();
    let interactable = Interactable::default();
    let first_facts = near_facts(&runtime, first_actor, target, &slot);
    let second_facts = near_facts(&runtime, second_actor, target, &slot);
    let first_reason = evaluate_slot(&runtime, first_actor, target, &interactor, &interactable, &slot, None, None, &first_facts);
    let second_reason = evaluate_slot(&runtime, second_actor, target, &interactor, &interactable, &slot, None, None, &second_facts);
    assert!(matches!(first_reason, Some(InteractionAvailabilityReason::PerActorCooldown { .. })));
    assert_eq!(second_reason, None);
}

fn gate(runtime: &InteractionRuntimeState, interactor: &Interactor, interactable: &Interactable, slot: &InteractionSlot, actor_tags: Option<&InteractionTags>, target_tags: Option<&InteractionTags>, facts: &GateFacts) -> Option<InteractionAvailabilityReason> {
    evaluate_slot(runtime, 1, 2, interactor, interactable, slot, actor_tags, target_tags, facts)
}

#[test]
fn each_gate_reason_has_an_input() {
    let runtime = InteractionRuntimeState::default();
    let interactor = Interactor::default();
    let interactable = Interactable::default();
    let base = InteractionSlot::instant("use", "interaction.use");
    let clear = GateFacts::clear();

    let disabled_target = Interactable { enabled: false, ..Interactable::default() };
    assert_eq!(gate(&runtime, &interactor, &disabled_target, &base, None, None, &clear), Some(InteractionAvailabilityReason::Disabled));

    let mut disabled_slot = base.clone();
    disabled_slot.availability.enabled = false;
    assert_eq!(gate(&runtime, &interactor, &interactable, &disabled_slot, None, None, &clear), Some(InteractionAvailabilityReason::Disabled));

    let other_channel = Interactable { channels: vec![InteractionChannel::from("ui")], ..Interactable::default() };
    assert_eq!(gate(&runtime, &interactor, &other_channel, &base, None, None, &clear), Some(InteractionAvailabilityReason::Disabled));

    let mut reserved = InteractionRuntimeState::default();
    reserved.reservations.insert(TargetSlotKey::new(2, &base.id), 9);
    let exclusive = InteractionSlot { reservation: InteractionReservationPolicy::Exclusive, ..base.clone() };
    assert_eq!(gate(&reserved, &interactor, &interactable, &exclusive, None, None, &clear), Some(InteractionAvailabilityReason::ReservedByOther));
    assert_eq!(gate(&reserved, &interactor, &interactable, &base, None, None, &clear), None);

    let mut consumed = InteractionRuntimeState::default();
    consumed.consumed_global.insert(TargetSlotKey::new(2, &base.id), ());
    let mut once = base.clone();
    once.availability.consumption = InteractionConsumption::OnceGlobal;
    assert_eq!(gate(&consumed, &interactor, &interactable, &once, None, None, &clear), Some(InteractionAvailabilityReason::Consumed));

    let shared = GateFacts { shared_cooldown_remaining: Some(sc(0.5)), ..GateFacts::clear() };
    assert_eq!(gate(&runtime, &interactor, &interactable, &base, None, None, &shared), Some(InteractionAvailabilityReason::SharedCooldown { remaining_seconds: sc(0.5) }));

    let mut blocked_actor = base.clone();
    blocked_actor.availability.blocked_actor_tags = vec![InteractionTag::from("stunned")];
    let stunned = InteractionTags { tags: vec![InteractionTag::from("stunned")] };
    assert_eq!(gate(&runtime, &interactor, &interactable, &blocked_actor, Some(&stunned), None, &clear), Some(InteractionAvailabilityReason::BlockedActorTag(InteractionTag::from("stunned"))));

    let mut needs_power = base.clone();
    needs_power.availability.required_target_tags = vec![InteractionTag::from("powered")];
    assert_eq!(gate(&runtime, &interactor, &interactable, &needs_power, None, None, &clear), Some(InteractionAvailabilityReason::MissingTargetTag(InteractionTag::from("powered"))));

    let mut not_broken = base.clone();
    not_broken.availability.blocked_target_tags = vec![InteractionTag::from("broken")];
    let broken = InteractionTags { tags: vec![InteractionTag::from("broken")] };
    assert_eq!(gate(&runtime, &interactor, &interactable, &not_broken, None, Some(&broken), &clear), Some(InteractionAvailabilityReason::BlockedTargetTag(InteractionTag::from("broken"))));

    let far = GateFacts { out_of_range: true, ..GateFacts::clear() };
    assert_eq!(gate(&runtime, &interactor, &interactable, &base, None, None, &far), Some(InteractionAvailabilityReason::OutOfRange));

    let hidden = GateFacts { line_of_sight_blocked: true, ..GateFacts::clear() };
    assert_eq!(gate(&runtime, &interactor, &interactable, &base, None, None, &hidden), None);
    let precise = Interactable { line_of_sight_policy: LineOfSightPolicy::Require, ..Interactable::default() };
    assert_eq!(gate(&runtime, &interactor, &precise, &base, None, None, &hidden), Some(InteractionAvailabilityReason::LineOfSightBlocked));

    let mut checked = base.clone();
    checked.availability.predicate_ids = vec![InteractionPredicateId::from("has_power"), InteractionPredicateId::from("quest")];
    let facts = GateFacts {
        predicate_outcomes: vec![Ok(()), Err(InteractionPredicateFailure { detail_key: Some("quest.locked".to_owned()) })],
        ..GateFacts::clear()
    };
    assert_eq!(
        gate(&runtime, &interactor, &interactable, &checked, None, None, &facts),
        Some(InteractionAvailabilityReason::PredicateFailed { predicate: InteractionPredicateId::from("quest"), detail_key: Some("quest.locked".to_owned()) })
    );
}

#[test]
fn gate_checks_run_in_order() {
    let runtime = InteractionRuntimeState::default();
    let interactor = Interactor::default();
    let interactable = Interactable::default();
    let mut slot = InteractionSlot::instant("use", "interaction.use");
    slot.availability.required_actor_tags = vec![InteractionTag::from("keycard")];
    let facts = GateFacts { out_of_range: true, shared_cooldown_remaining: Some(sc(1.0)), ..GateFacts::clear() };
    assert!(matches!(
        gate(&runtime, &interactor, &interactable, &slot, None, None, &facts),
        Some(InteractionAvailabilityReason::SharedCooldown { .. })
    ));
    let facts = GateFacts { out_of_range: true, ..GateFacts::clear() };
    assert_eq!(gate(&runtime, &interactor, &interactable, &slot, None, None, &facts), Some(InteractionAvailabilityReason::MissingActorTag(InteractionTag::from("keycard"))));
}

fn prioritized(id: &str, priority: f32) -> InteractionSlot {
    InteractionSlot { priority: sc(priority), ..InteractionSlot::instant(id, "interaction.action") }
}

fn terminal() -> InteractionTarget {
    InteractionTarget { slots: vec![prioritized("read", 1.0), prioritized("hack", 3.0), prioritized("log", 1.0)] }
}

fn resolve(target: &InteractionTarget, focus: &mut FocusedInteraction, control: &mut InteractorControlState, facts: &[GateFacts]) -> InteractionPromptState {
    let runtime = InteractionRuntimeState::default();
    let interactor = Interactor::default();
    let interactable = Interactable::default();
    let mut prompt = InteractionPromptState::default();
    let facts: Vec<GateFacts> = facts.iter().map(|f| GateFacts {
        shared_cooldown_remaining: f.shared_cooldown_remaining,
        per_actor_cooldown_remaining: f.per_actor_cooldown_remaining,
        out_of_range: f.out_of_range,
        line_of_sight_blocked: f.line_of_sight_blocked,
        predicate_outcomes: Vec::new(),
    }).collect();
    evaluate_focus_offer(&runtime, 1, &interactor, None, Some((&interactable, target)), None, &facts, focus, control, &mut prompt);
    prompt
}

#[test]
fn priority_order_is_stable_and_descending() {
    let order = priority_order(&terminal().slots);
    assert_eq!(order, vec![1, 0, 2]);
}

#[test]
fn highest_priority_available_slot_is_offered() {
    let target = terminal();
    let mut focus = FocusedInteraction { target: Some(2), slot_id: None, source: Some(FocusSource::Proximity) };
    let mut control = InteractorControlState::default();
    let blocked = GateFacts { out_of_range: true, ..GateFacts::clear() };
    let prompt = resolve(&target, &mut focus, &mut control, &[GateFacts::clear(), blocked, GateFacts::clear()]);
    let offer = prompt.offer.expect("an offer");
    assert_eq!(offer.slot_id, InteractionSlotId::from("read"));
    assert_eq!(offer.availability, None);
    assert_eq!(focus.slot_id, Some(InteractionSlotId::from("read")));
}

#[test]
fn blocked_target_still_offers_top_slot_with_reason() {
    let target = terminal();
    let mut focus = FocusedInteraction { target: Some(2), slot_id: None, source: None };
    let mut control = InteractorControlState::default();
    let blocked = || GateFacts { out_of_range: true, ..GateFacts::clear() };
    let prompt = resolve(&target, &mut focus, &mut control, &[blocked(), blocked(), blocked()]);
    let offer = prompt.offer.expect("an offer");
    assert_eq!(offer.slot_id, InteractionSlotId::from("hack"));
    assert_eq!(offer.availability, Some(InteractionAvailabilityReason::OutOfRange));
    assert_eq!(offer.source, FocusSource::Proximity);
    assert!(!offer.suppressed);
}

#[test]
fn selection_and_cycling_choose_slots() {
    let target = terminal();
    let mut focus = FocusedInteraction { target: Some(2), slot_id: None, source: None };
    let mut control = InteractorControlState { select_slot: Some(InteractionSlotId::from("log")), ..InteractorControlState::default() };
    let clear = || GateFacts::clear();
    let prompt = resolve(&target, &mut focus, &mut control, &[clear(), clear(), clear()]);
    assert_eq!(prompt.offer.unwrap().slot_id, InteractionSlotId::from("log"));

    // "log" is last in priority order; one step forward wraps to "hack".
    let mut control = InteractorControlState { cycle_delta: 1, ..InteractorControlState::default() };
    let prompt = resolve(&target, &mut focus, &mut control, &[clear(), clear(), clear()]);
    assert_eq!(prompt.offer.unwrap().slot_id, InteractionSlotId::from("hack"));

    // One step back from "hack" wraps to "log".
    let mut control = InteractorControlState { cycle_delta: -1, ..InteractorControlState::default() };
    let prompt = resolve(&target, &mut focus, &mut control, &[clear(), clear(), clear()]);
    assert_eq!(prompt.offer.unwrap().slot_id, InteractionSlotId::from("log"));
}

#[test]
fn unavailable_offer_hides_when_asked() {
    let mut slot = InteractionSlot::instant("open", "interaction.open");
    slot.prompt.suppression = PromptSuppressionPolicy::HideWhenUnavailable;
    let target = InteractionTarget { slots: vec![slot] };
    let mut focus = FocusedInteraction { target: Some(2), slot_id: None, source: None };
    let mut control = InteractorControlState::default();
    let prompt = resolve(&target, &mut focus, &mut control, &[GateFacts { out_of_range: true, ..GateFacts::clear() }]);
    assert!(prompt.offer.unwrap().suppressed);
    let prompt = resolve(&target, &mut focus, &mut control, &[GateFacts::clear()]);
    assert!(!prompt.offer.unwrap().suppressed);
}

#[test]
fn missing_target_clears_focus_and_offer() {
    let runtime = InteractionRuntimeState::default();
    let interactor = Interactor::default();
    let mut focus = FocusedInteraction { target: Some(2), slot_id: Some(InteractionSlotId::from("open")), source: Some(FocusSource::Picking) };
    let mut control = InteractorControlState::default();
    let mut prompt = InteractionPromptState::default();
    evaluate_focus_offer(&runtime, 1, &interactor, None, None, None, &Vec::new(), &mut focus, &mut control, &mut prompt);
    assert_eq!(focus, FocusedInteraction::default());
    assert!(prompt.offer.is_none());
    let choice = offer_slot_choice(&runtime, 1, &interactor, None, None, None, &Vec::new(), &focus, &control);
    assert_eq!(choice, None);
}

#[test]
fn remaining_cooldown_is_reported() {
    let runtime = InteractionRuntimeState::default();
    let slot = InteractionSlot::instant("use", "interaction.use");
    let facts = GateFacts { per_actor_cooldown_remaining: Some(sc(1.5)), ..GateFacts::clear() };
    match gate(&runtime, &Interactor::default(), &Interactable::default(), &slot, None, None, &facts) {
        Some(InteractionAvailabilityReason::PerActorCooldown { remaining_seconds }) => assert_eq!(fl(remaining_seconds), 1.5),
        other => panic!("unexpected {:?}", other),
    }
}
