//! Defaults, identifiers, and input handling on concrete values.

use saddle_interaction::components::{
    InteractionBehavior, InteractionExecution, InteractionPrompt, InteractionSlot, InteractionTags,
    Interactor, PromptSuppressionPolicy,
};
use saddle_interaction::config::{InteractionConfig, InteractionDebugSettings};
use saddle_interaction::control::InteractorControlState;
use saddle_interaction::ids::{InteractionChannel, InteractionSlotId, InteractionTag};
use saddle_interaction::messages::InteractionIntentKind;
use saddle_interaction::util::{effective_detection_mode, matches_channel};
use saddle_interaction::components::DetectionMode;

#[test]
fn defaults_match_the_documented_values() {
    let config = InteractionConfig::default();
    assert_eq!(f32::from_bits(config.default_max_distance.bits), 4.0);
    assert_eq!(f32::from_bits(config.default_proximity_radius.bits), 3.0);
    assert_eq!(config.default_candidate_limit, 8);
    assert_eq!(f32::from_bits(config.hysteresis.bits), 0.15);
    assert_eq!(f32::from_bits(config.default_input_buffer_seconds.bits), 0.12);
    let interactor = Interactor::default();
    assert_eq!(f32::from_bits(interactor.alignment_weight.bits), 0.35);
    assert_eq!(f32::from_bits(interactor.slot_priority_weight.bits), 0.45);
    assert_eq!(f32::from_bits(interactor.picking_bias.bits), 0.75);
    assert_eq!(interactor.channels, vec![InteractionChannel::world()]);
    let prompt = InteractionPrompt::default();
    assert_eq!(prompt.prompt_key, "interaction.prompt");
    assert_eq!(prompt.action_label_key, "interaction.action");
    assert_eq!(prompt.suppression, PromptSuppressionPolicy::Never);
    let slot = InteractionSlot::default();
    assert_eq!(slot.id, InteractionSlotId::from("default"));
    assert_eq!(slot.behavior, InteractionBehavior::Single(InteractionExecution::Instant));
    let debug = InteractionDebugSettings::default();
    assert!(!debug.debug_enabled());
    assert!(debug.draw_focus_lines);
}

#[test]
fn instant_slot_carries_its_label() {
    let slot = InteractionSlot::instant("open", "Open");
    assert_eq!(slot.id, InteractionSlotId::from("open"));
    assert_eq!(slot.prompt.action_label_key, "Open");
    assert_eq!(slot.prompt.prompt_key, "interaction.prompt");
}

#[test]
fn tags_are_found_by_name() {
    let tags = InteractionTags { tags: vec![InteractionTag::from("keycard"), InteractionTag::from("driver")] };
    assert!(tags.contains(&InteractionTag::from("driver")));
    assert!(!tags.contains(&InteractionTag::from("pilot")));
    assert!(!InteractionTags::default().contains(&InteractionTag::from("keycard")));
}

#[test]
fn channels_match_when_shared_or_unrestricted() {
    let world = vec![InteractionChannel::world()];
    let ui = vec![InteractionChannel::from("ui")];
    let both = vec![InteractionChannel::from("ui"), InteractionChannel::world()];
    assert!(matches_channel(&world, &both));
    assert!(matches_channel(&both, &world));
    assert!(!matches_channel(&world, &ui));
    assert!(matches_channel(&Vec::new(), &ui));
    assert!(matches_channel(&ui, &Vec::new()));
    assert_eq!(effective_detection_mode(None, DetectionMode::Hybrid), DetectionMode::Hybrid);
    assert_eq!(effective_detection_mode(Some(DetectionMode::Picking), DetectionMode::Hybrid), DetectionMode::Picking);
}

#[test]
fn intents_update_control_state() {
    let mut control = InteractorControlState::default();
    control.apply_intent(&InteractionIntentKind::Press);
    assert!(control.confirm_held && control.confirm_pressed);
    control.apply_intent(&InteractionIntentKind::Release);
    assert!(!control.confirm_held && control.confirm_released);
    control.apply_intent(&InteractionIntentKind::Cancel);
    assert!(control.cancel_requested);
    control.apply_intent(&InteractionIntentKind::CycleNext);
    control.apply_intent(&InteractionIntentKind::CycleNext);
    control.apply_intent(&InteractionIntentKind::CyclePrevious);
    assert_eq!(control.cycle_delta, 1);
    control.apply_intent(&InteractionIntentKind::SelectSlot(InteractionSlotId::from("hack")));
    assert_eq!(control.select_slot, Some(InteractionSlotId::from("hack")));
    control.clear_frame_controls();
    assert!(!control.confirm_pressed && !control.confirm_released && !control.cancel_requested);
    assert_eq!(control.cycle_delta, 0);
    assert!(control.select_slot.is_none());
    assert!(!control.confirm_held);
}

#[test]
fn cycling_saturates() {
    let mut control = InteractorControlState { cycle_delta: i8::MAX, ..InteractorControlState::default() };
    control.apply_intent(&InteractionIntentKind::CycleNext);
    assert_eq!(control.cycle_delta, i8::MAX);
    control.cycle_delta = i8::MIN;
    control.apply_intent(&InteractionIntentKind::CyclePrevious);
    assert_eq!(control.cycle_delta, i8::MIN);
}
