//! End-to-end scenarios: one actor and one target driven update by update
//! through detection, ranking, focus, gating, and execution.

use saddle_interaction::components::{
    ActiveInteraction, FocusSource, FocusedInteraction, Interactable, InteractionAvailabilityReason,
    InteractionBehavior, InteractionCancelReason, InteractionCandidate, InteractionCandidates,
    InteractionConsumption, InteractionExecution, InteractionPromptState, InteractionSlot,
    InteractionStage, InteractionTarget, Interactor, SequenceAdvanceMode,
};
use saddle_interaction::config::InteractionConfig;
use saddle_interaction::control::{add_or_merge_candidate, deactivate_interactor, InteractorControlState};
use saddle_interaction::execution::{
    cancel_active_if_needed, release_reservation, start_would_run, tick_active, try_start, CompletionClock,
    StartFacts, StartOutcome,
};
use saddle_interaction::focus::{effective_hysteresis, update_focus};
use saddle_interaction::gating::{evaluate_focus_offer, GateFacts};
use saddle_interaction::ids::{EntityId, InteractionChannel, TargetSlotKey};
use saddle_interaction::messages::InteractionIntentKind;
use saddle_interaction::prompt::{emit_feedback_messages, InteractionFeedbackCache};
use saddle_interaction::runtime::InteractionRuntimeState;
use saddle_interaction::scalar::{Scalar, Seconds};
use saddle_interaction::scoring::{effective_candidate_limit, rank_candidates};
use saddle_interaction::util::{execution_for_slot, matches_channel, target_eligible};

fn sc(x: f32) -> Scalar {
    Scalar { bits: x.to_bits() }
}

fn fl(x: Scalar) -> f32 {
    f32::from_bits(x.bits)
}

#[derive(Default)]
struct Log {
    completed: usize,
    canceled: usize,
    failed: usize,
    stage_advanced: usize,
    last_canceled: Option<InteractionCancelReason>,
    last_failed: Option<InteractionAvailabilityReason>,
}

/// One actor at the origin and one target one unit away, updated every
/// tenth of a second.
struct Scene {
    config: InteractionConfig,
    runtime: InteractionRuntimeState,
    actor: EntityId,
    target: EntityId,
    interactor: Interactor,
    interactable: Interactable,
    target_slots: InteractionTarget,
    distance: f32,
    control: InteractorControlState,
    candidates: InteractionCandidates,
    focus: FocusedInteraction,
    prompt: InteractionPromptState,
    cache: InteractionFeedbackCache,
    active: Option<ActiveInteraction>,
    elapsed: f64,
    dt: f32,
    log: Log,
}

impl Scene {
    fn new(slot: InteractionSlot, config: InteractionConfig) -> Scene {
        let mut runtime = InteractionRuntimeState::default();
        runtime.activate();
        Scene {
            config,
            runtime,
            actor: 10,
            target: 20,
            interactor: Interactor {
                max_distance: Some(sc(5.0)),
                proximity_radius: Some(sc(5.0)),
                ..Interactor::default()
            },
            interactable: Interactable::default(),
            target_slots: InteractionTarget { slots: vec![slot] },
            distance: 1.0,
            control: InteractorControlState::default(),
            candidates: InteractionCandidates::default(),
            focus: FocusedInteraction::default(),
            prompt: InteractionPromptState::default(),
            cache: InteractionFeedbackCache::default(),
            active: None,
            elapsed: 0.0,
            dt: 0.1,
            log: Log::default(),
        }
    }

    fn gate_facts(&self, slot: &InteractionSlot) -> GateFacts {
        let key = TargetSlotKey::new(self.target, &slot.id);
        let now = self.elapsed;
        let remaining = |expiry: Option<Seconds>| {
            expiry.and_then(|e| {
                let r = (f64::from_bits(e.bits) - now) as f32;
                if r > 0.0 { Some(sc(r)) } else { None }
            })
        };
        let max_distance = fl(self.interactor.max_distance.unwrap_or(self.config.default_max_distance));
        GateFacts {
            shared_cooldown_remaining: remaining(self.runtime.shared_cooldown_expiry(&key)),
            per_actor_cooldown_remaining: remaining(self.runtime.per_actor_cooldown_expiry(self.actor, &key)),
            out_of_range: self.distance > max_distance,
            line_of_sight_blocked: false,
            predicate_outcomes: slot.availability.predicate_ids.iter().map(|_| Ok(())).collect(),
        }
    }

    fn clock(&self, slot: &InteractionSlot) -> CompletionClock {
        CompletionClock {
            shared_expiry: Seconds { bits: (self.elapsed + fl(slot.cooldown.shared_seconds) as f64).to_bits() },
            per_actor_expiry: Seconds {
                bits: (self.elapsed + fl(slot.cooldown.per_actor_seconds) as f64).to_bits(),
            },
        }
    }

    fn update(&mut self, intents: &[InteractionIntentKind]) {
        self.elapsed += self.dt as f64;
        // confirm buffer countdown
        let remaining = fl(self.control.confirm_buffer_remaining);
        if remaining > 0.0 {
            self.control.confirm_buffer_remaining = sc((remaining - self.dt).max(0.0));
        }
        if self.control.confirm_pressed {
            self.control.confirm_buffer_remaining = self.config.default_input_buffer_seconds;
        }
        for kind in intents {
            self.control.apply_intent(kind);
        }
        // detection
        self.candidates.entries.clear();
        let proximity = fl(self.interactor.proximity_radius.unwrap_or(self.config.default_proximity_radius));
        let max_distance = fl(self.interactor.max_distance.unwrap_or(self.config.default_max_distance));
        if self.interactable.enabled
            && !self.target_slots.slots.is_empty()
            && matches_channel(&self.interactor.channels, &self.interactable.channels)
            && self.distance <= max_distance
            && self.distance <= proximity
        {
            let best = self.target_slots.slots.iter().map(|s| fl(s.priority)).fold(f32::NEG_INFINITY, f32::max).max(0.0);
            add_or_merge_candidate(
                &mut self.candidates.entries,
                InteractionCandidate {
                    target: self.target,
                    source: FocusSource::Proximity,
                    distance: sc(self.distance),
                    alignment: sc(0.0),
                    slot_priority: sc(best),
                    target_priority: self.interactable.priority,
                    score: sc(0.0),
                },
            );
        }
        // scoring
        for c in self.candidates.entries.iter_mut() {
            let distance_score = (1.0 - fl(c.distance) / max_distance.max(0.001)).clamp(0.0, 1.0);
            let score = distance_score * fl(self.interactor.distance_weight)
                + fl(c.alignment).max(0.0) * fl(self.interactor.alignment_weight)
                + fl(c.target_priority) * fl(self.interactor.target_priority_weight)
                + fl(c.slot_priority) * fl(self.interactor.slot_priority_weight);
            c.score = sc(score);
        }
        let limit = effective_candidate_limit(&self.interactor, &self.config);
        rank_candidates(&mut self.candidates.entries, limit);
        // focus
        let h = fl(effective_hysteresis(&self.interactor, &self.config));
        let within: Vec<bool> = match self.candidates.entries.first() {
            Some(best) => self.candidates.entries.iter().map(|e| fl(e.score) >= fl(best.score) || fl(best.score) - fl(e.score) < h).collect(),
            None => Vec::new(),
        };
        update_focus(&mut self.focus, &self.candidates, &within);
        // gating
        let facts: Vec<GateFacts> = self.target_slots.slots.iter().map(|s| self.gate_facts(s)).collect();
        evaluate_focus_offer(
            &self.runtime,
            self.actor,
            &self.interactor,
            None,
            Some((&self.interactable, &self.target_slots)),
            None,
            &facts,
            &mut self.focus,
            &mut self.control,
            &mut self.prompt,
        );
        // execution
        if let Some(active) = self.active.take() {
            let slot = self.target_slots.slots.iter().find(|s| s.id == active.slot_id).cloned();
            let facts = match &slot {
                Some(s) => self.gate_facts(s),
                None => GateFacts::clear(),
            };
            let reason = cancel_active_if_needed(
                &self.runtime,
                self.actor,
                &active,
                &self.focus,
                &self.control,
                Some((&self.interactable, &self.target_slots)),
                None,
                Some(&self.interactor),
                None,
                &facts,
            );
            if let Some(reason) = reason {
                release_reservation(&mut self.runtime, self.actor, active.target, &active.slot_id);
                self.log.canceled += 1;
                self.log.last_canceled = Some(reason);
            } else {
                let p = fl(active.progress);
                let next = match active.execution {
                    InteractionExecution::Hold { duration_seconds } => {
                        (p + self.dt / (fl(duration_seconds) * fl(self.config.hold_time_scale)).max(0.01)).clamp(0.0, 1.0)
                    }
                    InteractionExecution::Mash { required_presses, decay_per_second } => {
                        let mut q = p;
                        if self.control.confirm_pressed {
                            q += 1.0 / required_presses.max(1) as f32;
                        } else if fl(decay_per_second) > 0.0 {
                            q -= fl(decay_per_second) * self.dt / required_presses.max(1) as f32;
                        }
                        q.clamp(0.0, 1.0)
                    }
                    InteractionExecution::Passive { duration_seconds } => {
                        (p + self.dt / fl(duration_seconds).max(0.01)).clamp(0.0, 1.0)
                    }
                    _ => p,
                };
                let clock = match &slot {
                    Some(s) => self.clock(s),
                    None => CompletionClock { shared_expiry: Seconds::zero(), per_actor_expiry: Seconds::zero() },
                };
                let outcome = tick_active(&mut self.runtime, self.actor, active, Some(&self.target_slots), sc(next), clock);
                if outcome.completed.is_some() {
                    self.log.completed += 1;
                }
                if outcome.stage_advanced.is_some() {
                    self.log.stage_advanced += 1;
                }
                self.active = outcome.active;
            }
        } else {
            let offered = self.prompt.offer.as_ref().and_then(|o| {
                self.target_slots.slots.iter().find(|s| s.id == o.slot_id).cloned()
            });
            let (gate, clock, mash) = match &offered {
                Some(s) => {
                    let (planned, _, _) = execution_for_slot(&self.runtime, self.target, s);
                    let mash = match planned {
                        InteractionExecution::Mash { required_presses, .. } => (required_presses as f32 * 0.18).max(0.18),
                        _ => 0.0,
                    };
                    (self.gate_facts(s), self.clock(s), mash)
                }
                None => (
                    GateFacts::clear(),
                    CompletionClock { shared_expiry: Seconds::zero(), per_actor_expiry: Seconds::zero() },
                    0.0,
                ),
            };
            let facts = StartFacts { gate, now: Seconds { bits: self.elapsed.to_bits() }, clock, mash_hold_seconds: sc(mash) };
            let outcome = try_start(
                &mut self.runtime,
                &self.config,
                self.actor,
                &self.interactor,
                None,
                &self.focus,
                &self.prompt,
                &mut self.control,
                Some((&self.interactable, &self.target_slots)),
                None,
                &facts,
            );
            match outcome {
                StartOutcome::Idle => {}
                StartOutcome::Failed(failed) => {
                    self.log.failed += 1;
                    self.log.last_failed = Some(failed.reason);
                }
                StartOutcome::Started { completed, stage_advanced, active, .. } => {
                    if completed.is_some() {
                        self.log.completed += 1;
                    }
                    if stage_advanced.is_some() {
                        self.log.stage_advanced += 1;
                    }
                    self.active = active;
                }
            }
        }
        self.runtime.clear_external_cancels();
        // feedback
        let _ = emit_feedback_messages(&mut self.cache, self.actor, &self.focus, &self.prompt);
        self.control.clear_frame_controls();
    }
}

fn hold_slot(duration: f32) -> InteractionSlot {
    InteractionSlot {
        behavior: InteractionBehavior::Single(InteractionExecution::Hold { duration_seconds: sc(duration) }),
        ..InteractionSlot::instant("hold", "interaction.hold")
    }
}

#[test]
fn instant_interaction_completes_same_frame() {
    let mut scene = Scene::new(InteractionSlot::instant("open", "interaction.open"), InteractionConfig::default());
    scene.update(&[InteractionIntentKind::Press]);
    assert_eq!(scene.log.completed, 1);
    assert!(scene.active.is_none());
}

#[test]
fn hold_progress_reaches_one_after_duration() {
    let mut scene = Scene::new(hold_slot(0.25), InteractionConfig::default());
    scene.update(&[InteractionIntentKind::Press]);
    for _ in 0..3 {
        scene.update(&[]);
    }
    assert_eq!(scene.log.completed, 1);
}

#[test]
fn hold_cancels_on_release() {
    let mut scene = Scene::new(hold_slot(1.0), InteractionConfig::default());
    scene.update(&[InteractionIntentKind::Press]);
    scene.update(&[InteractionIntentKind::Release]);
    assert_eq!(scene.log.canceled, 1);
}

#[test]
fn hold_cancels_on_explicit_cancel() {
    let mut scene = Scene::new(hold_slot(1.0), InteractionConfig::default());
    scene.update(&[InteractionIntentKind::Press]);
    scene.update(&[InteractionIntentKind::Cancel]);
    assert_eq!(scene.log.canceled, 1);
    assert_eq!(scene.log.last_canceled, Some(InteractionCancelReason::ExplicitCancel));
}

#[test]
fn chain_advances_until_terminal_stage() {
    let slot = InteractionSlot {
        behavior: InteractionBehavior::Sequence {
            stages: vec![
                InteractionStage { id: "stage_a".into(), execution: InteractionExecution::Instant, prompt: None },
                InteractionStage { id: "stage_b".into(), execution: InteractionExecution::Instant, prompt: None },
            ],
            advance_mode: SequenceAdvanceMode::StopAtLast,
        },
        ..InteractionSlot::instant("chain", "interaction.chain")
    };
    let mut scene = Scene::new(slot, InteractionConfig::default());
    scene.update(&[InteractionIntentKind::Press]);
    scene.update(&[InteractionIntentKind::Press]);
    assert_eq!(scene.log.completed, 2);
    assert_eq!(scene.log.stage_advanced, 1);
    assert!(scene.focus.slot_id.is_some());
}

#[test]
fn accessibility_mode_transforms_hold_to_toggle() {
    let config = InteractionConfig { hold_to_toggle: true, ..InteractionConfig::default() };
    let mut scene = Scene::new(hold_slot(2.0), config);
    scene.update(&[InteractionIntentKind::Press]);
    assert_eq!(scene.log.completed, 1);
    assert!(scene.active.is_none());
}

#[test]
fn accessibility_mode_transforms_mash_to_hold() {
    let slot = InteractionSlot {
        behavior: InteractionBehavior::Single(InteractionExecution::Mash { required_presses: 3, decay_per_second: sc(0.0) }),
        ..InteractionSlot::instant("mash", "interaction.mash")
    };
    let config = InteractionConfig { mash_auto_complete: true, ..InteractionConfig::default() };
    let mut scene = Scene::new(slot, config);
    scene.update(&[InteractionIntentKind::Press]);
    let active = scene.active.clone().expect("mash accessibility should convert into an active hold");
    assert!(matches!(
        active.execution,
        InteractionExecution::Hold { duration_seconds } if fl(duration_seconds) > 0.0
    ));
    for _ in 0..6 {
        scene.update(&[]);
    }
    assert_eq!(scene.log.completed, 1);
    assert!(scene.active.is_none());
}

#[test]
fn auto_interact_starts_without_manual_confirm() {
    let slot = InteractionSlot {
        auto_trigger_on_focus: true,
        behavior: InteractionBehavior::Single(InteractionExecution::Instant),
        ..InteractionSlot::instant("auto", "interaction.auto")
    };
    let mut scene = Scene::new(slot, InteractionConfig::default());
    for _ in 0..6 {
        scene.update(&[]);
    }
    assert!(scene.focus.target.is_some());
    assert_eq!(scene.log.completed, 1);
    assert_eq!(scene.log.failed, 0);
}

#[test]
fn one_shot_consumption_blocks_repeat_attempts() {
    let mut slot = InteractionSlot::instant("use_once", "interaction.use_once");
    slot.availability.consumption = InteractionConsumption::OnceGlobal;
    let mut scene = Scene::new(slot, InteractionConfig::default());
    scene.update(&[InteractionIntentKind::Press]);
    scene.update(&[InteractionIntentKind::Press]);
    assert_eq!(scene.log.completed, 1);
    assert_eq!(scene.log.failed, 1);
    assert_eq!(scene.log.last_failed, Some(InteractionAvailabilityReason::Consumed));
}

#[test]
fn deactivate_schedule_cleans_transient_state() {
    let mut scene = Scene::new(hold_slot(1.0), InteractionConfig::default());
    scene.update(&[]);
    scene.update(&[InteractionIntentKind::Press]);
    assert!(scene.active.is_some());
    scene.runtime.deactivate();
    deactivate_interactor(
        &mut scene.control,
        &mut scene.candidates,
        &mut scene.focus,
        &mut scene.prompt,
        &mut scene.active,
    );
    assert_eq!(scene.focus, FocusedInteraction::default());
    assert!(scene.prompt.offer.is_none());
    assert!(scene.active.is_none());
    assert!(!scene.runtime.runtime_is_active());
}

#[test]
fn toggle_slot_alternates_states() {
    let slot = InteractionSlot {
        behavior: InteractionBehavior::Single(InteractionExecution::Toggle),
        ..InteractionSlot::instant("switch", "interaction.switch")
    };
    let mut scene = Scene::new(slot, InteractionConfig::default());
    scene.update(&[InteractionIntentKind::Press]);
    let key = TargetSlotKey::new(scene.target, &scene.target_slots.slots[0].id);
    assert_eq!(scene.runtime.toggle_states.get(&key), Some(&true));
    scene.update(&[InteractionIntentKind::Press]);
    assert_eq!(scene.runtime.toggle_states.get(&key), Some(&false));
    assert_eq!(scene.log.completed, 2);
}

#[test]
fn shared_cooldown_blocks_until_it_expires() {
    let mut slot = InteractionSlot::instant("lever", "interaction.lever");
    slot.cooldown.shared_seconds = sc(0.25);
    let mut scene = Scene::new(slot, InteractionConfig::default());
    scene.update(&[InteractionIntentKind::Press]);
    scene.update(&[InteractionIntentKind::Press]);
    assert_eq!(scene.log.completed, 1);
    assert!(matches!(scene.log.last_failed, Some(InteractionAvailabilityReason::SharedCooldown { .. })));
    scene.update(&[]);
    scene.update(&[]);
    scene.update(&[InteractionIntentKind::Press]);
    assert_eq!(scene.log.completed, 2);
}

#[test]
fn passive_completes_without_input() {
    let slot = InteractionSlot {
        behavior: InteractionBehavior::Single(InteractionExecution::Passive { duration_seconds: sc(0.2) }),
        ..InteractionSlot::instant("wait", "interaction.wait")
    };
    let mut scene = Scene::new(slot, InteractionConfig::default());
    scene.update(&[InteractionIntentKind::Press]);
    assert!(scene.active.is_some());
    scene.update(&[]);
    scene.update(&[]);
    assert_eq!(scene.log.completed, 1);
}

#[test]
fn out_of_range_target_is_never_focused() {
    let mut scene = Scene::new(InteractionSlot::instant("open", "interaction.open"), InteractionConfig::default());
    scene.distance = 8.0;
    scene.update(&[InteractionIntentKind::Press]);
    assert!(scene.focus.target.is_none());
    assert!(scene.prompt.offer.is_none());
    assert_eq!(scene.log.completed, 0);
}

#[test]
fn start_would_run_names_the_wanted_available_slot() {
    let mut scene = Scene::new(InteractionSlot::instant("open", "interaction.open"), InteractionConfig::default());
    scene.update(&[]);
    assert!(scene.prompt.offer.is_some());
    let slot = scene.target_slots.slots[0].clone();
    let facts = |scene: &Scene, out_of_range: bool| {
        let mut gate = scene.gate_facts(&slot);
        gate.out_of_range = out_of_range;
        StartFacts { gate, now: Seconds::zero(), clock: scene.clock(&slot), mash_hold_seconds: sc(0.0) }
    };
    let ask = |scene: &Scene, control: &InteractorControlState, facts: &StartFacts| {
        start_would_run(
            &scene.runtime,
            &scene.config,
            scene.actor,
            &scene.interactor,
            None,
            &scene.focus,
            &scene.prompt,
            control,
            Some((&scene.interactable, &scene.target_slots)),
            None,
            facts,
        )
    };
    assert_eq!(ask(&scene, &scene.control, &facts(&scene, false)), None);
    let mut pressed = scene.control.clone();
    pressed.apply_intent(&InteractionIntentKind::Press);
    assert_eq!(ask(&scene, &pressed, &facts(&scene, false)), Some(0));
    assert_eq!(ask(&scene, &pressed, &facts(&scene, true)), None);
}

fn offer_with(offset_x: f32, remaining: f32) -> saddle_interaction::components::InteractionOffer {
    let mut prompt = saddle_interaction::components::InteractionPrompt::default();
    prompt.anchor_offset.x = sc(offset_x);
    saddle_interaction::components::InteractionOffer {
        target: 20,
        slot_id: saddle_interaction::ids::InteractionSlotId::from("use"),
        stage_id: None,
        prompt,
        availability: Some(InteractionAvailabilityReason::SharedCooldown { remaining_seconds: sc(remaining) }),
        suppressed: false,
        source: FocusSource::Proximity,
    }
}

#[test]
fn offers_compare_their_floats_as_floats() {
    let focus = FocusedInteraction::default();
    let mut cache = InteractionFeedbackCache::default();
    let state = |offer| InteractionPromptState { offer: Some(offer) };

    let (_, first) = emit_feedback_messages(&mut cache, 10, &focus, &state(offer_with(0.0, 1.0)));
    assert!(first.is_some());
    // -0.0 equals 0.0: no new offer.
    let (_, same) = emit_feedback_messages(&mut cache, 10, &focus, &state(offer_with(-0.0, 1.0)));
    assert!(same.is_none());
    // A NaN time equals nothing, not even itself: the offer is sent every time.
    let (_, nan_first) = emit_feedback_messages(&mut cache, 10, &focus, &state(offer_with(0.0, f32::NAN)));
    assert!(nan_first.is_some());
    let (_, nan_again) = emit_feedback_messages(&mut cache, 10, &focus, &state(offer_with(0.0, f32::NAN)));
    assert!(nan_again.is_some());
}

#[test]
fn ending_a_cancel_releases_only_the_owner_and_reports() {
    let slot = InteractionSlot {
        reservation: saddle_interaction::components::InteractionReservationPolicy::Exclusive,
        behavior: InteractionBehavior::Single(InteractionExecution::Hold { duration_seconds: sc(1.0) }),
        ..InteractionSlot::instant("seat", "interaction.seat")
    };
    let mut scene = Scene::new(slot, InteractionConfig::default());
    scene.update(&[InteractionIntentKind::Press]);
    let active = scene.active.clone().expect("hold should be active");
    let key = TargetSlotKey::new(scene.target, &active.slot_id);
    assert_eq!(scene.runtime.reservation_owner(&key), Some(scene.actor));

    // Someone else ending the interaction leaves the reservation in place.
    let other = saddle_interaction::execution::end_canceled(&mut scene.runtime, 99, &active, InteractionCancelReason::Busy);
    assert_eq!(other.interactor, 99);
    assert_eq!(scene.runtime.reservation_owner(&key), Some(scene.actor));

    let report = saddle_interaction::execution::end_canceled(
        &mut scene.runtime,
        scene.actor,
        &active,
        InteractionCancelReason::ExplicitCancel,
    );
    assert_eq!(report.interactor, scene.actor);
    assert_eq!(report.target, scene.target);
    assert_eq!(report.slot_id, active.slot_id);
    assert_eq!(report.reason, InteractionCancelReason::ExplicitCancel);
    assert_eq!(scene.runtime.reservation_owner(&key), None);
}

#[test]
fn only_enabled_targets_with_slots_on_a_shared_channel_are_eligible() {
    let interactor = Interactor { channels: vec![InteractionChannel::from("world")], ..Interactor::default() };
    let target = InteractionTarget { slots: vec![InteractionSlot::instant("open", "interaction.open")] };
    let interactable = Interactable::default();
    assert!(target_eligible(&interactor, &interactable, &target));
    let disabled = Interactable { enabled: false, ..Interactable::default() };
    assert!(!target_eligible(&interactor, &disabled, &target));
    assert!(!target_eligible(&interactor, &interactable, &InteractionTarget { slots: vec![] }));
    let ui_only = Interactable { channels: vec![InteractionChannel::from("ui")], ..Interactable::default() };
    assert!(!target_eligible(&interactor, &ui_only, &target));
}

#[test]
fn busy_actors_are_cancelled_or_ticked_and_idle_actors_start() {
    let mut scene = Scene::new(
        InteractionSlot {
            behavior: InteractionBehavior::Single(InteractionExecution::Hold { duration_seconds: sc(1.0) }),
            ..InteractionSlot::instant("hold", "interaction.hold")
        },
        InteractionConfig::default(),
    );
    assert_eq!(saddle_interaction::execution::next_step(&None, None), saddle_interaction::execution::ActorStep::TryStart);
    assert_eq!(
        saddle_interaction::execution::next_step(&None, Some(InteractionCancelReason::Busy)),
        saddle_interaction::execution::ActorStep::TryStart
    );
    scene.update(&[InteractionIntentKind::Press]);
    let active = scene.active.clone();
    assert!(active.is_some());
    assert_eq!(saddle_interaction::execution::next_step(&active, None), saddle_interaction::execution::ActorStep::Tick);
    assert_eq!(
        saddle_interaction::execution::next_step(&active, Some(InteractionCancelReason::FocusLost)),
        saddle_interaction::execution::ActorStep::Cancel(InteractionCancelReason::FocusLost)
    );

    scene.runtime.record_external_cancel(scene.actor, InteractionCancelReason::Other("quit".to_owned()));
    scene.runtime.record_external_cancel(77, InteractionCancelReason::Busy);
    saddle_interaction::execution::finish_pass(&mut scene.runtime);
    assert!(scene.runtime.pending_external_cancels.get(&scene.actor).is_none());
    assert!(scene.runtime.pending_external_cancels.get(&77).is_none());
}
