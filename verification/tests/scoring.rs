//! Ranking, focus, and candidate merging on concrete values.

use saddle_interaction::components::{
    FocusSource, FocusedInteraction, Interactable, InteractionCandidate, InteractionCandidates,
    InteractionSlot, InteractionTarget, Interactor, PLACEHOLDER_ENTITY,
};
use saddle_interaction::config::InteractionConfig;
use saddle_interaction::control::{add_or_merge_candidate, merge_source};
use saddle_interaction::focus::{effective_hysteresis, update_focus};
use saddle_interaction::scalar::Scalar;
use saddle_interaction::scoring::{best_slot_priority, effective_candidate_limit, rank_candidates};

fn sc(x: f32) -> Scalar {
    Scalar { bits: x.to_bits() }
}

fn fl(x: Scalar) -> f32 {
    f32::from_bits(x.bits)
}

/// The additive candidate score: normalized distance, alignment, target
/// priority, best slot priority, and the source bonus, each weighted.
fn score(interactor: &Interactor, config: &InteractionConfig, c: &InteractionCandidate, slot_priority: f32) -> f32 {
    let max_distance = fl(interactor.max_distance.unwrap_or(config.default_max_distance)).max(0.001);
    let distance_score = (1.0 - fl(c.distance) / max_distance).clamp(0.0, 1.0);
    let bias = match c.source {
        FocusSource::Picking => fl(interactor.picking_bias),
        FocusSource::Hybrid => fl(interactor.picking_bias) * 1.15,
        FocusSource::Proximity => 0.0,
    };
    distance_score * fl(interactor.distance_weight)
        + fl(c.alignment).max(0.0) * fl(interactor.alignment_weight)
        + fl(c.target_priority) * fl(interactor.target_priority_weight)
        + slot_priority * fl(interactor.slot_priority_weight)
        + bias
}

#[test]
fn priority_bonus_can_override_distance() {
    let config = InteractionConfig::default();
    let near = 1;
    let far_but_important = 2;
    let near_target = (
        Interactable { priority: sc(0.0), ..Interactable::default() },
        InteractionTarget { slots: vec![InteractionSlot { priority: sc(0.0), ..InteractionSlot::instant("near", "interaction.near") }] },
    );
    let far_target = (
        Interactable { priority: sc(2.0), ..Interactable::default() },
        InteractionTarget { slots: vec![InteractionSlot { priority: sc(2.0), ..InteractionSlot::instant("important", "interaction.important") }] },
    );
    let interactor = Interactor {
        max_distance: Some(sc(10.0)),
        distance_weight: sc(0.5),
        target_priority_weight: sc(1.5),
        slot_priority_weight: sc(1.0),
        ..Interactor::default()
    };
    let mut candidates = InteractionCandidates {
        entries: vec![
            InteractionCandidate { target: near, source: FocusSource::Proximity, distance: sc(1.0), ..InteractionCandidate::default() },
            InteractionCandidate { target: far_but_important, source: FocusSource::Proximity, distance: sc(4.0), ..InteractionCandidate::default() },
        ],
    };
    for c in candidates.entries.iter_mut() {
        let (interactable, target) = if c.target == near { &near_target } else { &far_target };
        let _ = interactable;
        let slot_priority = best_slot_priority(&target.slots).map(fl).unwrap_or(fl(c.slot_priority));
        c.score = sc(score(&interactor, &config, c, slot_priority));
    }
    let limit = effective_candidate_limit(&interactor, &config);
    rank_candidates(&mut candidates.entries, limit);
    assert_eq!(candidates.entries[0].target, far_but_important);
}

#[test]
fn sticky_focus_does_not_thrash_between_close_scores() {
    let config = InteractionConfig { hysteresis: sc(0.3), ..InteractionConfig::default() };
    let first = 1;
    let second = 2;
    let interactor = Interactor { hysteresis: Some(sc(0.3)), ..Interactor::default() };
    let candidates = InteractionCandidates {
        entries: vec![
            InteractionCandidate { target: second, score: sc(1.0), ..InteractionCandidate::default() },
            InteractionCandidate { target: first, score: sc(0.85), ..InteractionCandidate::default() },
        ],
    };
    let mut focus = FocusedInteraction { target: Some(first), slot_id: None, source: Some(FocusSource::Proximity) };
    let h = fl(effective_hysteresis(&interactor, &config));
    let best = fl(candidates.entries[0].score);
    let within: Vec<bool> = candidates.entries.iter().map(|e| fl(e.score) >= best || best - fl(e.score) < h).collect();
    update_focus(&mut focus, &candidates, &within);
    assert_eq!(focus.target, Some(first));
}

#[test]
fn focus_moves_when_margin_is_exceeded() {
    let candidates = InteractionCandidates {
        entries: vec![
            InteractionCandidate { target: 2, score: sc(2.0), source: FocusSource::Picking, ..InteractionCandidate::default() },
            InteractionCandidate { target: 1, score: sc(0.5), ..InteractionCandidate::default() },
        ],
    };
    let mut focus = FocusedInteraction { target: Some(1), slot_id: Some("open".into()), source: Some(FocusSource::Proximity) };
    update_focus(&mut focus, &candidates, &vec![true, false]);
    assert_eq!(focus, FocusedInteraction { target: Some(2), slot_id: None, source: Some(FocusSource::Picking) });
    update_focus(&mut focus, &InteractionCandidates::default(), &Vec::new());
    assert_eq!(focus, FocusedInteraction::default());
}

#[test]
fn ranking_orders_by_score_then_distance_then_arrival() {
    let c = |target: u64, score: f32, distance: f32| InteractionCandidate {
        target,
        score: sc(score),
        distance: sc(distance),
        ..InteractionCandidate::default()
    };
    let mut entries = vec![c(1, 1.0, 3.0), c(2, 2.0, 5.0), c(3, 1.0, 2.0), c(4, 1.0, 2.0), c(5, -1.0, 0.0)];
    rank_candidates(&mut entries, 4);
    let order: Vec<u64> = entries.iter().map(|e| e.target).collect();
    assert_eq!(order, vec![2, 3, 4, 1]);
    let interactor = Interactor { candidate_limit: Some(0), ..Interactor::default() };
    assert_eq!(effective_candidate_limit(&interactor, &InteractionConfig::default()), 1);
    assert_eq!(effective_candidate_limit(&Interactor::default(), &InteractionConfig::default()), 8);
}

#[test]
fn sightings_of_one_target_merge() {
    let mut entries = Vec::new();
    add_or_merge_candidate(&mut entries, InteractionCandidate {
        target: 7,
        source: FocusSource::Proximity,
        distance: sc(3.0),
        alignment: sc(0.2),
        slot_priority: sc(1.0),
        target_priority: sc(0.0),
        score: sc(0.0),
    });
    add_or_merge_candidate(&mut entries, InteractionCandidate {
        target: 7,
        source: FocusSource::Picking,
        distance: sc(2.5),
        alignment: sc(1.0),
        slot_priority: sc(0.5),
        target_priority: sc(4.0),
        score: sc(9.0),
    });
    assert_eq!(entries.len(), 1);
    let merged = entries[0];
    assert_eq!(merged.source, FocusSource::Hybrid);
    assert_eq!(fl(merged.distance), 2.5);
    assert_eq!(fl(merged.alignment), 1.0);
    assert_eq!(fl(merged.slot_priority), 1.0);
    assert_eq!(fl(merged.target_priority), 4.0);
    assert_eq!(fl(merged.score), 0.0);
    add_or_merge_candidate(&mut entries, InteractionCandidate { target: 8, ..InteractionCandidate::default() });
    assert_eq!(entries.len(), 2);
    assert_eq!(merge_source(FocusSource::Picking, FocusSource::Picking), FocusSource::Picking);
    assert_eq!(merge_source(FocusSource::Proximity, FocusSource::Hybrid), FocusSource::Hybrid);
}

#[test]
fn nan_measures_lose_to_numbers_when_merging() {
    let a = sc(f32::NAN);
    let b = sc(2.0);
    assert_eq!(fl(a.min_num(b)), 2.0);
    assert_eq!(fl(b.max_num(a)), 2.0);
    assert_eq!(fl(sc(-1.0).min_num(sc(3.0))), -1.0);
}

#[test]
fn best_slot_priority_picks_the_maximum() {
    let slots = vec![
        InteractionSlot { priority: sc(-2.0), ..InteractionSlot::instant("a", "a") },
        InteractionSlot { priority: sc(3.5), ..InteractionSlot::instant("b", "b") },
        InteractionSlot { priority: sc(1.0), ..InteractionSlot::instant("c", "c") },
    ];
    assert_eq!(best_slot_priority(&slots).map(fl), Some(3.5));
    assert_eq!(best_slot_priority(&Vec::new()), None);
}

#[test]
fn total_order_matches_f32_total_cmp() {
    let values = [f32::NEG_INFINITY, -2.0, -0.0, 0.0, 1e-30, 1.0, f32::INFINITY];
    for a in values {
        for b in values {
            assert_eq!(sc(a).total_less_than(sc(b)), a.total_cmp(&b) == std::cmp::Ordering::Less);
        }
    }
    assert!(sc(1.0).is_at_least_one());
    assert!(!sc(0.999).is_at_least_one());
    assert!(sc(0.1).is_positive());
    assert!(!sc(-0.0).is_positive());
    assert!(!sc(f32::NAN).is_positive());
}

#[test]
fn placeholder_identity_matches_host_default() {
    assert_eq!(InteractionCandidate::default().target, PLACEHOLDER_ENTITY);
    assert_eq!(bevy::ecs::entity::Entity::PLACEHOLDER.to_bits(), PLACEHOLDER_ENTITY);
}
