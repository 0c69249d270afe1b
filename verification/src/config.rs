//! Runtime-wide defaults, predicate outcomes, and counters.

use vstd::prelude::*;

use crate::components::DetectionMode;
use crate::scalar::Scalar;

verus! {

/// Bit pattern of `4.0`.
pub const DEFAULT_MAX_DISTANCE_BITS: u32 = 0x4080_0000;

/// Bit pattern of `3.0`.
pub const DEFAULT_PROXIMITY_RADIUS_BITS: u32 = 0x4040_0000;

/// Bit pattern of `0.15`.
pub const DEFAULT_HYSTERESIS_BITS: u32 = 0x3e19_999a;

/// Bit pattern of `0.12`.
pub const DEFAULT_INPUT_BUFFER_BITS: u32 = 0x3df5_c28f;

/// Bit pattern of `1.0`.
pub const UNIT_SCALE_BITS: u32 = 0x3f80_0000;

/// Number of candidates kept per actor unless the actor says otherwise.
pub const DEFAULT_CANDIDATE_LIMIT: usize = 8;

/// Runtime-wide defaults.
#[derive(Clone, Debug, PartialEq)]
pub struct InteractionConfig {
    pub detection_mode: DetectionMode,
    pub default_max_distance: Scalar,
    pub default_proximity_radius: Scalar,
    pub default_candidate_limit: usize,
    pub hysteresis: Scalar,
    pub default_input_buffer_seconds: Scalar,
    pub hold_time_scale: Scalar,
    pub detection_radius_scale: Scalar,
    pub hold_to_toggle: bool,
    pub mash_auto_complete: bool,
    pub auto_interact_on_focus: bool,
}

impl Default for InteractionConfig {
    fn default() -> (r: Self)
        ensures
            r.detection_mode == DetectionMode::Proximity,
            r.default_max_distance.bits == DEFAULT_MAX_DISTANCE_BITS,
            r.default_proximity_radius.bits == DEFAULT_PROXIMITY_RADIUS_BITS,
            r.default_candidate_limit == DEFAULT_CANDIDATE_LIMIT,
            r.hysteresis.bits == DEFAULT_HYSTERESIS_BITS,
            r.default_input_buffer_seconds.bits == DEFAULT_INPUT_BUFFER_BITS,
            r.hold_time_scale.bits == UNIT_SCALE_BITS,
            r.detection_radius_scale.bits == UNIT_SCALE_BITS,
            !r.hold_to_toggle,
            !r.mash_auto_complete,
            !r.auto_interact_on_focus,
    {
        InteractionConfig {
            detection_mode: DetectionMode::Proximity,
            default_max_distance: Scalar { bits: DEFAULT_MAX_DISTANCE_BITS },
            default_proximity_radius: Scalar { bits: DEFAULT_PROXIMITY_RADIUS_BITS },
            default_candidate_limit: DEFAULT_CANDIDATE_LIMIT,
            hysteresis: Scalar { bits: DEFAULT_HYSTERESIS_BITS },
            default_input_buffer_seconds: Scalar { bits: DEFAULT_INPUT_BUFFER_BITS },
            hold_time_scale: Scalar { bits: UNIT_SCALE_BITS },
            detection_radius_scale: Scalar { bits: UNIT_SCALE_BITS },
            hold_to_toggle: false,
            mash_auto_complete: false,
            auto_interact_on_focus: false,
        }
    }
}

/// What a failing availability predicate reports.
#[derive(Debug, PartialEq)]
pub struct InteractionPredicateFailure {
    pub detail_key: Option<String>,
}

impl Default for InteractionPredicateFailure {
    fn default() -> (r: Self)
        ensures
            r.detail_key.is_none(),
    {
        InteractionPredicateFailure { detail_key: None }
    }
}

impl Clone for InteractionPredicateFailure {
    fn clone(&self) -> (r: Self)
        ensures
            r == *self,
    {
        InteractionPredicateFailure { detail_key: crate::components::clone_opt_string(&self.detail_key) }
    }
}

/// Counters the runtime refreshes every update.
#[derive(Clone, Copy, Debug, PartialEq, Eq, Structural)]
pub struct InteractionStats {
    pub interactor_count: usize,
    pub candidate_count: usize,
    pub active_interaction_count: usize,
    pub reservation_count: usize,
}

impl Default for InteractionStats {
    fn default() -> (r: Self)
        ensures
            r.interactor_count == 0,
            r.candidate_count == 0,
            r.active_interaction_count == 0,
            r.reservation_count == 0,
    {
        InteractionStats {
            interactor_count: 0,
            candidate_count: 0,
            active_interaction_count: 0,
            reservation_count: 0,
        }
    }
}

/// Switches for the debug overlay.
#[derive(Clone, Copy, Debug, PartialEq, Eq, Structural)]
pub struct InteractionDebugSettings {
    pub enabled: bool,
    pub draw_proximity_rings: bool,
    pub draw_candidate_lines: bool,
    pub draw_focus_lines: bool,
}

impl Default for InteractionDebugSettings {
    fn default() -> (r: Self)
        ensures
            !r.enabled,
            r.draw_proximity_rings,
            r.draw_candidate_lines,
            r.draw_focus_lines,
    {
        InteractionDebugSettings {
            enabled: false,
            draw_proximity_rings: true,
            draw_candidate_lines: true,
            draw_focus_lines: true,
        }
    }
}

impl InteractionDebugSettings {
    /// Whether the overlay runs at all.
    pub fn debug_enabled(&self) -> (r: bool)
        ensures
            r == self.enabled,
    {
        self.enabled
    }
}

} // verus!
