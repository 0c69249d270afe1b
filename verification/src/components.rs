//! The authored and runtime data of actors, targets, slots, and the offers
//! and interactions that the runtime derives from them.

use vstd::prelude::*;

use crate::ids::{
    EntityId, InteractionChannel, InteractionPredicateId, InteractionSlotId, InteractionStageId,
    InteractionTag,
};
use crate::scalar::{Scalar, Seconds, Vec3Bits};

verus! {

/// Identity of the host's placeholder entity.
pub const PLACEHOLDER_ENTITY: EntityId = 1;

/// How candidates are collected.
#[derive(Clone, Copy, Debug, PartialEq, Eq, Hash, Structural)]
pub enum DetectionMode {
    Picking,
    Proximity,
    Hybrid,
}

/// How a candidate was found.
#[derive(Clone, Copy, Debug, PartialEq, Eq, Hash, Structural)]
pub enum FocusSource {
    Picking,
    Proximity,
    Hybrid,
}

/// How many interactions an actor may run at once.
#[derive(Clone, Copy, Debug, PartialEq, Eq, Hash, Structural)]
pub enum InteractorBusyPolicy {
    SingleActive,
}

/// Whether an offered prompt should be hidden.
#[derive(Clone, Copy, Debug, PartialEq, Eq, Hash, Structural)]
pub enum PromptSuppressionPolicy {
    Never,
    HideWhenUnavailable,
    Always,
}

/// What a staged slot does after its last stage completes.
#[derive(Clone, Copy, Debug, PartialEq, Eq, Hash, Structural)]
pub enum SequenceAdvanceMode {
    StopAtLast,
    Loop,
}

/// Whether several actors may run the same slot at once.
#[derive(Clone, Copy, Debug, PartialEq, Eq, Hash, Structural)]
pub enum InteractionReservationPolicy {
    Shared,
    Exclusive,
}

/// Whether completing a slot uses it up.
#[derive(Clone, Copy, Debug, PartialEq, Eq, Hash, Structural)]
pub enum InteractionConsumption {
    Reusable,
    OnceGlobal,
    OncePerActor,
}

/// How a target asks for line of sight.
#[derive(Clone, Copy, Debug, PartialEq, Eq, Hash, Structural)]
pub enum LineOfSightPolicy {
    Ignore,
    UseInteractorSetting,
    Require,
}

impl Default for DetectionMode {
    fn default() -> (r: Self)
        ensures
            r == DetectionMode::Proximity,
    {
        DetectionMode::Proximity
    }
}

impl Default for FocusSource {
    fn default() -> (r: Self)
        ensures
            r == FocusSource::Proximity,
    {
        FocusSource::Proximity
    }
}

impl Default for InteractorBusyPolicy {
    fn default() -> (r: Self)
        ensures
            r == InteractorBusyPolicy::SingleActive,
    {
        InteractorBusyPolicy::SingleActive
    }
}

impl Default for PromptSuppressionPolicy {
    fn default() -> (r: Self)
        ensures
            r == PromptSuppressionPolicy::Never,
    {
        PromptSuppressionPolicy::Never
    }
}

impl Default for SequenceAdvanceMode {
    fn default() -> (r: Self)
        ensures
            r == SequenceAdvanceMode::StopAtLast,
    {
        SequenceAdvanceMode::StopAtLast
    }
}

impl Default for InteractionReservationPolicy {
    fn default() -> (r: Self)
        ensures
            r == InteractionReservationPolicy::Shared,
    {
        InteractionReservationPolicy::Shared
    }
}

impl Default for InteractionConsumption {
    fn default() -> (r: Self)
        ensures
            r == InteractionConsumption::Reusable,
    {
        InteractionConsumption::Reusable
    }
}

impl Default for LineOfSightPolicy {
    fn default() -> (r: Self)
        ensures
            r == LineOfSightPolicy::UseInteractorSetting,
    {
        LineOfSightPolicy::UseInteractorSetting
    }
}

/// Semantic prompt data for one action.
#[derive(Debug, PartialEq)]
pub struct InteractionPrompt {
    pub prompt_key: String,
    pub action_label_key: String,
    pub input_hint_key: Option<String>,
    pub icon_key: Option<String>,
    pub priority: i32,
    pub suppression: PromptSuppressionPolicy,
    pub anchor_entity: Option<EntityId>,
    pub anchor_offset: Vec3Bits,
}

impl InteractionPrompt {
    /// The prompt every slot starts with.
    pub open spec fn spec_is_default(self) -> bool {
        &&& self.prompt_key@ == "interaction.prompt"@
        &&& self.action_label_key@ == "interaction.action"@
        &&& self.input_hint_key.is_none()
        &&& self.icon_key.is_none()
        &&& self.priority == 0
        &&& self.suppression == PromptSuppressionPolicy::Never
        &&& self.anchor_entity.is_none()
        &&& self.anchor_offset == Vec3Bits::spec_zero()
    }
}

impl Default for InteractionPrompt {
    fn default() -> (r: Self)
        ensures
            r.spec_is_default(),
    {
        InteractionPrompt {
            prompt_key: "interaction.prompt".to_owned(),
            action_label_key: "interaction.action".to_owned(),
            input_hint_key: None,
            icon_key: None,
            priority: 0,
            suppression: PromptSuppressionPolicy::Never,
            anchor_entity: None,
            anchor_offset: Vec3Bits::zero(),
        }
    }
}

impl Clone for InteractionPrompt {
    fn clone(&self) -> (r: Self)
        ensures
            r == *self,
    {
        InteractionPrompt {
            prompt_key: self.prompt_key.clone(),
            action_label_key: self.action_label_key.clone(),
            input_hint_key: clone_opt_string(&self.input_hint_key),
            icon_key: clone_opt_string(&self.icon_key),
            priority: self.priority,
            suppression: self.suppression,
            anchor_entity: self.anchor_entity,
            anchor_offset: self.anchor_offset,
        }
    }
}

/// An exact copy of an optional string.
pub fn clone_opt_string(s: &Option<String>) -> (r: Option<String>)
    ensures
        r == *s,
{
    match s {
        Some(v) => Some(v.clone()),
        None => None,
    }
}

/// Cooldowns applied when a slot completes.
#[derive(Clone, Copy, Debug, PartialEq, Eq, Structural)]
pub struct InteractionCooldown {
    pub shared_seconds: Scalar,
    pub per_actor_seconds: Scalar,
    pub acceptance_delay_seconds: Scalar,
}

impl Default for InteractionCooldown {
    fn default() -> (r: Self)
        ensures
            r.shared_seconds == Scalar::spec_zero(),
            r.per_actor_seconds == Scalar::spec_zero(),
            r.acceptance_delay_seconds == Scalar::spec_zero(),
    {
        InteractionCooldown {
            shared_seconds: Scalar::zero(),
            per_actor_seconds: Scalar::zero(),
            acceptance_delay_seconds: Scalar::zero(),
        }
    }
}

/// Gating rules of one slot.
#[derive(Clone, Debug, PartialEq)]
pub struct InteractionAvailabilityConfig {
    pub enabled: bool,
    pub required_actor_tags: Vec<InteractionTag>,
    pub blocked_actor_tags: Vec<InteractionTag>,
    pub required_target_tags: Vec<InteractionTag>,
    pub blocked_target_tags: Vec<InteractionTag>,
    pub predicate_ids: Vec<InteractionPredicateId>,
    pub consumption: InteractionConsumption,
}

impl Default for InteractionAvailabilityConfig {
    fn default() -> (r: Self)
        ensures
            r.enabled,
            r.required_actor_tags@.len() == 0,
            r.blocked_actor_tags@.len() == 0,
            r.required_target_tags@.len() == 0,
            r.blocked_target_tags@.len() == 0,
            r.predicate_ids@.len() == 0,
            r.consumption == InteractionConsumption::Reusable,
    {
        InteractionAvailabilityConfig {
            enabled: true,
            required_actor_tags: Vec::new(),
            blocked_actor_tags: Vec::new(),
            required_target_tags: Vec::new(),
            blocked_target_tags: Vec::new(),
            predicate_ids: Vec::new(),
            consumption: InteractionConsumption::Reusable,
        }
    }
}

/// Which interruptions cancel a running slot.
#[derive(Clone, Copy, Debug, PartialEq, Eq, Structural)]
pub struct InteractionCancelPolicy {
    pub on_release: bool,
    pub on_focus_loss: bool,
    pub on_distance_break: bool,
    pub on_line_of_sight_break: bool,
    pub on_blocked_state: bool,
}

impl Default for InteractionCancelPolicy {
    fn default() -> (r: Self)
        ensures
            r.on_release && r.on_focus_loss && r.on_distance_break
                && r.on_line_of_sight_break && r.on_blocked_state,
    {
        InteractionCancelPolicy {
            on_release: true,
            on_focus_loss: true,
            on_distance_break: true,
            on_line_of_sight_break: true,
            on_blocked_state: true,
        }
    }
}

/// How one action executes.
#[derive(Clone, Copy, Debug, PartialEq, Eq, Structural)]
pub enum InteractionExecution {
    Instant,
    Hold { duration_seconds: Scalar },
    Toggle,
    Mash { required_presses: u32, decay_per_second: Scalar },
    Passive { duration_seconds: Scalar },
}

impl Default for InteractionExecution {
    fn default() -> (r: Self)
        ensures
            r == InteractionExecution::Instant,
    {
        InteractionExecution::Instant
    }
}

impl InteractionExecution {
    /// Executions that run over several frames and keep an active record.
    pub open spec fn is_timed(self) -> bool {
        ||| self is Hold
        ||| self is Mash
        ||| self is Passive
    }
}

/// One stage of a staged slot.
#[derive(Clone, Debug, PartialEq)]
pub struct InteractionStage {
    pub id: InteractionStageId,
    pub execution: InteractionExecution,
    pub prompt: Option<InteractionPrompt>,
}

/// A single execution or a sequence of stages.
#[derive(Clone, Debug, PartialEq)]
pub enum InteractionBehavior {
    Single(InteractionExecution),
    Sequence { stages: Vec<InteractionStage>, advance_mode: SequenceAdvanceMode },
}

impl Default for InteractionBehavior {
    fn default() -> (r: Self)
        ensures
            r == InteractionBehavior::Single(InteractionExecution::Instant),
    {
        InteractionBehavior::Single(InteractionExecution::Instant)
    }
}

impl InteractionBehavior {
    /// A staged behavior needs at least one stage to run or to be offered.
    pub open spec fn runnable(self) -> bool {
        match self {
            InteractionBehavior::Single(_) => true,
            InteractionBehavior::Sequence { stages, .. } => stages@.len() > 0,
        }
    }
}

/// One authored action on a target.
#[derive(Clone, Debug, PartialEq)]
pub struct InteractionSlot {
    pub id: InteractionSlotId,
    pub prompt: InteractionPrompt,
    pub behavior: InteractionBehavior,
    pub availability: InteractionAvailabilityConfig,
    pub priority: Scalar,
    pub auto_trigger_on_focus: bool,
    pub cooldown: InteractionCooldown,
    pub cancellation: InteractionCancelPolicy,
    pub reservation: InteractionReservationPolicy,
}

impl InteractionSlot {
    /// The fields every slot starts with, apart from its id and prompt.
    pub open spec fn spec_has_default_rules(self) -> bool {
        &&& self.behavior == InteractionBehavior::Single(InteractionExecution::Instant)
        &&& self.availability.enabled
        &&& self.availability.required_actor_tags@.len() == 0
        &&& self.availability.blocked_actor_tags@.len() == 0
        &&& self.availability.required_target_tags@.len() == 0
        &&& self.availability.blocked_target_tags@.len() == 0
        &&& self.availability.predicate_ids@.len() == 0
        &&& self.availability.consumption == InteractionConsumption::Reusable
        &&& self.priority == Scalar::spec_zero()
        &&& !self.auto_trigger_on_focus
        &&& self.cooldown.shared_seconds == Scalar::spec_zero()
        &&& self.cooldown.per_actor_seconds == Scalar::spec_zero()
        &&& self.cooldown.acceptance_delay_seconds == Scalar::spec_zero()
        &&& self.cancellation.on_release
        &&& self.cancellation.on_focus_loss
        &&& self.cancellation.on_distance_break
        &&& self.cancellation.on_line_of_sight_break
        &&& self.cancellation.on_blocked_state
        &&& self.reservation == InteractionReservationPolicy::Shared
    }

    /// An instant, reusable slot with the given id and action label.
    pub fn instant(id: &str, label_key: &str) -> (r: Self)
        ensures
            r.id@ == id@,
            r.prompt.action_label_key@ == label_key@,
            r.prompt.prompt_key@ == "interaction.prompt"@,
            r.prompt.input_hint_key.is_none(),
            r.prompt.icon_key.is_none(),
            r.prompt.priority == 0,
            r.prompt.suppression == PromptSuppressionPolicy::Never,
            r.prompt.anchor_entity.is_none(),
            r.prompt.anchor_offset == Vec3Bits::spec_zero(),
            r.spec_has_default_rules(),
    {
        let mut prompt = InteractionPrompt::default();
        prompt.action_label_key = label_key.to_owned();
        let base = InteractionSlot::default();
        InteractionSlot { id: InteractionSlotId(id.to_owned()), prompt, ..base }
    }
}

impl Default for InteractionSlot {
    fn default() -> (r: Self)
        ensures
            r.id@ == "default"@,
            r.prompt.spec_is_default(),
            r.spec_has_default_rules(),
    {
        InteractionSlot {
            id: InteractionSlotId("default".to_owned()),
            prompt: InteractionPrompt::default(),
            behavior: InteractionBehavior::default(),
            availability: InteractionAvailabilityConfig::default(),
            priority: Scalar::zero(),
            auto_trigger_on_focus: false,
            cooldown: InteractionCooldown::default(),
            cancellation: InteractionCancelPolicy::default(),
            reservation: InteractionReservationPolicy::default(),
        }
    }
}

/// Bit pattern of `1.0`.
pub const ONE_BITS: u32 = 0x3f80_0000;

/// Bit pattern of `0.35`.
pub const DEFAULT_ALIGNMENT_WEIGHT_BITS: u32 = 0x3eb3_3333;

/// Bit pattern of `0.45`.
pub const DEFAULT_SLOT_PRIORITY_WEIGHT_BITS: u32 = 0x3ee6_6666;

/// Bit pattern of `0.75`.
pub const DEFAULT_PICKING_BIAS_BITS: u32 = 0x3f40_0000;

/// Search and ranking settings of one actor.
#[derive(Clone, Debug, PartialEq)]
pub struct Interactor {
    pub detection_mode: Option<DetectionMode>,
    pub max_distance: Option<Scalar>,
    pub proximity_radius: Option<Scalar>,
    pub candidate_limit: Option<usize>,
    pub hysteresis: Option<Scalar>,
    pub distance_weight: Scalar,
    pub alignment_weight: Scalar,
    pub target_priority_weight: Scalar,
    pub slot_priority_weight: Scalar,
    pub picking_bias: Scalar,
    pub require_line_of_sight: bool,
    pub channels: Vec<InteractionChannel>,
    pub busy_policy: InteractorBusyPolicy,
}

impl Default for Interactor {
    fn default() -> (r: Self)
        ensures
            r.detection_mode.is_none(),
            r.max_distance.is_none(),
            r.proximity_radius.is_none(),
            r.candidate_limit.is_none(),
            r.hysteresis.is_none(),
            r.distance_weight.bits == ONE_BITS,
            r.alignment_weight.bits == DEFAULT_ALIGNMENT_WEIGHT_BITS,
            r.target_priority_weight.bits == ONE_BITS,
            r.slot_priority_weight.bits == DEFAULT_SLOT_PRIORITY_WEIGHT_BITS,
            r.picking_bias.bits == DEFAULT_PICKING_BIAS_BITS,
            !r.require_line_of_sight,
            r.channels@.len() == 1,
            r.channels@[0]@ == "world"@,
            r.busy_policy == InteractorBusyPolicy::SingleActive,
    {
        let mut channels = Vec::new();
        channels.push(InteractionChannel::world());
        Interactor {
            detection_mode: None,
            max_distance: None,
            proximity_radius: None,
            candidate_limit: None,
            hysteresis: None,
            distance_weight: Scalar { bits: ONE_BITS },
            alignment_weight: Scalar { bits: DEFAULT_ALIGNMENT_WEIGHT_BITS },
            target_priority_weight: Scalar { bits: ONE_BITS },
            slot_priority_weight: Scalar { bits: DEFAULT_SLOT_PRIORITY_WEIGHT_BITS },
            picking_bias: Scalar { bits: DEFAULT_PICKING_BIAS_BITS },
            require_line_of_sight: false,
            channels,
            busy_policy: InteractorBusyPolicy::SingleActive,
        }
    }
}

/// Target-level settings shared by all slots of a target.
#[derive(Clone, Debug, PartialEq)]
pub struct Interactable {
    pub enabled: bool,
    pub focus_radius: Option<Scalar>,
    pub priority: Scalar,
    pub channels: Vec<InteractionChannel>,
    pub line_of_sight_policy: LineOfSightPolicy,
    pub anchor_entity: Option<EntityId>,
    pub anchor_offset: Vec3Bits,
}

impl Default for Interactable {
    fn default() -> (r: Self)
        ensures
            r.enabled,
            r.focus_radius.is_none(),
            r.priority == Scalar::spec_zero(),
            r.channels@.len() == 1,
            r.channels@[0]@ == "world"@,
            r.line_of_sight_policy == LineOfSightPolicy::UseInteractorSetting,
            r.anchor_entity.is_none(),
            r.anchor_offset == Vec3Bits::spec_zero(),
    {
        let mut channels = Vec::new();
        channels.push(InteractionChannel::world());
        Interactable {
            enabled: true,
            focus_radius: None,
            priority: Scalar::zero(),
            channels,
            line_of_sight_policy: LineOfSightPolicy::UseInteractorSetting,
            anchor_entity: None,
            anchor_offset: Vec3Bits::zero(),
        }
    }
}

/// The slots a target exposes.
#[derive(Clone, Debug, PartialEq)]
pub struct InteractionTarget {
    pub slots: Vec<InteractionSlot>,
}

impl Default for InteractionTarget {
    fn default() -> (r: Self)
        ensures
            r.slots@.len() == 0,
    {
        InteractionTarget { slots: Vec::new() }
    }
}

/// Tags carried by an actor or a target.
#[derive(Clone, Debug, PartialEq)]
pub struct InteractionTags {
    pub tags: Vec<InteractionTag>,
}

/// The names of a list of tags.
pub open spec fn tag_names(tags: Seq<InteractionTag>) -> Seq<Seq<char>> {
    tags.map_values(|t: InteractionTag| t@)
}

impl InteractionTags {
    pub open spec fn names(self) -> Seq<Seq<char>> {
        tag_names(self.tags@)
    }

    /// Whether a tag of this name is carried.
    pub open spec fn has(self, name: Seq<char>) -> bool {
        self.names().contains(name)
    }

    /// Whether `tag` is carried.
    pub fn contains(&self, tag: &InteractionTag) -> (r: bool)
        ensures
            r == self.has(tag@),
    {
        let mut i: usize = 0;
        while i < self.tags.len()
            invariant
                i <= self.tags@.len(),
                forall|j: int| 0 <= j < i ==> self.tags@[j]@ != tag@,
            decreases self.tags@.len() - i,
        {
            if self.tags[i].same(tag) {
                proof {
                    assert(self.names()[i as int] == tag@);
                }
                return true;
            }
            i = i + 1;
        }
        proof {
            if self.names().contains(tag@) {
                let k = choose|k: int| 0 <= k < self.names().len() && self.names()[k] == tag@;
                assert(self.tags@[k]@ == tag@);
            }
        }
        false
    }
}

impl Default for InteractionTags {
    fn default() -> (r: Self)
        ensures
            r.tags@.len() == 0,
    {
        InteractionTags { tags: Vec::new() }
    }
}

/// Why a slot cannot be used right now.
#[derive(Debug, PartialEq)]
pub enum InteractionAvailabilityReason {
    Disabled,
    Busy,
    ReservedByOther,
    Consumed,
    MissingActorTag(InteractionTag),
    BlockedActorTag(InteractionTag),
    MissingTargetTag(InteractionTag),
    BlockedTargetTag(InteractionTag),
    SharedCooldown { remaining_seconds: Scalar },
    PerActorCooldown { remaining_seconds: Scalar },
    PredicateFailed { predicate: InteractionPredicateId, detail_key: Option<String> },
    OutOfRange,
    LineOfSightBlocked,
    MissingTarget,
    NoSlots,
}

impl Clone for InteractionAvailabilityReason {
    fn clone(&self) -> (r: Self)
        ensures
            r == *self,
    {
        match self {
            InteractionAvailabilityReason::Disabled => InteractionAvailabilityReason::Disabled,
            InteractionAvailabilityReason::Busy => InteractionAvailabilityReason::Busy,
            InteractionAvailabilityReason::ReservedByOther => InteractionAvailabilityReason::ReservedByOther,
            InteractionAvailabilityReason::Consumed => InteractionAvailabilityReason::Consumed,
            InteractionAvailabilityReason::MissingActorTag(t) => InteractionAvailabilityReason::MissingActorTag(t.clone()),
            InteractionAvailabilityReason::BlockedActorTag(t) => InteractionAvailabilityReason::BlockedActorTag(t.clone()),
            InteractionAvailabilityReason::MissingTargetTag(t) => InteractionAvailabilityReason::MissingTargetTag(t.clone()),
            InteractionAvailabilityReason::BlockedTargetTag(t) => InteractionAvailabilityReason::BlockedTargetTag(t.clone()),
            InteractionAvailabilityReason::SharedCooldown { remaining_seconds } => InteractionAvailabilityReason::SharedCooldown { remaining_seconds: *remaining_seconds },
            InteractionAvailabilityReason::PerActorCooldown { remaining_seconds } => InteractionAvailabilityReason::PerActorCooldown { remaining_seconds: *remaining_seconds },
            InteractionAvailabilityReason::PredicateFailed { predicate, detail_key } => InteractionAvailabilityReason::PredicateFailed {
                predicate: predicate.clone(),
                detail_key: clone_opt_string(detail_key),
            },
            InteractionAvailabilityReason::OutOfRange => InteractionAvailabilityReason::OutOfRange,
            InteractionAvailabilityReason::LineOfSightBlocked => InteractionAvailabilityReason::LineOfSightBlocked,
            InteractionAvailabilityReason::MissingTarget => InteractionAvailabilityReason::MissingTarget,
            InteractionAvailabilityReason::NoSlots => InteractionAvailabilityReason::NoSlots,
        }
    }
}

/// Why a running interaction stopped before completing.
#[derive(Debug, PartialEq)]
pub enum InteractionCancelReason {
    ExplicitCancel,
    InputReleased,
    FocusLost,
    DistanceBreak,
    LineOfSightBreak,
    Busy,
    TargetMissing,
    ReservationLost,
    PredicateInvalidated { predicate: InteractionPredicateId, detail_key: Option<String> },
    Other(String),
}

impl Clone for InteractionCancelReason {
    fn clone(&self) -> (r: Self)
        ensures
            r == *self,
    {
        match self {
            InteractionCancelReason::ExplicitCancel => InteractionCancelReason::ExplicitCancel,
            InteractionCancelReason::InputReleased => InteractionCancelReason::InputReleased,
            InteractionCancelReason::FocusLost => InteractionCancelReason::FocusLost,
            InteractionCancelReason::DistanceBreak => InteractionCancelReason::DistanceBreak,
            InteractionCancelReason::LineOfSightBreak => InteractionCancelReason::LineOfSightBreak,
            InteractionCancelReason::Busy => InteractionCancelReason::Busy,
            InteractionCancelReason::TargetMissing => InteractionCancelReason::TargetMissing,
            InteractionCancelReason::ReservationLost => InteractionCancelReason::ReservationLost,
            InteractionCancelReason::PredicateInvalidated { predicate, detail_key } => InteractionCancelReason::PredicateInvalidated {
                predicate: predicate.clone(),
                detail_key: clone_opt_string(detail_key),
            },
            InteractionCancelReason::Other(s) => InteractionCancelReason::Other(s.clone()),
        }
    }
}

/// One target found by detection, with the measures ranking reads.
#[derive(Clone, Copy, Debug, PartialEq, Eq, Structural)]
pub struct InteractionCandidate {
    pub target: EntityId,
    pub source: FocusSource,
    pub distance: Scalar,
    pub alignment: Scalar,
    pub slot_priority: Scalar,
    pub target_priority: Scalar,
    pub score: Scalar,
}

impl Default for InteractionCandidate {
    fn default() -> (r: Self)
        ensures
            r.target == PLACEHOLDER_ENTITY,
            r.source == FocusSource::Proximity,
            r.distance == Scalar::spec_zero(),
            r.alignment == Scalar::spec_zero(),
            r.slot_priority == Scalar::spec_zero(),
            r.target_priority == Scalar::spec_zero(),
            r.score == Scalar::spec_zero(),
    {
        InteractionCandidate {
            target: PLACEHOLDER_ENTITY,
            source: FocusSource::Proximity,
            distance: Scalar::zero(),
            alignment: Scalar::zero(),
            slot_priority: Scalar::zero(),
            target_priority: Scalar::zero(),
            score: Scalar::zero(),
        }
    }
}

/// The ranked candidates of one actor, best first.
#[derive(Clone, Debug, PartialEq)]
pub struct InteractionCandidates {
    pub entries: Vec<InteractionCandidate>,
}

impl Default for InteractionCandidates {
    fn default() -> (r: Self)
        ensures
            r.entries@.len() == 0,
    {
        InteractionCandidates { entries: Vec::new() }
    }
}

/// The target, slot, and source an actor currently focuses.
#[derive(Debug, PartialEq)]
pub struct FocusedInteraction {
    pub target: Option<EntityId>,
    pub slot_id: Option<InteractionSlotId>,
    pub source: Option<FocusSource>,
}

impl Default for FocusedInteraction {
    fn default() -> (r: Self)
        ensures
            r.target.is_none(),
            r.slot_id.is_none(),
            r.source.is_none(),
    {
        FocusedInteraction { target: None, slot_id: None, source: None }
    }
}

/// An exact copy of an optional slot id.
pub fn clone_opt_slot_id(s: &Option<InteractionSlotId>) -> (r: Option<InteractionSlotId>)
    ensures
        r == *s,
{
    match s {
        Some(v) => Some(v.clone()),
        None => None,
    }
}

/// An exact copy of an optional stage id.
pub fn clone_opt_stage_id(s: &Option<InteractionStageId>) -> (r: Option<InteractionStageId>)
    ensures
        r == *s,
{
    match s {
        Some(v) => Some(v.clone()),
        None => None,
    }
}

impl Clone for FocusedInteraction {
    fn clone(&self) -> (r: Self)
        ensures
            r == *self,
    {
        FocusedInteraction {
            target: self.target,
            slot_id: clone_opt_slot_id(&self.slot_id),
            source: self.source,
        }
    }
}

/// The slot resolved for an actor's focused target, with its prompt and
/// availability.
#[derive(Debug, PartialEq)]
pub struct InteractionOffer {
    pub target: EntityId,
    pub slot_id: InteractionSlotId,
    pub stage_id: Option<InteractionStageId>,
    pub prompt: InteractionPrompt,
    pub availability: Option<InteractionAvailabilityReason>,
    pub suppressed: bool,
    pub source: FocusSource,
}

impl Clone for InteractionOffer {
    fn clone(&self) -> (r: Self)
        ensures
            r == *self,
    {
        InteractionOffer {
            target: self.target,
            slot_id: self.slot_id.clone(),
            stage_id: clone_opt_stage_id(&self.stage_id),
            prompt: self.prompt.clone(),
            availability: match &self.availability {
                Some(a) => Some(a.clone()),
                None => None,
            },
            suppressed: self.suppressed,
            source: self.source,
        }
    }
}

/// The offer currently shown to an actor.
#[derive(Debug, PartialEq)]
pub struct InteractionPromptState {
    pub offer: Option<InteractionOffer>,
}

impl Default for InteractionPromptState {
    fn default() -> (r: Self)
        ensures
            r.offer.is_none(),
    {
        InteractionPromptState { offer: None }
    }
}

impl Clone for InteractionPromptState {
    fn clone(&self) -> (r: Self)
        ensures
            r == *self,
    {
        InteractionPromptState {
            offer: match &self.offer {
                Some(o) => Some(o.clone()),
                None => None,
            },
        }
    }
}

/// The actors that currently focus a target.
#[derive(Clone, Debug, PartialEq)]
pub struct InteractionFocusedBy {
    pub interactors: Vec<EntityId>,
}

impl Default for InteractionFocusedBy {
    fn default() -> (r: Self)
        ensures
            r.interactors@.len() == 0,
    {
        InteractionFocusedBy { interactors: Vec::new() }
    }
}

/// A timed interaction in progress.
#[derive(Debug, PartialEq)]
pub struct ActiveInteraction {
    pub target: EntityId,
    pub slot_id: InteractionSlotId,
    pub stage_id: Option<InteractionStageId>,
    pub execution: InteractionExecution,
    pub progress: Scalar,
    pub started_at_seconds: Seconds,
    pub toggle_state: Option<bool>,
    pub stage_index: usize,
}

impl Clone for ActiveInteraction {
    fn clone(&self) -> (r: Self)
        ensures
            r == *self,
    {
        ActiveInteraction {
            target: self.target,
            slot_id: self.slot_id.clone(),
            stage_id: clone_opt_stage_id(&self.stage_id),
            execution: self.execution,
            progress: self.progress,
            started_at_seconds: self.started_at_seconds,
            toggle_state: self.toggle_state,
            stage_index: self.stage_index,
        }
    }
}

} // verus!
