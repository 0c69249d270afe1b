//! Channel compatibility, detection-mode resolution, and the current stage,
//! execution, and prompt of a slot.

use vstd::prelude::*;

use crate::components::{
    DetectionMode, InteractionBehavior, InteractionExecution, InteractionPrompt, InteractionSlot,
    InteractionStage, InteractionTarget, Interactable, Interactor,
};
use crate::ids::{EntityId, InteractionChannel, InteractionStageId, TargetSlotKey};
use crate::runtime::{InteractionRuntimeState, RuntimeView};

verus! {

/// The names of a list of channels.
pub open spec fn channel_names(channels: Seq<InteractionChannel>) -> Seq<Seq<char>> {
    channels.map_values(|c: InteractionChannel| c@)
}

/// Two channel lists are compatible when either is empty or they share a
/// channel name.
pub open spec fn channels_compatible(a: Seq<InteractionChannel>, b: Seq<InteractionChannel>) -> bool {
    ||| a.len() == 0
    ||| b.len() == 0
    ||| exists|i: int, j: int| 0 <= i < a.len() && 0 <= j < b.len() && #[trigger] a[i]@ == #[trigger] b[j]@
}

/// Whether an interactor on `interactor_channels` may see a target on
/// `target_channels`.
pub fn matches_channel(
    interactor_channels: &Vec<InteractionChannel>,
    target_channels: &Vec<InteractionChannel>,
) -> (r: bool)
    ensures
        r == channels_compatible(interactor_channels@, target_channels@),
{
    if interactor_channels.len() == 0 || target_channels.len() == 0 {
        return true;
    }
    let mut i: usize = 0;
    while i < interactor_channels.len()
        invariant
            i <= interactor_channels@.len(),
            forall|a: int, b: int|
                0 <= a < i && 0 <= b < target_channels@.len() ==> interactor_channels@[a]@
                    != target_channels@[b]@,
        decreases interactor_channels@.len() - i,
    {
        let mut j: usize = 0;
        while j < target_channels.len()
            invariant
                i < interactor_channels@.len(),
                j <= target_channels@.len(),
                forall|a: int, b: int|
                    0 <= a < i && 0 <= b < target_channels@.len() ==> interactor_channels@[a]@
                        != target_channels@[b]@,
                forall|b: int| 0 <= b < j ==> interactor_channels@[i as int]@ != target_channels@[b]@,
            decreases target_channels@.len() - j,
        {
            if target_channels[j].same(&interactor_channels[i]) {
                assert(interactor_channels@[i as int]@ == target_channels@[j as int]@);
                return true;
            }
            j = j + 1;
        }
        i = i + 1;
    }
    false
}

/// Channel compatibility does not depend on which side is the interactor.
pub proof fn channels_compatible_symmetric(a: Seq<InteractionChannel>, b: Seq<InteractionChannel>)
    ensures
        channels_compatible(a, b) == channels_compatible(b, a),
{
    if channels_compatible(a, b) && a.len() != 0 && b.len() != 0 {
        let (i, j) = choose|i: int, j: int| 0 <= i < a.len() && 0 <= j < b.len() && #[trigger] a[i]@ == #[trigger] b[j]@;
        assert(b[j]@ == a[i]@);
    }
    if channels_compatible(b, a) && a.len() != 0 && b.len() != 0 {
        let (j, i) = choose|j: int, i: int| 0 <= j < b.len() && 0 <= i < a.len() && #[trigger] b[j]@ == #[trigger] a[i]@;
        assert(a[i]@ == b[j]@);
    }
}

/// Whether a target can be a candidate of an actor: it is enabled, has at
/// least one slot, and shares a channel with the actor.
pub fn target_eligible(interactor: &Interactor, interactable: &Interactable, target: &InteractionTarget) -> (r: bool)
    ensures
        r == (interactable.enabled && target.slots@.len() > 0 && channels_compatible(
            interactor.channels@,
            interactable.channels@,
        )),
{
    interactable.enabled && target.slots.len() > 0 && matches_channel(&interactor.channels, &interactable.channels)
}

/// The detection mode an actor uses: its own override, else the default.
pub fn effective_detection_mode(override_mode: Option<DetectionMode>, config_mode: DetectionMode) -> (r: DetectionMode)
    ensures
        r == (match override_mode {
            Some(m) => m,
            None => config_mode,
        }),
{
    match override_mode {
        Some(m) => m,
        None => config_mode,
    }
}

/// The stage position a slot is at: the stored position clamped to the last
/// stage, or 0 for a single execution or an empty sequence.
pub open spec fn spec_stage_index(rt: RuntimeView, target: EntityId, slot: InteractionSlot) -> usize {
    match slot.behavior {
        InteractionBehavior::Single(_) => 0,
        InteractionBehavior::Sequence { stages, .. } => {
            if stages@.len() == 0 {
                0
            } else {
                let stored = rt.stage_index_of((target, slot.id@));
                if stored < stages@.len() - 1 {
                    stored
                } else {
                    (stages@.len() - 1) as usize
                }
            }
        },
    }
}

/// The current stage of a staged slot, with its position.
pub fn stage_for_slot<'a>(
    runtime: &InteractionRuntimeState,
    target: EntityId,
    slot: &'a InteractionSlot,
) -> (r: (Option<&'a InteractionStage>, usize))
    ensures
        r.1 == spec_stage_index(runtime@, target, *slot),
        match slot.behavior {
            InteractionBehavior::Single(_) => r.0.is_none(),
            InteractionBehavior::Sequence { stages, .. } => if stages@.len() == 0 {
                r.0.is_none()
            } else {
                r.0 == Some(&stages@[r.1 as int])
            },
        },
{
    match &slot.behavior {
        InteractionBehavior::Single(_) => (None, 0),
        InteractionBehavior::Sequence { stages, .. } => {
            if stages.len() == 0 {
                return (None, 0);
            }
            let key = TargetSlotKey::new(target, &slot.id);
            let stored = match runtime.stage_indices.get(&key) {
                Some(v) => *v,
                None => 0,
            };
            let last = stages.len() - 1;
            let index = if stored < last {
                stored
            } else {
                last
            };
            (Some(&stages[index]), index)
        },
    }
}

/// The execution, stage id, and stage position a slot runs next.
pub open spec fn spec_execution_for_slot(rt: RuntimeView, target: EntityId, slot: InteractionSlot) -> (InteractionExecution, Option<InteractionStageId>, usize) {
    match slot.behavior {
        InteractionBehavior::Single(execution) => (execution, None, 0),
        InteractionBehavior::Sequence { stages, .. } => {
            let index = spec_stage_index(rt, target, slot);
            let stage = stages@[index as int];
            (stage.execution, Some(stage.id), index)
        },
    }
}

/// The execution, stage id, and stage position a slot runs next.
pub fn execution_for_slot(runtime: &InteractionRuntimeState, target: EntityId, slot: &InteractionSlot) -> (r: (
    InteractionExecution,
    Option<InteractionStageId>,
    usize,
))
    requires
        slot.behavior.runnable(),
    ensures
        r == spec_execution_for_slot(runtime@, target, *slot),
{
    match &slot.behavior {
        InteractionBehavior::Single(execution) => (*execution, None, 0),
        InteractionBehavior::Sequence { .. } => {
            let (stage, index) = stage_for_slot(runtime, target, slot);
            match stage {
                Some(stage) => (stage.execution, Some(stage.id.clone()), index),
                None => {
                    proof {
                        assert(false);
                    }
                    (InteractionExecution::Instant, None, 0)
                },
            }
        },
    }
}

/// The prompt, stage id, and stage position a slot currently offers: a
/// stage's own prompt when it has one, else the slot's prompt.
pub open spec fn spec_prompt_for_slot(rt: RuntimeView, target: EntityId, slot: InteractionSlot) -> (InteractionPrompt, Option<InteractionStageId>, usize) {
    match slot.behavior {
        InteractionBehavior::Single(_) => (slot.prompt, None, 0),
        InteractionBehavior::Sequence { stages, .. } => {
            let index = spec_stage_index(rt, target, slot);
            let stage = stages@[index as int];
            (
                match stage.prompt {
                    Some(p) => p,
                    None => slot.prompt,
                },
                Some(stage.id),
                index,
            )
        },
    }
}

/// The prompt, stage id, and stage position a slot currently offers.
pub fn prompt_for_slot(runtime: &InteractionRuntimeState, target: EntityId, slot: &InteractionSlot) -> (r: (
    InteractionPrompt,
    Option<InteractionStageId>,
    usize,
))
    requires
        slot.behavior.runnable(),
    ensures
        r == spec_prompt_for_slot(runtime@, target, *slot),
{
    match &slot.behavior {
        InteractionBehavior::Single(_) => (slot.prompt.clone(), None, 0),
        InteractionBehavior::Sequence { .. } => {
            let (stage, index) = stage_for_slot(runtime, target, slot);
            match stage {
                Some(stage) => {
                    let prompt = match &stage.prompt {
                        Some(p) => p.clone(),
                        None => slot.prompt.clone(),
                    };
                    (prompt, Some(stage.id.clone()), index)
                },
                None => {
                    proof {
                        assert(false);
                    }
                    (slot.prompt.clone(), None, 0)
                },
            }
        },
    }
}

} // verus!

verus! {

/// The stage position of a slot is always below the largest index.
pub proof fn lemma_stage_index_bounded(rt: RuntimeView, target: EntityId, slot: InteractionSlot)
    ensures
        spec_stage_index(rt, target, slot) < usize::MAX,
{
    match slot.behavior {
        InteractionBehavior::Sequence { stages, .. } => {
            assert(stages@.len() == stages.len());
        },
        _ => {},
    }
}

} // verus!
