//! Intents the runtime consumes and lifecycle facts it reports.

use vstd::prelude::*;

use crate::components::{
    FocusedInteraction, InteractionAvailabilityReason, InteractionCancelReason, InteractionOffer,
};
use crate::ids::{EntityId, InteractionPredicateId, InteractionSlotId, InteractionStageId};
use crate::scalar::Scalar;

verus! {

/// What an input adapter asks of an actor.
#[derive(Clone, Debug, PartialEq)]
pub enum InteractionIntentKind {
    Press,
    Release,
    Cancel,
    CycleNext,
    CyclePrevious,
    SelectSlot(InteractionSlotId),
}

#[derive(Clone, Debug, PartialEq)]
pub struct InteractionIntent {
    pub interactor: EntityId,
    pub kind: InteractionIntentKind,
}

#[derive(Clone, Debug, PartialEq)]
pub struct FocusChanged {
    pub interactor: EntityId,
    pub previous: Option<FocusedInteraction>,
    pub current: Option<FocusedInteraction>,
}

#[derive(Clone, Debug, PartialEq)]
pub struct InteractionOffered {
    pub interactor: EntityId,
    pub offer: Option<InteractionOffer>,
}

#[derive(Debug, PartialEq)]
pub struct InteractionStarted {
    pub interactor: EntityId,
    pub target: EntityId,
    pub slot_id: InteractionSlotId,
    pub stage_id: Option<InteractionStageId>,
}

#[derive(Debug, PartialEq)]
pub struct InteractionProgress {
    pub interactor: EntityId,
    pub target: EntityId,
    pub slot_id: InteractionSlotId,
    pub stage_id: Option<InteractionStageId>,
    pub progress: Scalar,
}

#[derive(Debug, PartialEq)]
pub struct InteractionCompleted {
    pub interactor: EntityId,
    pub target: EntityId,
    pub slot_id: InteractionSlotId,
    pub stage_id: Option<InteractionStageId>,
    pub toggle_state: Option<bool>,
}

#[derive(Debug, PartialEq)]
pub struct InteractionCanceled {
    pub interactor: EntityId,
    pub target: EntityId,
    pub slot_id: InteractionSlotId,
    pub reason: InteractionCancelReason,
}

#[derive(Debug, PartialEq)]
pub struct InteractionFailed {
    pub interactor: EntityId,
    pub target: Option<EntityId>,
    pub slot_id: Option<InteractionSlotId>,
    pub reason: InteractionAvailabilityReason,
}

#[derive(Debug, PartialEq)]
pub struct InteractionStageAdvanced {
    pub interactor: EntityId,
    pub target: EntityId,
    pub slot_id: InteractionSlotId,
    pub previous_stage_id: Option<InteractionStageId>,
    pub next_stage_id: Option<InteractionStageId>,
    pub terminal: bool,
}

#[derive(Clone, Debug, PartialEq)]
pub struct InteractionExternalCancel {
    pub interactor: EntityId,
    pub reason: InteractionCancelReason,
}

#[derive(Clone, Debug, PartialEq)]
pub struct InteractionPredicateInvalidated {
    pub interactor: EntityId,
    pub predicate: InteractionPredicateId,
}

} // verus!
