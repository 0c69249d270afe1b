//! Per-slot runtime state shared by all actors: cooldowns, consumption,
//! reservations, toggles, sequence positions, and injected cancellations.

use vstd::prelude::*;

use crate::components::InteractionCancelReason;
use crate::ids::{ActorSlotKey, EntityId, TargetSlotKey};
use crate::scalar::Seconds;
use crate::table::{ActorSlotTable, EntityTable, KeyedTable, SlotTable};

verus! {

/// The key of one slot on one target, as the runtime sees it.
pub type SlotKeyView = (EntityId, Seq<char>);

/// The key of one actor's state on one slot.
pub type ActorKeyView = (EntityId, SlotKeyView);

/// The runtime state as maps and sets.
pub struct RuntimeView {
    pub active: bool,
    pub shared_cooldowns: Map<SlotKeyView, Seconds>,
    pub per_actor_cooldowns: Map<ActorKeyView, Seconds>,
    pub consumed_global: Set<SlotKeyView>,
    pub consumed_per_actor: Set<ActorKeyView>,
    pub reservations: Map<SlotKeyView, EntityId>,
    pub toggle_states: Map<SlotKeyView, bool>,
    pub stage_indices: Map<SlotKeyView, usize>,
    pub pending_external_cancels: Map<EntityId, InteractionCancelReason>,
}

impl RuntimeView {
    /// Nothing is held: no cooldown, consumption, reservation, toggle,
    /// sequence position, or pending cancellation.
    pub open spec fn is_clear(self) -> bool {
        &&& self.shared_cooldowns == Map::<SlotKeyView, Seconds>::empty()
        &&& self.per_actor_cooldowns == Map::<ActorKeyView, Seconds>::empty()
        &&& self.consumed_global == Set::<SlotKeyView>::empty()
        &&& self.consumed_per_actor == Set::<ActorKeyView>::empty()
        &&& self.reservations == Map::<SlotKeyView, EntityId>::empty()
        &&& self.toggle_states == Map::<SlotKeyView, bool>::empty()
        &&& self.stage_indices == Map::<SlotKeyView, usize>::empty()
        &&& self.pending_external_cancels == Map::<EntityId, InteractionCancelReason>::empty()
    }

    /// The toggle state of a slot; a slot never toggled reads as off.
    pub open spec fn toggle_of(self, key: SlotKeyView) -> bool {
        if self.toggle_states.dom().contains(key) {
            self.toggle_states[key]
        } else {
            false
        }
    }

    /// The stored sequence position of a slot; a slot never advanced is at 0.
    pub open spec fn stage_index_of(self, key: SlotKeyView) -> usize {
        if self.stage_indices.dom().contains(key) {
            self.stage_indices[key]
        } else {
            0
        }
    }
}

/// Shared runtime state of the interaction pipeline.
pub struct InteractionRuntimeState {
    pub active: bool,
    pub shared_cooldowns: SlotTable<Seconds>,
    pub per_actor_cooldowns: ActorSlotTable<Seconds>,
    pub consumed_global: SlotTable<()>,
    pub consumed_per_actor: ActorSlotTable<()>,
    pub reservations: SlotTable<EntityId>,
    pub toggle_states: SlotTable<bool>,
    pub stage_indices: SlotTable<usize>,
    pub pending_external_cancels: EntityTable<InteractionCancelReason>,
}

impl View for InteractionRuntimeState {
    type V = RuntimeView;

    open spec fn view(&self) -> RuntimeView {
        RuntimeView {
            active: self.active,
            shared_cooldowns: self.shared_cooldowns@,
            per_actor_cooldowns: self.per_actor_cooldowns@,
            consumed_global: self.consumed_global@.dom(),
            consumed_per_actor: self.consumed_per_actor@.dom(),
            reservations: self.reservations@,
            toggle_states: self.toggle_states@,
            stage_indices: self.stage_indices@,
            pending_external_cancels: self.pending_external_cancels@,
        }
    }
}

impl Default for InteractionRuntimeState {
    fn default() -> (r: Self)
        ensures
            !r@.active,
            r@.is_clear(),
    {
        InteractionRuntimeState {
            active: false,
            shared_cooldowns: KeyedTable::new(),
            per_actor_cooldowns: KeyedTable::new(),
            consumed_global: KeyedTable::new(),
            consumed_per_actor: KeyedTable::new(),
            reservations: KeyedTable::new(),
            toggle_states: KeyedTable::new(),
            stage_indices: KeyedTable::new(),
            pending_external_cancels: KeyedTable::new(),
        }
    }
}

impl InteractionRuntimeState {
    /// Turns the pipeline on; held state is kept.
    pub fn activate(&mut self)
        ensures
            final(self)@ == (RuntimeView { active: true, ..old(self)@ }),
    {
        self.active = true;
    }

    /// Turns the pipeline off and forgets every cooldown, consumption,
    /// reservation, toggle, sequence position, and pending cancellation.
    pub fn deactivate(&mut self)
        ensures
            !final(self)@.active,
            final(self)@.is_clear(),
    {
        self.active = false;
        self.shared_cooldowns.clear();
        self.per_actor_cooldowns.clear();
        self.consumed_global.clear();
        self.consumed_per_actor.clear();
        self.reservations.clear();
        self.toggle_states.clear();
        self.stage_indices.clear();
        self.pending_external_cancels.clear();
    }

    /// Whether the pipeline runs.
    pub fn runtime_is_active(&self) -> (r: bool)
        ensures
            r == self@.active,
    {
        self.active
    }

    /// Records a cancellation injected from outside for `interactor`; a
    /// later request for the same actor in the same update replaces it.
    pub fn record_external_cancel(&mut self, interactor: EntityId, reason: InteractionCancelReason)
        ensures
            final(self)@ == (RuntimeView {
                pending_external_cancels: old(self)@.pending_external_cancels.insert(interactor, reason),
                ..old(self)@
            }),
    {
        self.pending_external_cancels.insert(interactor, reason);
    }

    /// Forgets the injected cancellations once an update has handled them.
    pub fn clear_external_cancels(&mut self)
        ensures
            final(self)@ == (RuntimeView {
                pending_external_cancels: Map::<EntityId, InteractionCancelReason>::empty(),
                ..old(self)@
            }),
    {
        self.pending_external_cancels.clear();
    }

    /// When the shared cooldown of a slot ends, if one was ever started.
    pub fn shared_cooldown_expiry(&self, key: &TargetSlotKey) -> (r: Option<Seconds>)
        ensures
            r == (if self@.shared_cooldowns.dom().contains(key@) {
                Some(self@.shared_cooldowns[key@])
            } else {
                None
            }),
    {
        match self.shared_cooldowns.get(key) {
            Some(v) => Some(*v),
            None => None,
        }
    }

    /// When `actor`'s own cooldown on a slot ends, if one was ever started.
    pub fn per_actor_cooldown_expiry(&self, actor: EntityId, key: &TargetSlotKey) -> (r: Option<Seconds>)
        ensures
            r == (if self@.per_actor_cooldowns.dom().contains((actor, key@)) {
                Some(self@.per_actor_cooldowns[(actor, key@)])
            } else {
                None
            }),
    {
        let actor_key = ActorSlotKey { actor, key: key.clone() };
        match self.per_actor_cooldowns.get(&actor_key) {
            Some(v) => Some(*v),
            None => None,
        }
    }

    /// Who holds the exclusive reservation of a slot, if anyone.
    pub fn reservation_owner(&self, key: &TargetSlotKey) -> (r: Option<EntityId>)
        ensures
            r == (if self@.reservations.dom().contains(key@) {
                Some(self@.reservations[key@])
            } else {
                None
            }),
    {
        match self.reservations.get(key) {
            Some(v) => Some(*v),
            None => None,
        }
    }

    /// Number of slots currently reserved.
    pub fn reservation_count(&self) -> (r: usize)
        ensures
            self@.reservations.dom().finite(),
            r == self@.reservations.dom().len(),
    {
        self.reservations.len()
    }
}

} // verus!
