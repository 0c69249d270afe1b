//! Slot availability and the resolution of the offer made for a focused
//! target.

use vstd::prelude::*;

use crate::components::{
    FocusSource, FocusedInteraction, InteractionAvailabilityReason, InteractionConsumption,
    InteractionOffer, InteractionPromptState, InteractionReservationPolicy, InteractionSlot,
    InteractionTags, InteractionTarget, Interactable, Interactor, LineOfSightPolicy,
    PromptSuppressionPolicy,
};
use crate::control::InteractorControlState;
use crate::order::{insert_keeps_sorted, sorts, strict_total};
use crate::util::{prompt_for_slot, spec_prompt_for_slot};
use crate::config::InteractionPredicateFailure;
use crate::ids::{ActorSlotKey, EntityId, InteractionSlotId, InteractionTag, TargetSlotKey};
use crate::runtime::{InteractionRuntimeState, RuntimeView};
use crate::scalar::Scalar;
use crate::util::{channels_compatible, matches_channel};

verus! {

/// The outcome of one availability predicate.
pub type PredicateOutcome = Result<(), InteractionPredicateFailure>;

/// What the host measures for one slot before gating it: whether its
/// cooldowns are still running (and how long they have left), whether the
/// target is beyond the actor's reach, whether the segment to the target is
/// blocked, and what each of the slot's predicates answered, in order.
pub struct GateFacts {
    pub shared_cooldown_remaining: Option<Scalar>,
    pub per_actor_cooldown_remaining: Option<Scalar>,
    pub out_of_range: bool,
    pub line_of_sight_blocked: bool,
    pub predicate_outcomes: Vec<PredicateOutcome>,
}

impl GateFacts {
    /// Facts under which no measured check fails: no running cooldown, in
    /// range, unobstructed, and no predicate to answer.
    pub fn clear() -> (r: GateFacts)
        ensures
            r.shared_cooldown_remaining.is_none(),
            r.per_actor_cooldown_remaining.is_none(),
            !r.out_of_range,
            !r.line_of_sight_blocked,
            r.predicate_outcomes@.len() == 0,
    {
        GateFacts {
            shared_cooldown_remaining: None,
            per_actor_cooldown_remaining: None,
            out_of_range: false,
            line_of_sight_blocked: false,
            predicate_outcomes: Vec::new(),
        }
    }

    /// The facts fit `slot`: one predicate outcome per predicate id.
    pub open spec fn fits(self, slot: InteractionSlot) -> bool {
        self.predicate_outcomes@.len() == slot.availability.predicate_ids@.len()
    }
}

/// The tag names an optional tag set carries; a missing set carries none.
pub open spec fn names_of(tags: Option<&InteractionTags>) -> Seq<Seq<char>> {
    match tags {
        Some(t) => t.names(),
        None => Seq::empty(),
    }
}

/// `required[i]` is the first required tag that `have` lacks.
pub open spec fn missing_at(required: Seq<InteractionTag>, have: Seq<Seq<char>>, i: int) -> bool {
    &&& 0 <= i < required.len()
    &&& !have.contains(required[i]@)
    &&& forall|j: int| 0 <= j < i ==> have.contains(#[trigger] required[j]@)
}

/// `blocked[i]` is the first blocked tag that `have` carries.
pub open spec fn present_at(blocked: Seq<InteractionTag>, have: Seq<Seq<char>>, i: int) -> bool {
    &&& 0 <= i < blocked.len()
    &&& have.contains(blocked[i]@)
    &&& forall|j: int| 0 <= j < i ==> !have.contains(#[trigger] blocked[j]@)
}

/// `outcomes[i]` is the first failed predicate outcome.
pub open spec fn failed_at(outcomes: Seq<PredicateOutcome>, i: int) -> bool {
    &&& 0 <= i < outcomes.len()
    &&& outcomes[i] is Err
    &&& forall|j: int| 0 <= j < i ==> #[trigger] outcomes[j] is Ok
}

/// Whether a target with `policy` needs line of sight from an actor whose
/// own setting is `interactor_requires`.
pub open spec fn spec_line_of_sight_required(policy: LineOfSightPolicy, interactor_requires: bool) -> bool {
    match policy {
        LineOfSightPolicy::Ignore => false,
        LineOfSightPolicy::UseInteractorSetting => interactor_requires,
        LineOfSightPolicy::Require => true,
    }
}

/// Whether a target with `policy` needs line of sight.
pub fn line_of_sight_required(policy: LineOfSightPolicy, interactor_requires: bool) -> (r: bool)
    ensures
        r == spec_line_of_sight_required(policy, interactor_requires),
{
    match policy {
        LineOfSightPolicy::Ignore => false,
        LineOfSightPolicy::UseInteractorSetting => interactor_requires,
        LineOfSightPolicy::Require => true,
    }
}

/// The availability of a slot, checked in a fixed order: enabled state,
/// channels, reservation, consumption, shared then per-actor cooldown,
/// required then blocked actor tags, required then blocked target tags,
/// range, line of sight, and predicates. The first failing check is the
/// reason; `None` means available.
pub open spec fn gate_verdict(
    rt: RuntimeView,
    actor: EntityId,
    target: EntityId,
    interactor: Interactor,
    interactable: Interactable,
    slot: InteractionSlot,
    actor_tags: Seq<Seq<char>>,
    target_tags: Seq<Seq<char>>,
    facts: GateFacts,
) -> Option<InteractionAvailabilityReason> {
    let key = (target, slot.id@);
    let rules = slot.availability;
    if !interactable.enabled || !rules.enabled {
        Some(InteractionAvailabilityReason::Disabled)
    } else if !channels_compatible(interactor.channels@, interactable.channels@) {
        Some(InteractionAvailabilityReason::Disabled)
    } else if rt.reservations.dom().contains(key) && rt.reservations[key] != actor
        && slot.reservation == InteractionReservationPolicy::Exclusive {
        Some(InteractionAvailabilityReason::ReservedByOther)
    } else if rt.consumed_global.contains(key) && rules.consumption == InteractionConsumption::OnceGlobal {
        Some(InteractionAvailabilityReason::Consumed)
    } else if rt.consumed_per_actor.contains((actor, key)) && rules.consumption
        == InteractionConsumption::OncePerActor {
        Some(InteractionAvailabilityReason::Consumed)
    } else if facts.shared_cooldown_remaining is Some {
        Some(InteractionAvailabilityReason::SharedCooldown {
            remaining_seconds: facts.shared_cooldown_remaining->0,
        })
    } else if facts.per_actor_cooldown_remaining is Some {
        Some(InteractionAvailabilityReason::PerActorCooldown {
            remaining_seconds: facts.per_actor_cooldown_remaining->0,
        })
    } else if exists|i: int| missing_at(rules.required_actor_tags@, actor_tags, i) {
        let i = choose|i: int| missing_at(rules.required_actor_tags@, actor_tags, i);
        Some(InteractionAvailabilityReason::MissingActorTag(rules.required_actor_tags@[i]))
    } else if exists|i: int| present_at(rules.blocked_actor_tags@, actor_tags, i) {
        let i = choose|i: int| present_at(rules.blocked_actor_tags@, actor_tags, i);
        Some(InteractionAvailabilityReason::BlockedActorTag(rules.blocked_actor_tags@[i]))
    } else if exists|i: int| missing_at(rules.required_target_tags@, target_tags, i) {
        let i = choose|i: int| missing_at(rules.required_target_tags@, target_tags, i);
        Some(InteractionAvailabilityReason::MissingTargetTag(rules.required_target_tags@[i]))
    } else if exists|i: int| present_at(rules.blocked_target_tags@, target_tags, i) {
        let i = choose|i: int| present_at(rules.blocked_target_tags@, target_tags, i);
        Some(InteractionAvailabilityReason::BlockedTargetTag(rules.blocked_target_tags@[i]))
    } else if facts.out_of_range {
        Some(InteractionAvailabilityReason::OutOfRange)
    } else if spec_line_of_sight_required(interactable.line_of_sight_policy, interactor.require_line_of_sight)
        && facts.line_of_sight_blocked {
        Some(InteractionAvailabilityReason::LineOfSightBlocked)
    } else if exists|i: int| failed_at(facts.predicate_outcomes@, i) {
        let i = choose|i: int| failed_at(facts.predicate_outcomes@, i);
        Some(InteractionAvailabilityReason::PredicateFailed {
            predicate: rules.predicate_ids@[i],
            detail_key: facts.predicate_outcomes@[i]->Err_0.detail_key,
        })
    } else {
        None
    }
}

proof fn lemma_missing_unique(required: Seq<InteractionTag>, have: Seq<Seq<char>>, i: int, k: int)
    requires
        missing_at(required, have, i),
        missing_at(required, have, k),
    ensures
        i == k,
{
    if i < k {
        assert(have.contains(required[i]@));
    } else if k < i {
        assert(have.contains(required[k]@));
    }
}

proof fn lemma_present_unique(blocked: Seq<InteractionTag>, have: Seq<Seq<char>>, i: int, k: int)
    requires
        present_at(blocked, have, i),
        present_at(blocked, have, k),
    ensures
        i == k,
{
    if i < k {
        assert(!have.contains(blocked[i]@));
    } else if k < i {
        assert(!have.contains(blocked[k]@));
    }
}

proof fn lemma_failed_unique(outcomes: Seq<PredicateOutcome>, i: int, k: int)
    requires
        failed_at(outcomes, i),
        failed_at(outcomes, k),
    ensures
        i == k,
{
    if i < k {
        assert(outcomes[i] is Ok);
    } else if k < i {
        assert(outcomes[k] is Ok);
    }
}

/// The first required tag that `tags` lacks, if any.
fn first_missing_tag(required: &Vec<InteractionTag>, tags: Option<&InteractionTags>) -> (r: Option<usize>)
    ensures
        match r {
            Some(i) => missing_at(required@, names_of(tags), i as int),
            None => forall|i: int| !missing_at(required@, names_of(tags), i),
        },
{
    let mut i: usize = 0;
    while i < required.len()
        invariant
            i <= required@.len(),
            forall|j: int| 0 <= j < i ==> names_of(tags).contains(#[trigger] required@[j]@),
        decreases required@.len() - i,
    {
        let carried = match tags {
            Some(t) => t.contains(&required[i]),
            None => false,
        };
        if !carried {
            return Some(i);
        }
        i = i + 1;
    }
    proof {
        assert forall|k: int| !missing_at(required@, names_of(tags), k) by {
            if 0 <= k < required@.len() {
                assert(names_of(tags).contains(required@[k]@));
            }
        }
    }
    None
}

/// The first blocked tag that `tags` carries, if any.
fn first_present_tag(blocked: &Vec<InteractionTag>, tags: Option<&InteractionTags>) -> (r: Option<usize>)
    ensures
        match r {
            Some(i) => present_at(blocked@, names_of(tags), i as int),
            None => forall|i: int| !present_at(blocked@, names_of(tags), i),
        },
{
    let mut i: usize = 0;
    while i < blocked.len()
        invariant
            i <= blocked@.len(),
            forall|j: int| 0 <= j < i ==> !names_of(tags).contains(#[trigger] blocked@[j]@),
        decreases blocked@.len() - i,
    {
        let carried = match tags {
            Some(t) => t.contains(&blocked[i]),
            None => false,
        };
        if carried {
            return Some(i);
        }
        i = i + 1;
    }
    proof {
        assert forall|k: int| !present_at(blocked@, names_of(tags), k) by {
            if 0 <= k < blocked@.len() {
                assert(!names_of(tags).contains(blocked@[k]@));
            }
        }
    }
    None
}

/// The first failed predicate outcome, if any.
fn first_failed(outcomes: &Vec<PredicateOutcome>) -> (r: Option<usize>)
    ensures
        match r {
            Some(i) => failed_at(outcomes@, i as int),
            None => forall|i: int| !failed_at(outcomes@, i),
        },
{
    let mut i: usize = 0;
    while i < outcomes.len()
        invariant
            i <= outcomes@.len(),
            forall|j: int| 0 <= j < i ==> #[trigger] outcomes@[j] is Ok,
        decreases outcomes@.len() - i,
    {
        if outcomes[i].is_err() {
            return Some(i);
        }
        i = i + 1;
    }
    None
}

/// Gates one slot of `target` for `interactor_entity`; `None` means the slot
/// can start now.
pub fn evaluate_slot(
    runtime: &InteractionRuntimeState,
    interactor_entity: EntityId,
    target_entity: EntityId,
    interactor: &Interactor,
    interactable: &Interactable,
    slot: &InteractionSlot,
    interactor_tags: Option<&InteractionTags>,
    target_tags: Option<&InteractionTags>,
    facts: &GateFacts,
) -> (r: Option<InteractionAvailabilityReason>)
    requires
        facts.fits(*slot),
    ensures
        r == gate_verdict(
            runtime@,
            interactor_entity,
            target_entity,
            *interactor,
            *interactable,
            *slot,
            names_of(interactor_tags),
            names_of(target_tags),
            *facts,
        ),
{
    let rules = &slot.availability;
    if !interactable.enabled || !rules.enabled {
        return Some(InteractionAvailabilityReason::Disabled);
    }
    if !matches_channel(&interactor.channels, &interactable.channels) {
        return Some(InteractionAvailabilityReason::Disabled);
    }
    let key = TargetSlotKey::new(target_entity, &slot.id);
    let reserved_by_other = match runtime.reservation_owner(&key) {
        Some(owner) => owner != interactor_entity,
        None => false,
    };
    if reserved_by_other && matches!(slot.reservation, InteractionReservationPolicy::Exclusive) {
        return Some(InteractionAvailabilityReason::ReservedByOther);
    }
    if runtime.consumed_global.contains_key(&key) && matches!(rules.consumption, InteractionConsumption::OnceGlobal) {
        return Some(InteractionAvailabilityReason::Consumed);
    }
    let actor_key = ActorSlotKey { actor: interactor_entity, key: key.clone() };
    if runtime.consumed_per_actor.contains_key(&actor_key) && matches!(rules.consumption, InteractionConsumption::OncePerActor) {
        return Some(InteractionAvailabilityReason::Consumed);
    }
    if let Some(remaining) = facts.shared_cooldown_remaining {
        return Some(InteractionAvailabilityReason::SharedCooldown { remaining_seconds: remaining });
    }
    if let Some(remaining) = facts.per_actor_cooldown_remaining {
        return Some(InteractionAvailabilityReason::PerActorCooldown { remaining_seconds: remaining });
    }
    let ghost actor_names = names_of(interactor_tags);
    let ghost target_names = names_of(target_tags);
    match first_missing_tag(&rules.required_actor_tags, interactor_tags) {
        Some(i) => {
            proof {
                let c = choose|c: int| missing_at(rules.required_actor_tags@, actor_names, c);
                lemma_missing_unique(rules.required_actor_tags@, actor_names, c, i as int);
            }
            return Some(InteractionAvailabilityReason::MissingActorTag(rules.required_actor_tags[i].clone()));
        },
        None => {},
    }
    match first_present_tag(&rules.blocked_actor_tags, interactor_tags) {
        Some(i) => {
            proof {
                let c = choose|c: int| present_at(rules.blocked_actor_tags@, actor_names, c);
                lemma_present_unique(rules.blocked_actor_tags@, actor_names, c, i as int);
            }
            return Some(InteractionAvailabilityReason::BlockedActorTag(rules.blocked_actor_tags[i].clone()));
        },
        None => {},
    }
    match first_missing_tag(&rules.required_target_tags, target_tags) {
        Some(i) => {
            proof {
                let c = choose|c: int| missing_at(rules.required_target_tags@, target_names, c);
                lemma_missing_unique(rules.required_target_tags@, target_names, c, i as int);
            }
            return Some(InteractionAvailabilityReason::MissingTargetTag(rules.required_target_tags[i].clone()));
        },
        None => {},
    }
    match first_present_tag(&rules.blocked_target_tags, target_tags) {
        Some(i) => {
            proof {
                let c = choose|c: int| present_at(rules.blocked_target_tags@, target_names, c);
                lemma_present_unique(rules.blocked_target_tags@, target_names, c, i as int);
            }
            return Some(InteractionAvailabilityReason::BlockedTargetTag(rules.blocked_target_tags[i].clone()));
        },
        None => {},
    }
    if facts.out_of_range {
        return Some(InteractionAvailabilityReason::OutOfRange);
    }
    if line_of_sight_required(interactable.line_of_sight_policy, interactor.require_line_of_sight)
        && facts.line_of_sight_blocked {
        return Some(InteractionAvailabilityReason::LineOfSightBlocked);
    }
    match first_failed(&facts.predicate_outcomes) {
        Some(i) => {
            proof {
                let c = choose|c: int| failed_at(facts.predicate_outcomes@, c);
                lemma_failed_unique(facts.predicate_outcomes@, c, i as int);
            }
            let detail_key = match &facts.predicate_outcomes[i] {
                Err(failure) => crate::components::clone_opt_string(&failure.detail_key),
                Ok(()) => None,
            };
            Some(InteractionAvailabilityReason::PredicateFailed {
                predicate: rules.predicate_ids[i].clone(),
                detail_key,
            })
        },
        None => None,
    }
}


/// Slot `a` is offered before slot `b`: higher priority first, and among
/// equal priorities the one authored first.
pub open spec fn slot_before(slots: Seq<InteractionSlot>) -> spec_fn(int, int) -> bool {
    |a: int, b: int|
        slots[a].priority.key() > slots[b].priority.key() || (slots[a].priority.key()
            == slots[b].priority.key() && a < b)
}

/// The slot order is a strict total order.
pub proof fn slot_before_is_strict_total(slots: Seq<InteractionSlot>)
    ensures
        strict_total(slot_before(slots), slots.len() as int),
{
}

/// The indices of `slots` from highest to lowest priority; equal priorities
/// keep their authored order.
pub fn priority_order(slots: &Vec<InteractionSlot>) -> (order: Vec<usize>)
    ensures
        sorts(order@, slots@.len() as int, slot_before(slots@)),
{
    let ghost before = slot_before(slots@);
    let mut order: Vec<usize> = Vec::new();
    let mut i: usize = 0;
    while i < slots.len()
        invariant
            i <= slots@.len(),
            sorts(order@, i as int, before),
            before == slot_before(slots@),
        decreases slots@.len() - i,
    {
        let key = slots[i].priority.order_key();
        let mut p: usize = 0;
        while p < order.len() && key <= slots[order[p]].priority.order_key()
            invariant
                p <= order@.len(),
                order@.len() == i,
                i < slots@.len(),
                sorts(order@, i as int, before),
                before == slot_before(slots@),
                key == slots@[i as int].priority.key(),
                forall|q: int| 0 <= q < p ==> !before(i as int, #[trigger] order@[q] as int),
            decreases order@.len() - p,
        {
            p = p + 1;
        }
        proof {
            slot_before_is_strict_total(slots@);
            assert(strict_total(before, i + 1));
            insert_keeps_sorted(order@, i as int, p as int, before);
        }
        order.insert(p, i);
        i = i + 1;
    }
    order
}

/// `slots[i]` is the first slot named `id`.
pub open spec fn id_at(slots: Seq<InteractionSlot>, id: Seq<char>, i: int) -> bool {
    &&& 0 <= i < slots.len()
    &&& slots[i].id@ == id
    &&& forall|j: int| 0 <= j < i ==> #[trigger] slots[j].id@ != id
}

/// The position of the first slot named `id`, if any.
pub open spec fn slot_position(slots: Seq<InteractionSlot>, id: Seq<char>) -> Option<int> {
    if exists|i: int| id_at(slots, id, i) {
        Some(choose|i: int| id_at(slots, id, i))
    } else {
        None
    }
}

proof fn lemma_id_at_unique(slots: Seq<InteractionSlot>, id: Seq<char>, i: int, k: int)
    requires
        id_at(slots, id, i),
        id_at(slots, id, k),
    ensures
        i == k,
{
    if i < k {
        assert(slots[i].id@ != id);
    } else if k < i {
        assert(slots[k].id@ != id);
    }
}

/// The position of the first slot named `id`, if any.
pub fn find_slot(slots: &Vec<InteractionSlot>, id: &InteractionSlotId) -> (r: Option<usize>)
    ensures
        match r {
            Some(i) => slot_position(slots@, id@) == Some(i as int),
            None => slot_position(slots@, id@).is_none(),
        },
{
    let mut i: usize = 0;
    while i < slots.len()
        invariant
            i <= slots@.len(),
            forall|j: int| 0 <= j < i ==> #[trigger] slots@[j].id@ != id@,
        decreases slots@.len() - i,
    {
        if slots[i].id.same(id) {
            proof {
                assert(id_at(slots@, id@, i as int));
                let c = choose|c: int| id_at(slots@, id@, c);
                lemma_id_at_unique(slots@, id@, c, i as int);
            }
            return Some(i);
        }
        i = i + 1;
    }
    None
}

/// Where index `v` stands in `order`.
pub open spec fn position_in(order: Seq<usize>, v: int) -> int {
    choose|p: int| 0 <= p < order.len() && order[p] as int == v
}

/// The slot the actor asks for: an explicit selection wins; otherwise a
/// pending cycle step moves from the previously chosen slot (or from the
/// top) through the priority order, wrapping around; otherwise the slot
/// chosen before stays wanted.
pub open spec fn desired_slot(
    slots: Seq<InteractionSlot>,
    focus_slot: Option<InteractionSlotId>,
    control: InteractorControlState,
    order: Seq<usize>,
) -> Option<int> {
    let previous = match focus_slot {
        Some(id) => slot_position(slots, id@),
        None => None,
    };
    match control.select_slot {
        Some(selected) => slot_position(slots, selected@),
        None => if control.cycle_delta != 0 {
            let current = match previous {
                Some(d) => position_in(order, d),
                None => 0,
            };
            Some(order[(current + control.cycle_delta) % (slots.len() as int)] as int)
        } else {
            previous
        },
    }
}

/// The gating verdict of slot `i` of a target.
pub open spec fn slot_verdict(
    rt: RuntimeView,
    actor: EntityId,
    target: EntityId,
    interactor: Interactor,
    interactable: Interactable,
    slots: Seq<InteractionSlot>,
    actor_tags: Seq<Seq<char>>,
    target_tags: Seq<Seq<char>>,
    facts: Seq<GateFacts>,
    i: int,
) -> Option<InteractionAvailabilityReason> {
    gate_verdict(rt, actor, target, interactor, interactable, slots[i], actor_tags, target_tags, facts[i])
}

/// Which slots of a target gate as available.
pub open spec fn available_slots(
    rt: RuntimeView,
    actor: EntityId,
    target: EntityId,
    interactor: Interactor,
    interactable: Interactable,
    slots: Seq<InteractionSlot>,
    actor_tags: Seq<Seq<char>>,
    target_tags: Seq<Seq<char>>,
    facts: Seq<GateFacts>,
) -> spec_fn(int) -> bool {
    |i: int|
        slot_verdict(rt, actor, target, interactor, interactable, slots, actor_tags, target_tags, facts, i)
            is None
}

/// `order[p]` is the first available slot in priority order.
pub open spec fn first_available_at(order: Seq<usize>, available: spec_fn(int) -> bool, p: int) -> bool {
    &&& 0 <= p < order.len()
    &&& available(order[p] as int)
    &&& forall|q: int| 0 <= q < p ==> !available(#[trigger] order[q] as int)
}

/// The slot offered: the wanted slot if any; otherwise the highest-priority
/// available slot; otherwise the highest-priority slot.
pub open spec fn chosen_slot(desired: Option<int>, order: Seq<usize>, available: spec_fn(int) -> bool) -> int {
    match desired {
        Some(d) => d,
        None => if exists|p: int| first_available_at(order, available, p) {
            order[choose|p: int| first_available_at(order, available, p)] as int
        } else {
            order[0] as int
        },
    }
}

/// Whether an offer with `availability` is hidden under `policy`.
pub open spec fn spec_suppressed(policy: PromptSuppressionPolicy, unavailable: bool) -> bool {
    match policy {
        PromptSuppressionPolicy::Never => false,
        PromptSuppressionPolicy::HideWhenUnavailable => unavailable,
        PromptSuppressionPolicy::Always => true,
    }
}

/// The offer made for `slot` of `target`.
pub open spec fn spec_offer(
    rt: RuntimeView,
    target: EntityId,
    slot: InteractionSlot,
    availability: Option<InteractionAvailabilityReason>,
    source: Option<FocusSource>,
) -> InteractionOffer {
    let (prompt, stage_id, _) = spec_prompt_for_slot(rt, target, slot);
    InteractionOffer {
        target,
        slot_id: slot.id,
        stage_id,
        prompt,
        availability,
        suppressed: spec_suppressed(prompt.suppression, availability is Some),
        source: match source {
            Some(s) => s,
            None => FocusSource::Proximity,
        },
    }
}

/// The inputs of offer resolution fit each other: one fact record per slot,
/// each fitting its slot, and few enough slots for cycle arithmetic.
pub open spec fn offer_inputs_fit(slots: Seq<InteractionSlot>, facts: Seq<GateFacts>) -> bool {
    &&& facts.len() == slots.len()
    &&& forall|i: int| 0 <= i < slots.len() ==> #[trigger] facts[i].fits(slots[i])
    &&& slots.len() <= i32::MAX
}

/// The slot offer resolution picks for a focused target with slots, under
/// the priority order `order`.
pub open spec fn spec_offer_choice(
    rt: RuntimeView,
    actor: EntityId,
    target: EntityId,
    interactor: Interactor,
    interactable: Interactable,
    slots: Seq<InteractionSlot>,
    actor_tags: Seq<Seq<char>>,
    target_tags: Seq<Seq<char>>,
    facts: Seq<GateFacts>,
    focus: FocusedInteraction,
    control: InteractorControlState,
    order: Seq<usize>,
) -> int {
    let available = available_slots(rt, actor, target, interactor, interactable, slots, actor_tags, target_tags, facts);
    chosen_slot(desired_slot(slots, focus.slot_id, control, order), order, available)
}

/// The slot that offer resolution picks for a focused target that has
/// slots; `None` when the actor focuses nothing or the target has no slots.
pub fn offer_slot_choice(
    runtime: &InteractionRuntimeState,
    interactor_entity: EntityId,
    interactor: &Interactor,
    interactor_tags: Option<&InteractionTags>,
    target: Option<(&Interactable, &InteractionTarget)>,
    target_tags: Option<&InteractionTags>,
    slot_facts: &Vec<GateFacts>,
    focus: &FocusedInteraction,
    control: &InteractorControlState,
) -> (r: Option<usize>)
    requires
        target matches Some((_, t)) ==> offer_inputs_fit(t.slots@, slot_facts@),
    ensures
        match (focus.target, target) {
            (Some(target_entity), Some((interactable, t))) => if t.slots@.len() == 0 {
                r.is_none()
            } else {
                (exists|order: Seq<usize>| #[trigger]
                    sorts(order, t.slots@.len() as int, slot_before(t.slots@))) && forall|order: Seq<usize>| #[trigger]
                    sorts(order, t.slots@.len() as int, slot_before(t.slots@)) ==> r == Some(
                        spec_offer_choice(
                            runtime@,
                            interactor_entity,
                            target_entity,
                            *interactor,
                            *interactable,
                            t.slots@,
                            names_of(interactor_tags),
                            names_of(target_tags),
                            slot_facts@,
                            *focus,
                            *control,
                            order,
                        ) as usize,
                    )
            },
            _ => r.is_none(),
        },
{
    let target_entity = match focus.target {
        Some(t) => t,
        None => return None,
    };
    let (interactable, target) = match target {
        Some(parts) => parts,
        None => return None,
    };
    let slots = &target.slots;
    if slots.len() == 0 {
        return None;
    }
    let order = priority_order(slots);
    let n = slots.len();
    let ghost sorted = order@;
    let ghost available = available_slots(
        runtime@,
        interactor_entity,
        target_entity,
        *interactor,
        *interactable,
        slots@,
        names_of(interactor_tags),
        names_of(target_tags),
        slot_facts@,
    );
    let previous = match &focus.slot_id {
        Some(id) => find_slot(slots, id),
        None => None,
    };
    let mut desired = previous;
    match &control.select_slot {
        Some(selected) => {
            desired = find_slot(slots, selected);
        },
        None => {
            if control.cycle_delta != 0 {
                let mut current: usize = 0;
                match previous {
                    Some(d) => {
                        let mut p: usize = 0;
                        while p < n && order[p] != d
                            invariant
                                p <= n,
                                n == order@.len(),
                                d < n,
                                sorts(order@, n as int, slot_before(slots@)),
                                forall|q: int| 0 <= q < p ==> order@[q] != d,
                            decreases n - p,
                        {
                            p = p + 1;
                        }
                        proof {
                            assert(order@.contains(d));
                            if p == n {
                                let k = choose|k: int| 0 <= k < order@.len() && order@[k] == d;
                                assert(order@[k] != d);
                            }
                            assert(order@[p as int] == d);
                            let w = position_in(order@, d as int);
                            assert(0 <= w < order@.len() && order@[w] as int == d as int);
                            assert(w == p as int);
                        }
                        current = p;
                    },
                    None => {},
                }
                let step = current as i64 + control.cycle_delta as i64;
                let next = match step.checked_rem_euclid(n as i64) {
                    Some(v) => v,
                    None => {
                        proof {
                            assert(false);
                        }
                        0
                    },
                };
                desired = Some(order[next as usize]);
            }
        },
    }
    let chosen = match desired {
        Some(d) => d,
        None => {
            let mut p: usize = 0;
            let mut found: Option<usize> = None;
            while p < n && found.is_none()
                invariant
                    p <= n,
                    n == order@.len(),
                    n == slots@.len(),
                    n == slot_facts@.len(),
                    offer_inputs_fit(slots@, slot_facts@),
                    sorts(order@, n as int, slot_before(slots@)),
                    available == available_slots(
                        runtime@,
                        interactor_entity,
                        target_entity,
                        *interactor,
                        *interactable,
                        slots@,
                        names_of(interactor_tags),
                        names_of(target_tags),
                        slot_facts@,
                    ),
                    match found {
                        Some(i) => p >= 1 && i == order@[p - 1] && available(i as int),
                        None => forall|q: int| 0 <= q < p ==> !available(#[trigger] order@[q] as int),
                    },
                    found.is_some() ==> forall|q: int| 0 <= q < p - 1 ==> !available(#[trigger] order@[q] as int),
                decreases n - p,
            {
                let idx = order[p];
                let verdict = evaluate_slot(
                    runtime,
                    interactor_entity,
                    target_entity,
                    interactor,
                    interactable,
                    &slots[idx],
                    interactor_tags,
                    target_tags,
                    &slot_facts[idx],
                );
                proof {
                    assert(available(idx as int) == verdict.is_none());
                }
                if verdict.is_none() {
                    found = Some(idx);
                }
                p = p + 1;
            }
            proof {
                match found {
                    Some(i) => {
                        let w = (p - 1) as int;
                        assert(first_available_at(order@, available, w));
                        let c = choose|c: int| first_available_at(order@, available, c);
                        if c < w {
                            assert(!available(order@[c] as int));
                        }
                        if w < c {
                            assert(!available(order@[w] as int));
                        }
                    },
                    None => {},
                }
            }
            match found {
                Some(i) => i,
                None => {
                    proof {
                        assert forall|c: int| !first_available_at(order@, available, c) by {
                            if 0 <= c < n && first_available_at(order@, available, c) {
                                assert(!available(order@[c] as int));
                            }
                        }
                    }
                    order[0]
                },
            }
        },
    };
    proof {
        assert forall|o: Seq<usize>| #[trigger] sorts(o, n as int, slot_before(slots@)) implies o == sorted by {
            slot_before_is_strict_total(slots@);
            crate::order::sorted_order_unique(o, sorted, n as int, slot_before(slots@));
        }
        assert(sorts(sorted, n as int, slot_before(slots@)));
    }
    Some(chosen)
}

/// What offer resolution requires of the chosen slot: it must be runnable,
/// since a staged slot without stages has no prompt to offer.
pub open spec fn chosen_slot_runnable(
    rt: RuntimeView,
    actor: EntityId,
    interactor: Interactor,
    actor_tags: Seq<Seq<char>>,
    target: Option<(&Interactable, &InteractionTarget)>,
    target_tags: Seq<Seq<char>>,
    facts: Seq<GateFacts>,
    focus: FocusedInteraction,
    control: InteractorControlState,
) -> bool {
    match (focus.target, target) {
        (Some(target_entity), Some((interactable, t))) => forall|order: Seq<usize>|
            #[trigger] sorts(order, t.slots@.len() as int, slot_before(t.slots@)) && t.slots@.len() > 0
                ==> t.slots@[spec_offer_choice(
                rt,
                actor,
                target_entity,
                interactor,
                *interactable,
                t.slots@,
                actor_tags,
                target_tags,
                facts,
                focus,
                control,
                order,
            )].behavior.runnable(),
        _ => true,
    }
}

/// Resolves the offer for an actor's focused target. An actor that focuses
/// nothing loses its offer, auto-start record, and chosen slot; a focused
/// target that no longer exists clears the focus entirely; a target without
/// slots withdraws the offer but keeps the focus. Otherwise one slot is
/// chosen (see [`spec_offer_choice`]), gated, and offered with its current
/// prompt and stage.
pub fn evaluate_focus_offer(
    runtime: &InteractionRuntimeState,
    interactor_entity: EntityId,
    interactor: &Interactor,
    interactor_tags: Option<&InteractionTags>,
    target: Option<(&Interactable, &InteractionTarget)>,
    target_tags: Option<&InteractionTags>,
    slot_facts: &Vec<GateFacts>,
    focus: &mut FocusedInteraction,
    control: &mut InteractorControlState,
    prompt_state: &mut InteractionPromptState,
)
    requires
        target matches Some((_, t)) ==> offer_inputs_fit(t.slots@, slot_facts@),
        chosen_slot_runnable(
            runtime@,
            interactor_entity,
            *interactor,
            names_of(interactor_tags),
            target,
            names_of(target_tags),
            slot_facts@,
            *old(focus),
            *old(control),
        ),
    ensures
        match (old(focus).target, target) {
            (None, _) => {
                &&& final(prompt_state).offer.is_none()
                &&& *final(control) == (InteractorControlState { auto_started_offer: None, ..*old(control) })
                &&& *final(focus) == (FocusedInteraction { slot_id: None, ..*old(focus) })
            },
            (Some(_), None) => {
                &&& final(prompt_state).offer.is_none()
                &&& *final(control) == (InteractorControlState { auto_started_offer: None, ..*old(control) })
                &&& *final(focus) == (FocusedInteraction { target: None, slot_id: None, source: None })
            },
            (Some(target_entity), Some((interactable, t))) => if t.slots@.len() == 0 {
                &&& final(prompt_state).offer.is_none()
                &&& *final(control) == (InteractorControlState { auto_started_offer: None, ..*old(control) })
                &&& *final(focus) == *old(focus)
            } else {
                &&& *final(control) == *old(control)
                &&& exists|order: Seq<usize>| #[trigger] sorts(order, t.slots@.len() as int, slot_before(t.slots@))
                &&& forall|order: Seq<usize>| #[trigger]
                    sorts(order, t.slots@.len() as int, slot_before(t.slots@)) ==> {
                        let c = spec_offer_choice(
                            runtime@,
                            interactor_entity,
                            target_entity,
                            *interactor,
                            *interactable,
                            t.slots@,
                            names_of(interactor_tags),
                            names_of(target_tags),
                            slot_facts@,
                            *old(focus),
                            *old(control),
                            order,
                        );
                        &&& *final(focus) == (FocusedInteraction { slot_id: Some(t.slots@[c].id), ..*old(focus) })
                        &&& final(prompt_state).offer == Some(
                            spec_offer(
                                runtime@,
                                target_entity,
                                t.slots@[c],
                                slot_verdict(
                                    runtime@,
                                    interactor_entity,
                                    target_entity,
                                    *interactor,
                                    *interactable,
                                    t.slots@,
                                    names_of(interactor_tags),
                                    names_of(target_tags),
                                    slot_facts@,
                                    c,
                                ),
                                old(focus).source,
                            ),
                        )
                    }
            },
        },
{
    let target_entity = match focus.target {
        Some(t) => t,
        None => {
            prompt_state.offer = None;
            control.auto_started_offer = None;
            focus.slot_id = None;
            return ;
        },
    };
    let (interactable, target_parts) = match target {
        Some(parts) => parts,
        None => {
            prompt_state.offer = None;
            control.auto_started_offer = None;
            focus.target = None;
            focus.slot_id = None;
            focus.source = None;
            return ;
        },
    };
    let slots = &target_parts.slots;
    if slots.len() == 0 {
        prompt_state.offer = None;
        control.auto_started_offer = None;
        return ;
    }
    let chosen = match offer_slot_choice(
        runtime,
        interactor_entity,
        interactor,
        interactor_tags,
        target,
        target_tags,
        slot_facts,
        focus,
        control,
    ) {
        Some(c) => c,
        None => {
            proof {
                assert(false);
            }
            return ;
        },
    };
    let ghost order_exec = choose|o: Seq<usize>| sorts(o, slots@.len() as int, slot_before(slots@));
    let chosen_slot = &slots[chosen];
    let availability = evaluate_slot(
        runtime,
        interactor_entity,
        target_entity,
        interactor,
        interactable,
        chosen_slot,
        interactor_tags,
        target_tags,
        &slot_facts[chosen],
    );
    let (prompt, stage_id, _) = prompt_for_slot(runtime, target_entity, chosen_slot);
    let suppressed = match prompt.suppression {
        PromptSuppressionPolicy::Never => false,
        PromptSuppressionPolicy::HideWhenUnavailable => availability.is_some(),
        PromptSuppressionPolicy::Always => true,
    };
    let source = match focus.source {
        Some(s) => s,
        None => FocusSource::Proximity,
    };
    focus.slot_id = Some(chosen_slot.id.clone());
    prompt_state.offer = Some(
        InteractionOffer {
            target: target_entity,
            slot_id: chosen_slot.id.clone(),
            stage_id,
            prompt,
            availability,
            suppressed,
            source,
        },
    );
    proof {
        assert forall|o: Seq<usize>| #[trigger] sorts(o, slots@.len() as int, slot_before(slots@)) implies o
            == order_exec by {
            slot_before_is_strict_total(slots@);
            crate::order::sorted_order_unique(o, order_exec, slots@.len() as int, slot_before(slots@));
        }
    }
}

} // verus!
