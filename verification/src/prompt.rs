//! Feedback: which actors focus a target, and which focus and offer changes
//! are reported.

use vstd::prelude::*;

use crate::components::{
    FocusSource, FocusedInteraction, InteractionAvailabilityReason, InteractionOffer,
    InteractionPrompt, InteractionPromptState, PromptSuppressionPolicy,
};
use crate::ids::EntityId;
use crate::messages::{FocusChanged, InteractionOffered};
use crate::scalar::Scalar;

verus! {

/// The actors among `focuses` (actor, focused target) that focus `target`,
/// in order.
pub open spec fn spec_focusing(focuses: Seq<(EntityId, Option<EntityId>)>, target: EntityId) -> Seq<EntityId> {
    focuses.filter(|p: (EntityId, Option<EntityId>)| p.1 == Some(target)).map_values(
        |p: (EntityId, Option<EntityId>)| p.0,
    )
}

proof fn lemma_filter_push<A>(s: Seq<A>, pred: spec_fn(A) -> bool, x: A)
    ensures
        s.push(x).filter(pred) == (if pred(x) {
            s.filter(pred).push(x)
        } else {
            s.filter(pred)
        }),
{
    reveal(Seq::filter);
    assert(s.push(x).drop_last() =~= s);
}

/// The actors that focus `target`, in the order given.
pub fn interactors_focusing(focuses: &Vec<(EntityId, Option<EntityId>)>, target: EntityId) -> (r: Vec<EntityId>)
    ensures
        r@ == spec_focusing(focuses@, target),
{
    let ghost pred = |p: (EntityId, Option<EntityId>)| p.1 == Some(target);
    let mut out: Vec<EntityId> = Vec::new();
    let mut i: usize = 0;
    while i < focuses.len()
        invariant
            i <= focuses@.len(),
            pred == (|p: (EntityId, Option<EntityId>)| p.1 == Some(target)),
            out@ == focuses@.take(i as int).filter(pred).map_values(|p: (EntityId, Option<EntityId>)| p.0),
        decreases focuses@.len() - i,
    {
        let ghost before = focuses@.take(i as int);
        proof {
            assert(focuses@.take(i + 1) == before.push(focuses@[i as int]));
            lemma_filter_push(before, pred, focuses@[i as int]);
        }
        let (actor, focused) = focuses[i];
        if focused == Some(target) {
            out.push(actor);
        }
        proof {
            let f = before.filter(pred);
            if pred(focuses@[i as int]) {
                assert(focuses@.take(i + 1).filter(pred) == f.push(focuses@[i as int]));
                assert(out@ =~= f.push(focuses@[i as int]).map_values(|p: (EntityId, Option<EntityId>)| p.0));
            } else {
                assert(focuses@.take(i + 1).filter(pred) == f);
            }
        }
        i = i + 1;
    }
    proof {
        assert(focuses@.take(focuses@.len() as int) =~= focuses@);
    }
    out
}

/// The characters of an optional string.
pub open spec fn opt_text(o: Option<String>) -> Option<Seq<char>> {
    match o {
        Some(s) => Some(s@),
        None => None,
    }
}

/// Whether two optional strings hold the same characters.
pub fn same_opt_text(a: &Option<String>, b: &Option<String>) -> (r: bool)
    ensures
        r == (opt_text(*a) == opt_text(*b)),
{
    match (a, b) {
        (None, None) => true,
        (Some(x), Some(y)) => *x == *y,
        _ => false,
    }
}

/// A focus as plain values.
pub open spec fn focus_view(f: FocusedInteraction) -> (Option<EntityId>, Option<Seq<char>>, Option<FocusSource>) {
    (
        f.target,
        match f.slot_id {
            Some(id) => Some(id@),
            None => None,
        },
        f.source,
    )
}

/// An optional focus as plain values.
pub open spec fn opt_focus_view(f: Option<FocusedInteraction>) -> Option<(Option<EntityId>, Option<Seq<char>>, Option<FocusSource>)> {
    match f {
        Some(v) => Some(focus_view(v)),
        None => None,
    }
}

/// Whether two optional focuses are the same.
pub fn same_opt_focus(a: &Option<FocusedInteraction>, b: &Option<FocusedInteraction>) -> (r: bool)
    ensures
        r == (opt_focus_view(*a) == opt_focus_view(*b)),
{
    match (a, b) {
        (None, None) => true,
        (Some(x), Some(y)) => {
            let slots_same = match (&x.slot_id, &y.slot_id) {
                (None, None) => true,
                (Some(p), Some(q)) => p.same(q),
                _ => false,
            };
            x.target == y.target && slots_same && x.source == y.source
        },
        _ => false,
    }
}

/// A prompt's fields other than its anchor offset, as plain values.
pub open spec fn prompt_view(p: InteractionPrompt) -> (
    Seq<char>,
    Seq<char>,
    Option<Seq<char>>,
    Option<Seq<char>>,
    i32,
    PromptSuppressionPolicy,
    Option<EntityId>,
) {
    (
        p.prompt_key@,
        p.action_label_key@,
        opt_text(p.input_hint_key),
        opt_text(p.icon_key),
        p.priority,
        p.suppression,
        p.anchor_entity,
    )
}

/// Two prompts are equal: equal fields, the anchor offsets compared as
/// floats.
pub open spec fn prompts_match(a: InteractionPrompt, b: InteractionPrompt) -> bool {
    prompt_view(a) == prompt_view(b) && a.anchor_offset.float_eq(b.anchor_offset)
}

/// Whether two prompts are equal.
pub fn same_prompt(a: &InteractionPrompt, b: &InteractionPrompt) -> (r: bool)
    ensures
        r == prompts_match(*a, *b),
{
    a.prompt_key == b.prompt_key && a.action_label_key == b.action_label_key && same_opt_text(
        &a.input_hint_key,
        &b.input_hint_key,
    ) && same_opt_text(&a.icon_key, &b.icon_key) && a.priority == b.priority && a.suppression
        == b.suppression && a.anchor_entity == b.anchor_entity && a.anchor_offset.float_equals(
        b.anchor_offset,
    )
}

/// An availability reason as plain values: its variant's position, the name
/// it carries, the detail it carries, and the time it carries (`0.0` for a
/// variant without one).
pub open spec fn reason_view(r: InteractionAvailabilityReason) -> (int, Seq<char>, Option<Seq<char>>, Scalar) {
    let none = Seq::<char>::empty();
    let zero = Scalar::spec_zero();
    match r {
        InteractionAvailabilityReason::Disabled => (0, none, None, zero),
        InteractionAvailabilityReason::Busy => (1, none, None, zero),
        InteractionAvailabilityReason::ReservedByOther => (2, none, None, zero),
        InteractionAvailabilityReason::Consumed => (3, none, None, zero),
        InteractionAvailabilityReason::MissingActorTag(t) => (4, t@, None, zero),
        InteractionAvailabilityReason::BlockedActorTag(t) => (5, t@, None, zero),
        InteractionAvailabilityReason::MissingTargetTag(t) => (6, t@, None, zero),
        InteractionAvailabilityReason::BlockedTargetTag(t) => (7, t@, None, zero),
        InteractionAvailabilityReason::SharedCooldown { remaining_seconds } => (8, none, None, remaining_seconds),
        InteractionAvailabilityReason::PerActorCooldown { remaining_seconds } => (9, none, None, remaining_seconds),
        InteractionAvailabilityReason::PredicateFailed { predicate, detail_key } => (10, predicate@, opt_text(detail_key), zero),
        InteractionAvailabilityReason::OutOfRange => (11, none, None, zero),
        InteractionAvailabilityReason::LineOfSightBlocked => (12, none, None, zero),
        InteractionAvailabilityReason::MissingTarget => (13, none, None, zero),
        InteractionAvailabilityReason::NoSlots => (14, none, None, zero),
    }
}

/// Two reasons are equal: the same variant carrying equal names and
/// details, and times equal as floats.
pub open spec fn reasons_match(a: InteractionAvailabilityReason, b: InteractionAvailabilityReason) -> bool {
    let (ka, ta, da, sa) = reason_view(a);
    let (kb, tb, db, sb) = reason_view(b);
    ka == kb && ta == tb && da == db && sa.float_eq(sb)
}

/// The plain values of a reason, computed.
fn reason_parts(r: &InteractionAvailabilityReason) -> (out: (u8, Option<&String>, Option<&Option<String>>, Scalar))
    ensures
        out.0 as int == reason_view(*r).0,
        match out.1 {
            Some(s) => s@ == reason_view(*r).1,
            None => reason_view(*r).1 == Seq::<char>::empty(),
        },
        match out.2 {
            Some(d) => opt_text(*d) == reason_view(*r).2,
            None => reason_view(*r).2.is_none(),
        },
        out.3 == reason_view(*r).3,
{
    let zero = Scalar::zero();
    match r {
        InteractionAvailabilityReason::Disabled => (0, None, None, zero),
        InteractionAvailabilityReason::Busy => (1, None, None, zero),
        InteractionAvailabilityReason::ReservedByOther => (2, None, None, zero),
        InteractionAvailabilityReason::Consumed => (3, None, None, zero),
        InteractionAvailabilityReason::MissingActorTag(t) => (4, Some(&t.0), None, zero),
        InteractionAvailabilityReason::BlockedActorTag(t) => (5, Some(&t.0), None, zero),
        InteractionAvailabilityReason::MissingTargetTag(t) => (6, Some(&t.0), None, zero),
        InteractionAvailabilityReason::BlockedTargetTag(t) => (7, Some(&t.0), None, zero),
        InteractionAvailabilityReason::SharedCooldown { remaining_seconds } => (8, None, None, *remaining_seconds),
        InteractionAvailabilityReason::PerActorCooldown { remaining_seconds } => (9, None, None, *remaining_seconds),
        InteractionAvailabilityReason::PredicateFailed { predicate, detail_key } => (10, Some(&predicate.0), Some(detail_key), zero),
        InteractionAvailabilityReason::OutOfRange => (11, None, None, zero),
        InteractionAvailabilityReason::LineOfSightBlocked => (12, None, None, zero),
        InteractionAvailabilityReason::MissingTarget => (13, None, None, zero),
        InteractionAvailabilityReason::NoSlots => (14, None, None, zero),
    }
}

/// Whether two reasons are equal.
pub fn same_reason(a: &InteractionAvailabilityReason, b: &InteractionAvailabilityReason) -> (r: bool)
    ensures
        r == reasons_match(*a, *b),
{
    let (ka, ta, da, sa) = reason_parts(a);
    let (kb, tb, db, sb) = reason_parts(b);
    let texts = match (ta, tb) {
        (None, None) => true,
        (Some(x), Some(y)) => *x == *y,
        (Some(x), None) => x.as_str().is_empty(),
        (None, Some(y)) => y.as_str().is_empty(),
    };
    let details = match (da, db) {
        (None, None) => true,
        (Some(x), Some(y)) => same_opt_text(x, y),
        (Some(x), None) => x.is_none(),
        (None, Some(y)) => y.is_none(),
    };
    proof {
        match (ta, tb) {
            (Some(x), None) => {
                assert(x@.len() == 0 ==> x@ =~= Seq::<char>::empty());
            },
            (None, Some(y)) => {
                assert(y@.len() == 0 ==> y@ =~= Seq::<char>::empty());
            },
            _ => {},
        }
    }
    ka == kb && texts && details && sa.float_equals(sb)
}

/// The stage id of an offer as characters.
pub open spec fn opt_stage_text(s: Option<crate::ids::InteractionStageId>) -> Option<Seq<char>> {
    match s {
        Some(id) => Some(id@),
        None => None,
    }
}

/// Two offers are equal: field by field, with the prompt and the reason
/// compared as above.
pub open spec fn offers_match(a: InteractionOffer, b: InteractionOffer) -> bool {
    &&& a.target == b.target
    &&& a.slot_id@ == b.slot_id@
    &&& opt_stage_text(a.stage_id) == opt_stage_text(b.stage_id)
    &&& prompts_match(a.prompt, b.prompt)
    &&& match (a.availability, b.availability) {
        (None, None) => true,
        (Some(p), Some(q)) => reasons_match(p, q),
        _ => false,
    }
    &&& a.suppressed == b.suppressed
    &&& a.source == b.source
}

/// Two optional offers are equal.
pub open spec fn opt_offers_match(a: Option<InteractionOffer>, b: Option<InteractionOffer>) -> bool {
    match (a, b) {
        (None, None) => true,
        (Some(x), Some(y)) => offers_match(x, y),
        _ => false,
    }
}

/// Whether two optional offers are equal.
pub fn same_opt_offer(a: &Option<InteractionOffer>, b: &Option<InteractionOffer>) -> (r: bool)
    ensures
        r == opt_offers_match(*a, *b),
{
    match (a, b) {
        (None, None) => true,
        (Some(x), Some(y)) => {
            let stages = match (&x.stage_id, &y.stage_id) {
                (None, None) => true,
                (Some(p), Some(q)) => p.same(q),
                _ => false,
            };
            let reasons = match (&x.availability, &y.availability) {
                (None, None) => true,
                (Some(p), Some(q)) => same_reason(p, q),
                _ => false,
            };
            x.target == y.target && x.slot_id.same(&y.slot_id) && stages && same_prompt(&x.prompt, &y.prompt)
                && reasons && x.suppressed == y.suppressed && x.source == y.source
        },
        _ => false,
    }
}

/// The focus and offer an actor was last told about.
#[derive(Debug, PartialEq)]
pub struct InteractionFeedbackCache {
    pub focus: Option<FocusedInteraction>,
    pub offer: Option<InteractionOffer>,
}

impl Default for InteractionFeedbackCache {
    fn default() -> (r: Self)
        ensures
            r.focus.is_none(),
            r.offer.is_none(),
    {
        InteractionFeedbackCache { focus: None, offer: None }
    }
}

/// The focus as reported: only a focus on some target counts.
pub open spec fn focus_snapshot(focus: FocusedInteraction) -> Option<FocusedInteraction> {
    if focus.target is Some {
        Some(focus)
    } else {
        None
    }
}

/// Reports what changed since the actor was last told: a focus change when
/// the reported focus differs, and a new offer when the offer differs. The
/// cache then holds what was reported.
pub fn emit_feedback_messages(
    cache: &mut InteractionFeedbackCache,
    interactor: EntityId,
    focus: &FocusedInteraction,
    prompt_state: &InteractionPromptState,
) -> (r: (Option<FocusChanged>, Option<InteractionOffered>))
    ensures
        ({
            let snapshot = focus_snapshot(*focus);
            if opt_focus_view(old(cache).focus) != opt_focus_view(snapshot) {
                &&& r.0 == Some(FocusChanged { interactor, previous: old(cache).focus, current: snapshot })
                &&& final(cache).focus == snapshot
            } else {
                &&& r.0.is_none()
                &&& final(cache).focus == old(cache).focus
            }
        }),
        if !opt_offers_match(old(cache).offer, prompt_state.offer) {
            &&& r.1 == Some(InteractionOffered { interactor, offer: prompt_state.offer })
            &&& final(cache).offer == prompt_state.offer
        } else {
            &&& r.1.is_none()
            &&& final(cache).offer == old(cache).offer
        },
{
    let snapshot = if focus.target.is_some() {
        Some(focus.clone())
    } else {
        None
    };
    let mut focus_changed: Option<FocusChanged> = None;
    if !same_opt_focus(&cache.focus, &snapshot) {
        let previous = match &cache.focus {
            Some(f) => Some(f.clone()),
            None => None,
        };
        let current = match &snapshot {
            Some(f) => Some(f.clone()),
            None => None,
        };
        focus_changed = Some(FocusChanged { interactor, previous, current });
        cache.focus = snapshot;
    }
    let mut offered: Option<InteractionOffered> = None;
    if !same_opt_offer(&cache.offer, &prompt_state.offer) {
        let offer = match &prompt_state.offer {
            Some(o) => Some(o.clone()),
            None => None,
        };
        let kept = match &prompt_state.offer {
            Some(o) => Some(o.clone()),
            None => None,
        };
        offered = Some(InteractionOffered { interactor, offer });
        cache.offer = kept;
    }
    (focus_changed, offered)
}

} // verus!
