//! Sticky focus: the best candidate takes focus unless the current focus is
//! still within the hysteresis margin of it.

use vstd::prelude::*;

use crate::components::{FocusedInteraction, InteractionCandidates, Interactor};
use crate::config::InteractionConfig;
use crate::control::first_with_target;
use crate::scalar::Scalar;

verus! {

/// The hysteresis margin an actor uses: its own, else the default.
pub fn effective_hysteresis(interactor: &Interactor, config: &InteractionConfig) -> (r: Scalar)
    ensures
        r == (match interactor.hysteresis {
            Some(h) => h,
            None => config.hysteresis,
        }),
{
    match interactor.hysteresis {
        Some(h) => h,
        None => config.hysteresis,
    }
}

/// The focus after one update. `within_margin[i]` says whether candidate
/// `i` is not beaten by the best candidate, or beaten by less than the
/// hysteresis margin (`best - score < hysteresis`).
/// With no candidates the focus is cleared. The current target keeps the
/// focus (taking the source of its first entry) when it is still a candidate
/// within the margin; otherwise the best candidate takes the focus with no
/// slot chosen yet.
pub open spec fn spec_update_focus(
    focused: FocusedInteraction,
    entries: Seq<crate::components::InteractionCandidate>,
    within_margin: Seq<bool>,
) -> FocusedInteraction {
    if entries.len() == 0 {
        FocusedInteraction { target: None, slot_id: None, source: None }
    } else {
        let keep = match focused.target {
            Some(t) => exists|i: int| first_with_target(entries, t, i) && within_margin[i],
            None => false,
        };
        if keep {
            let i = choose|i: int| first_with_target(entries, focused.target->0, i);
            FocusedInteraction { source: Some(entries[i].source), ..focused }
        } else {
            FocusedInteraction {
                target: Some(entries[0].target),
                slot_id: None,
                source: Some(entries[0].source),
            }
        }
    }
}

proof fn lemma_first_with_target_unique(entries: Seq<crate::components::InteractionCandidate>, t: u64, i: int, k: int)
    requires
        first_with_target(entries, t, i),
        first_with_target(entries, t, k),
    ensures
        i == k,
{
    if i < k {
        assert(entries[i].target != t);
    } else if k < i {
        assert(entries[k].target != t);
    }
}

/// Moves an actor's focus to match its ranked candidates.
pub fn update_focus(
    focused: &mut FocusedInteraction,
    candidates: &InteractionCandidates,
    within_margin: &Vec<bool>,
)
    requires
        within_margin@.len() == candidates.entries@.len(),
    ensures
        *final(focused) == spec_update_focus(*old(focused), candidates.entries@, within_margin@),
{
    let entries = &candidates.entries;
    if entries.len() == 0 {
        *focused = FocusedInteraction { target: None, slot_id: None, source: None };
        return ;
    }
    let mut existing: Option<usize> = None;
    if let Some(target) = focused.target {
        let mut i: usize = 0;
        while i < entries.len() && entries[i].target != target
            invariant
                i <= entries@.len(),
                forall|j: int| 0 <= j < i ==> #[trigger] entries@[j].target != target,
            decreases entries@.len() - i,
        {
            i = i + 1;
        }
        if i < entries.len() {
            proof {
                assert(first_with_target(entries@, target, i as int));
            }
            existing = Some(i);
        } else {
            proof {
                assert forall|k: int| !first_with_target(entries@, target, k) by {
                    if 0 <= k < entries@.len() {
                        assert(entries@[k].target != target);
                    }
                }
            }
        }
    }
    let keep = match existing {
        Some(i) => within_margin[i],
        None => false,
    };
    proof {
        if let Some(t) = focused.target {
            if let Some(i) = existing {
                assert forall|k: int| first_with_target(entries@, t, k) implies k == i by {
                    lemma_first_with_target_unique(entries@, t, i as int, k);
                }
            }
        }
    }
    if keep {
        let i = match existing {
            Some(i) => i,
            None => 0,
        };
        focused.source = Some(entries[i].source);
    } else {
        focused.target = Some(entries[0].target);
        focused.slot_id = None;
        focused.source = Some(entries[0].source);
    }
}

/// Focus stays on the current target while it is a candidate within the
/// hysteresis margin of the best one.
pub proof fn focus_is_sticky(
    focused: FocusedInteraction,
    entries: Seq<crate::components::InteractionCandidate>,
    within_margin: Seq<bool>,
    i: int,
)
    requires
        within_margin.len() == entries.len(),
        focused.target is Some,
        first_with_target(entries, focused.target->0, i),
        within_margin[i],
    ensures
        spec_update_focus(focused, entries, within_margin).target == focused.target,
        spec_update_focus(focused, entries, within_margin).slot_id == focused.slot_id,
{
}

/// A focus that is not kept moves to the best candidate and forgets its slot.
pub proof fn focus_moves_to_best(
    focused: FocusedInteraction,
    entries: Seq<crate::components::InteractionCandidate>,
    within_margin: Seq<bool>,
)
    requires
        within_margin.len() == entries.len(),
        entries.len() > 0,
        forall|i: int| #![auto] focused.target is Some && first_with_target(entries, focused.target->0, i) ==> !within_margin[i],
    ensures
        spec_update_focus(focused, entries, within_margin).target == Some(entries[0].target),
        spec_update_focus(focused, entries, within_margin).slot_id.is_none(),
{
}

} // verus!
