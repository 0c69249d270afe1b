//! Ranking of an actor's candidates. The weighted score of each candidate is
//! computed by the host; this module orders and truncates the list.

use vstd::prelude::*;

use crate::components::{InteractionCandidate, InteractionSlot, Interactor};
use crate::config::InteractionConfig;
use crate::order::{insert_keeps_sorted, sorted_order_unique, sorts, strict_total};
use crate::scalar::Scalar;

verus! {

/// Candidate `a` ranks before candidate `b`: higher score first, then the
/// nearer one, then the one collected first.
pub open spec fn candidate_before(entries: Seq<InteractionCandidate>) -> spec_fn(int, int) -> bool {
    |a: int, b: int|
        entries[a].score.key() > entries[b].score.key() || (entries[a].score.key() == entries[b].score.key()
            && (entries[a].distance.key() < entries[b].distance.key() || (entries[a].distance.key()
            == entries[b].distance.key() && a < b)))
}

/// The candidate order is a strict total order.
pub proof fn candidate_before_is_strict_total(entries: Seq<InteractionCandidate>)
    ensures
        strict_total(candidate_before(entries), entries.len() as int),
{
}

/// The first `limit` candidates of `entries` listed in `order`.
pub open spec fn ranked(entries: Seq<InteractionCandidate>, order: Seq<usize>, limit: usize) -> Seq<InteractionCandidate> {
    let n = if limit < entries.len() { limit as int } else { entries.len() as int };
    Seq::new(n as nat, |k: int| entries[order[k] as int])
}

/// How many candidates an actor keeps: its own limit, else the default, and
/// never fewer than one.
pub open spec fn spec_candidate_limit(interactor: Interactor, config: InteractionConfig) -> usize {
    let limit = match interactor.candidate_limit {
        Some(l) => l,
        None => config.default_candidate_limit,
    };
    if limit < 1 { 1 } else { limit }
}

/// How many candidates an actor keeps.
pub fn effective_candidate_limit(interactor: &Interactor, config: &InteractionConfig) -> (r: usize)
    ensures
        r == spec_candidate_limit(*interactor, *config),
        r >= 1,
{
    let limit = match interactor.candidate_limit {
        Some(l) => l,
        None => config.default_candidate_limit,
    };
    if limit < 1 {
        1
    } else {
        limit
    }
}

/// `slots[i]` holds the highest slot priority (the last one among equals).
pub open spec fn best_priority_at(slots: Seq<InteractionSlot>, i: int) -> bool {
    &&& 0 <= i < slots.len()
    &&& forall|j: int| 0 <= j < slots.len() ==> #[trigger] slots[j].priority.key() <= slots[i].priority.key()
}

/// The highest slot priority of a target, under `f32::total_cmp`; `None`
/// when it has no slots.
pub fn best_slot_priority(slots: &Vec<InteractionSlot>) -> (r: Option<Scalar>)
    ensures
        match r {
            Some(p) => exists|i: int| best_priority_at(slots@, i) && slots@[i].priority == p,
            None => slots@.len() == 0,
        },
{
    if slots.len() == 0 {
        return None;
    }
    let mut best: usize = 0;
    let mut i: usize = 1;
    while i < slots.len()
        invariant
            1 <= i <= slots@.len(),
            best < i,
            forall|j: int| 0 <= j < i ==> #[trigger] slots@[j].priority.key() <= slots@[best as int].priority.key(),
        decreases slots@.len() - i,
    {
        if !slots[i].priority.total_less_than(slots[best].priority) {
            best = i;
        }
        i = i + 1;
    }
    proof {
        assert(best_priority_at(slots@, best as int));
    }
    Some(slots[best].priority)
}

/// The best priority is unique: every slot holding it has the same value.
pub proof fn best_priority_unique(slots: Seq<InteractionSlot>, i: int, k: int)
    requires
        best_priority_at(slots, i),
        best_priority_at(slots, k),
    ensures
        slots[i].priority == slots[k].priority,
{
    assert(slots[k].priority.key() <= slots[i].priority.key());
    assert(slots[i].priority.key() <= slots[k].priority.key());
    crate::scalar::order_key_injective(slots[i].priority.bits, slots[k].priority.bits);
}

/// The indices of `entries` in rank order.
fn rank_order(entries: &Vec<InteractionCandidate>) -> (order: Vec<usize>)
    ensures
        sorts(order@, entries@.len() as int, candidate_before(entries@)),
{
    let ghost before = candidate_before(entries@);
    let mut order: Vec<usize> = Vec::new();
    let mut i: usize = 0;
    while i < entries.len()
        invariant
            i <= entries@.len(),
            sorts(order@, i as int, before),
            before == candidate_before(entries@),
        decreases entries@.len() - i,
    {
        let score = entries[i].score.order_key();
        let distance = entries[i].distance.order_key();
        let mut p: usize = 0;
        while p < order.len() && !(score > entries[order[p]].score.order_key() || (score
            == entries[order[p]].score.order_key() && distance < entries[order[p]].distance.order_key()))
            invariant
                p <= order@.len(),
                order@.len() == i,
                i < entries@.len(),
                sorts(order@, i as int, before),
                before == candidate_before(entries@),
                score == entries@[i as int].score.key(),
                distance == entries@[i as int].distance.key(),
                forall|q: int| 0 <= q < p ==> !before(i as int, #[trigger] order@[q] as int),
            decreases order@.len() - p,
        {
            p = p + 1;
        }
        proof {
            candidate_before_is_strict_total(entries@);
            insert_keeps_sorted(order@, i as int, p as int, before);
        }
        order.insert(p, i);
        i = i + 1;
    }
    order
}

/// Orders candidates best first (higher score, then nearer, then collected
/// earlier) and keeps the first `limit`.
pub fn rank_candidates(entries: &mut Vec<InteractionCandidate>, limit: usize)
    ensures
        forall|order: Seq<usize>| #[trigger]
            sorts(order, old(entries)@.len() as int, candidate_before(old(entries)@)) ==> final(entries)@
                == ranked(old(entries)@, order, limit),
        exists|order: Seq<usize>| #[trigger] sorts(order, old(entries)@.len() as int, candidate_before(old(entries)@)),
{
    let order = rank_order(entries);
    let n = if limit < entries.len() {
        limit
    } else {
        entries.len()
    };
    let mut out: Vec<InteractionCandidate> = Vec::new();
    let mut k: usize = 0;
    while k < n
        invariant
            k <= n,
            n <= entries@.len(),
            order@.len() == entries@.len(),
            sorts(order@, entries@.len() as int, candidate_before(entries@)),
            out@.len() == k,
            forall|j: int| 0 <= j < k ==> out@[j] == entries@[order@[j] as int],
        decreases n - k,
    {
        out.push(entries[order[k]]);
        k = k + 1;
    }
    proof {
        assert(out@ =~= ranked(entries@, order@, limit));
        assert forall|o: Seq<usize>| #[trigger] sorts(o, entries@.len() as int, candidate_before(entries@)) implies o
            == order@ by {
            candidate_before_is_strict_total(entries@);
            sorted_order_unique(o, order@, entries@.len() as int, candidate_before(entries@));
        }
    }
    *entries = out;
}

/// After ranking, the first candidate has the highest score of all
/// candidates collected, and the list holds at most `limit` entries.
pub proof fn ranked_first_is_best(entries: Seq<InteractionCandidate>, order: Seq<usize>, limit: usize)
    requires
        sorts(order, entries.len() as int, candidate_before(entries)),
        limit >= 1,
        0 < entries.len() <= usize::MAX,
    ensures
        ranked(entries, order, limit).len() <= limit,
        forall|j: int| 0 <= j < entries.len() ==> #[trigger] entries[j].score.key() <= ranked(entries, order, limit)[0].score.key(),
{
    candidate_before_is_strict_total(entries);
    let r = ranked(entries, order, limit);
    assert(r[0] == entries[order[0] as int]);
    assert forall|j: int| 0 <= j < entries.len() implies #[trigger] entries[j].score.key() <= r[0].score.key() by {
        if j != order[0] as int {
            assert((j as usize) != order[0]);
            crate::order::first_is_least(order, entries.len() as int, candidate_before(entries), j as usize);
        }
    }
}

} // verus!
