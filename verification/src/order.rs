//! Orders of indices under a strict total order, as a stable sort leaves
//! them.

use vstd::prelude::*;

verus! {

/// `before` is a strict total order on the indices `0..n`.
pub open spec fn strict_total(before: spec_fn(int, int) -> bool, n: int) -> bool {
    &&& forall|a: int| 0 <= a < n ==> !#[trigger] before(a, a)
    &&& forall|a: int, b: int|
        0 <= a < n && 0 <= b < n && a != b ==> #[trigger] before(a, b) || #[trigger] before(b, a)
    &&& forall|a: int, b: int| 0 <= a < n && 0 <= b < n && #[trigger] before(a, b) ==> !before(b, a)
    &&& forall|a: int, b: int, c: int|
        0 <= a < n && 0 <= b < n && 0 <= c < n && #[trigger] before(a, b) && #[trigger] before(b, c)
            ==> before(a, c)
}

/// `order` lists every index of `0..n` exactly once, each before the ones
/// it precedes under `before`.
pub open spec fn sorts(order: Seq<usize>, n: int, before: spec_fn(int, int) -> bool) -> bool {
    &&& order.len() == n
    &&& forall|p: int| 0 <= p < n ==> (#[trigger] order[p]) < n
    &&& forall|p: int, q: int| 0 <= p < n && 0 <= q < n && p != q ==> order[p] != order[q]
    &&& forall|v: usize| v < n ==> #[trigger] order.contains(v)
    &&& forall|p: int, q: int| 0 <= p < q < n ==> before(order[p] as int, order[q] as int)
}

/// There is only one such order.
pub proof fn sorted_order_unique(o1: Seq<usize>, o2: Seq<usize>, n: int, before: spec_fn(int, int) -> bool)
    requires
        strict_total(before, n),
        sorts(o1, n, before),
        sorts(o2, n, before),
    ensures
        o1 == o2,
{
    assert forall|p: int| 0 <= p < n implies o1[p] == o2[p] by {
        lemma_position_agrees(o1, o2, n, before, p);
    }
    assert(o1 =~= o2);
}

proof fn lemma_position_agrees(o1: Seq<usize>, o2: Seq<usize>, n: int, before: spec_fn(int, int) -> bool, p: int)
    requires
        strict_total(before, n),
        sorts(o1, n, before),
        sorts(o2, n, before),
        0 <= p < n,
    ensures
        o1[p] == o2[p],
    decreases p,
{
    if p > 0 {
        lemma_position_agrees(o1, o2, n, before, p - 1);
    }
    assert forall|q: int| 0 <= q < p implies o1[q] == o2[q] by {
        lemma_position_agrees(o1, o2, n, before, q);
    }
    let x = o1[p];
    let y = o2[p];
    if x != y {
        assert(o1.contains(y));
        let k = choose|k: int| 0 <= k < o1.len() && o1[k] == y;
        assert(o2.contains(x));
        let m = choose|m: int| 0 <= m < o2.len() && o2[m] == x;
        if k < p {
            assert(o2[k] == y);
        }
        if m < p {
            assert(o1[m] == x);
        }
        assert(k > p);
        assert(m > p);
        assert(before(x as int, y as int));
        assert(before(y as int, x as int));
    }
}

/// Inserting index `n` in front of the first entry it precedes keeps a
/// sorted order sorted.
pub proof fn insert_keeps_sorted(order: Seq<usize>, n: int, p: int, before: spec_fn(int, int) -> bool)
    requires
        strict_total(before, n + 1),
        sorts(order, n, before),
        0 <= p <= n,
        n + 1 <= usize::MAX,
        forall|q: int| 0 <= q < p ==> !before(n, #[trigger] order[q] as int),
        p < n ==> before(n, order[p] as int),
    ensures
        sorts(order.insert(p, n as usize), n + 1, before),
{
    let out = order.insert(p, n as usize);
    assert forall|q: int| 0 <= q < p implies before(#[trigger] order[q] as int, n) by {
        assert(!before(n, order[q] as int));
        assert(order[q] < n);
    }
    assert forall|q: int| p <= q < n implies before(n, #[trigger] order[q] as int) by {
        if q > p {
            assert(before(order[p] as int, order[q] as int));
        }
    }
    assert forall|a: int, b: int| 0 <= a < b < n + 1 implies before(out[a] as int, out[b] as int) by {
        if a < p && b < p {
        } else if a < p && b == p {
            assert(before(order[a] as int, n));
        } else if a < p && b > p {
            assert(out[b] == order[b - 1]);
        } else if a == p {
            assert(before(n, order[b - 1] as int));
        } else {
            assert(out[a] == order[a - 1]);
            assert(out[b] == order[b - 1]);
        }
    }
    assert forall|v: usize| v < n + 1 implies #[trigger] out.contains(v) by {
        if v == n {
            assert(out[p] == n);
        } else {
            assert(order.contains(v));
            let k = choose|k: int| 0 <= k < order.len() && order[k] == v;
            if k < p {
                assert(out[k] == v);
            } else {
                assert(out[k + 1] == v);
            }
        }
    }
    assert forall|a: int, b: int| 0 <= a < n + 1 && 0 <= b < n + 1 && a != b implies out[a] != out[b] by {
        if a != p && b != p {
            let a0 = if a < p { a } else { a - 1 };
            let b0 = if b < p { b } else { b - 1 };
            assert(out[a] == order[a0]);
            assert(out[b] == order[b0]);
        } else if a == p {
            let b0 = if b < p { b } else { b - 1 };
            assert(out[b] == order[b0]);
        } else {
            let a0 = if a < p { a } else { a - 1 };
            assert(out[a] == order[a0]);
        }
    }
    assert forall|q: int| 0 <= q < n + 1 implies (#[trigger] out[q]) < n + 1 by {
        if q < p {
        } else if q == p {
        } else {
            assert(out[q] == order[q - 1]);
        }
    }
}

/// Under a strict total order the first entry precedes every other index.
pub proof fn first_is_least(order: Seq<usize>, n: int, before: spec_fn(int, int) -> bool, v: usize)
    requires
        strict_total(before, n),
        sorts(order, n, before),
        v < n,
        v != order[0],
    ensures
        before(order[0] as int, v as int),
{
    assert(order.contains(v));
    let k = choose|k: int| 0 <= k < order.len() && order[k] == v;
    assert(k != 0);
}

} // verus!
