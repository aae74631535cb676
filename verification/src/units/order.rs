//! Stable ordering of items by a scalar key.
//!
//! The order is that of a stable sort: items come out by their keys, and
//! items with equal keys come out as they went in. `stable_order` says
//! which order that is, for every list of keys; there is only one such
//! order, so the standard sort gives it wherever it can be called.

use vstd::prelude::*;

use super::scalar::Scalar;
use super::sorting::sort_pairs;

verus! {

/// Whether a key `a` has to come strictly before a key `b`.
pub open spec fn precedes(a: Scalar, b: Scalar, descending: bool) -> bool {
    if descending {
        a.spec_gt(b)
    } else {
        a.spec_lt(b)
    }
}

/// Where item `item` enters `order`: behind every item that it does not
/// have to come before.
pub open spec fn entry_point(keys: Seq<Scalar>, order: Seq<usize>, item: int, descending: bool) -> int
    decreases order.len(),
{
    if order.len() == 0 {
        0
    } else if precedes(keys[item], keys[order.last() as int], descending) {
        entry_point(keys, order.drop_last(), item, descending)
    } else {
        order.len() as int
    }
}

/// The first `n` items in stable order of their keys.
pub open spec fn stable_order(keys: Seq<Scalar>, n: nat, descending: bool) -> Seq<usize>
    decreases n,
{
    if n == 0 {
        Seq::empty()
    } else {
        let before = stable_order(keys, (n - 1) as nat, descending);
        before.insert(entry_point(keys, before, n - 1, descending), (n - 1) as usize)
    }
}

/// Whether no key is a NaN.
pub open spec fn all_numbers(keys: Seq<Scalar>) -> bool {
    forall|i: int| 0 <= i < keys.len() ==> !(#[trigger] keys[i]).nan()
}

/// Whether `order` lists items below `n` by their keys, equal keys in the
/// order of the items.
pub open spec fn sorted_stably(keys: Seq<Scalar>, order: Seq<usize>, descending: bool) -> bool {
    forall|p: int, q: int|
        0 <= p < q < order.len() ==> {
            let a = #[trigger] order[p] as int;
            let b = #[trigger] order[q] as int;
            !precedes(keys[b], keys[a], descending) && (precedes(keys[a], keys[b], descending) || a
                < b)
        }
}

/// Whether `order` holds each item below `n` exactly once.
pub open spec fn permutes(order: Seq<usize>, n: nat) -> bool {
    &&& order.len() == n
    &&& forall|p: int| 0 <= p < order.len() ==> (#[trigger] order[p]) < n
    &&& forall|p: int, q: int| 0 <= p < q < order.len() ==> #[trigger] order[p] != #[trigger] order[q]
}

proof fn lemma_entry_point(keys: Seq<Scalar>, order: Seq<usize>, item: int, descending: bool)
    ensures
        0 <= entry_point(keys, order, item, descending) <= order.len(),
        forall|p: int|
            entry_point(keys, order, item, descending) <= p < order.len() ==> precedes(
                keys[item],
                keys[#[trigger] order[p] as int],
                descending,
            ),
        entry_point(keys, order, item, descending) > 0 ==> !precedes(
            keys[item],
            keys[order[entry_point(keys, order, item, descending) - 1] as int],
            descending,
        ),
    decreases order.len(),
{
    if order.len() > 0 && precedes(keys[item], keys[order.last() as int], descending) {
        let head = order.drop_last();
        lemma_entry_point(keys, head, item, descending);
        let at = entry_point(keys, order, item, descending);
        assert(at == entry_point(keys, head, item, descending));
        assert forall|p: int| at <= p < order.len() implies precedes(
            keys[item],
            keys[#[trigger] order[p] as int],
            descending,
        ) by {
            if p < order.len() - 1 {
                assert(head[p] == order[p]);
            }
        }
        if at > 0 {
            assert(head[at - 1] == order[at - 1]);
        }
    }
}

proof fn lemma_inserted(order: Seq<usize>, at: int, item: usize, p: int)
    requires
        0 <= at <= order.len(),
        0 <= p <= order.len(),
    ensures
        order.insert(at, item).len() == order.len() + 1,
        p < at ==> order.insert(at, item)[p] == order[p],
        p == at ==> order.insert(at, item)[p] == item,
        p > at ==> order.insert(at, item)[p] == order[p - 1],
{
    order.insert_ensures(at, item);
    if p > at {
        assert(order.insert(at, item)[(p - 1) + 1] == order[p - 1]);
    }
}

/// The stable order of the first `n` items holds each of them once.
pub proof fn lemma_stable_order_permutes(keys: Seq<Scalar>, n: nat, descending: bool)
    requires
        n <= usize::MAX,
    ensures
        permutes(stable_order(keys, n, descending), n),
    decreases n,
{
    if n > 0 {
        let before = stable_order(keys, (n - 1) as nat, descending);
        lemma_stable_order_permutes(keys, (n - 1) as nat, descending);
        lemma_entry_point(keys, before, n - 1, descending);
        let at = entry_point(keys, before, n - 1, descending);
        let after = stable_order(keys, n, descending);
        assert(after == before.insert(at, (n - 1) as usize));
        lemma_inserted(before, at, (n - 1) as usize, 0);
        assert forall|p: int| 0 <= p < after.len() implies (#[trigger] after[p]) < n by {
            lemma_inserted(before, at, (n - 1) as usize, p);
        }
        assert forall|p: int, q: int| 0 <= p < q < after.len() implies #[trigger] after[p]
            != #[trigger] after[q] by {
            lemma_inserted(before, at, (n - 1) as usize, p);
            lemma_inserted(before, at, (n - 1) as usize, q);
        }
    }
}

/// Where no key is a NaN, the stable order is sorted by the keys, and items
/// with equal keys keep their order.
pub proof fn lemma_stable_order_sorted(keys: Seq<Scalar>, n: nat, descending: bool)
    requires
        n <= keys.len(),
        n <= usize::MAX,
        all_numbers(keys),
    ensures
        sorted_stably(keys, stable_order(keys, n, descending), descending),
    decreases n,
{
    if n > 0 {
        let before = stable_order(keys, (n - 1) as nat, descending);
        lemma_stable_order_sorted(keys, (n - 1) as nat, descending);
        lemma_stable_order_permutes(keys, (n - 1) as nat, descending);
        lemma_entry_point(keys, before, n - 1, descending);
        let at = entry_point(keys, before, n - 1, descending);
        let item = (n - 1) as usize;
        let after = stable_order(keys, n, descending);
        assert(after == before.insert(at, item));
        lemma_inserted(before, at, item, 0);
        assert forall|p: int, q: int| 0 <= p < q < after.len() implies ({
            let a = #[trigger] after[p] as int;
            let b = #[trigger] after[q] as int;
            !precedes(keys[b], keys[a], descending) && (precedes(keys[a], keys[b], descending) || a
                < b)
        }) by {
            lemma_inserted(before, at, item, p);
            lemma_inserted(before, at, item, q);
            let a = after[p] as int;
            let b = after[q] as int;
            assert(a < n && b < n) by {
                lemma_stable_order_permutes(keys, n, descending);
            }
            assert(!keys[a].nan() && !keys[b].nan() && !keys[n - 1].nan());
            if q == at {
                // the new item stands behind `a`, and behind the item just before it
                let last = before[at - 1] as int;
                assert(last < n - 1);
                assert(!keys[last].nan());
                assert(!precedes(keys[n - 1], keys[last], descending));
                if p < at - 1 {
                    assert(a == before[p] as int);
                    assert(!precedes(keys[last], keys[a], descending));
                }
            } else if p == at {
                assert(b == before[q - 1] as int);
                assert(precedes(keys[n - 1], keys[b], descending));
            } else {
                let pp = if p < at {
                    p
                } else {
                    p - 1
                };
                let qq = if q < at {
                    q
                } else {
                    q - 1
                };
                assert(a == before[pp] as int && b == before[qq] as int);
            }
        }
    }
}

/// Whether a key `a` has to come strictly before a key `b`.
#[verifier::when_used_as_spec(precedes)]
pub fn comes_before(a: Scalar, b: Scalar, descending: bool) -> (r: bool)
    ensures
        r == precedes(a, b, descending),
{
    if descending {
        a.gt(b)
    } else {
        a.lt(b)
    }
}

/// Whether `order` holds every item below `n`.
pub open spec fn holds_each(order: Seq<usize>, n: nat) -> bool {
    forall|i: int| 0 <= i < n ==> order.contains(#[trigger] (i as usize))
}

/// The keys of keyed items.
pub open spec fn keys_of(pairs: Seq<(Scalar, usize)>) -> Seq<Scalar> {
    Seq::new(pairs.len(), |i: int| pairs[i].0)
}

/// The numbers of keyed items.
pub open spec fn numbers_of(pairs: Seq<(Scalar, usize)>) -> Seq<usize> {
    Seq::new(pairs.len(), |i: int| pairs[i].1)
}

/// Whether keyed items can be sorted: every key is a number, and the items
/// are numbered from 0 as they are listed.
pub open spec fn sortable(pairs: Seq<(Scalar, usize)>) -> bool {
    &&& all_numbers(keys_of(pairs))
    &&& forall|i: int| 0 <= i < pairs.len() ==> (#[trigger] pairs[i]).1 == i
}

/// Whether `sorted` is `listed` after a stable sort by key: the same items,
/// each once and with the key it had, sorted by key, items of equal keys in
/// their listed order.
pub open spec fn sorted_from(
    listed: Seq<(Scalar, usize)>,
    sorted: Seq<(Scalar, usize)>,
    descending: bool,
) -> bool {
    &&& permutes(numbers_of(sorted), listed.len())
    &&& holds_each(numbers_of(sorted), listed.len())
    &&& forall|p: int|
        0 <= p < sorted.len() ==> (#[trigger] sorted[p]).0 == listed[sorted[p].1 as int].0
    &&& sorted_stably(keys_of(listed), numbers_of(sorted), descending)
}

proof fn lemma_entry_point_is(
    keys: Seq<Scalar>,
    order: Seq<usize>,
    item: int,
    descending: bool,
    at: int,
)
    requires
        0 <= at <= order.len(),
        forall|q: int|
            at <= q < order.len() ==> precedes(
                keys[item],
                keys[#[trigger] order[q] as int],
                descending,
            ),
        at > 0 ==> !precedes(keys[item], keys[order[at - 1] as int], descending),
    ensures
        entry_point(keys, order, item, descending) == at,
    decreases order.len(),
{
    if order.len() > 0 && at < order.len() {
        let head = order.drop_last();
        assert(precedes(keys[item], keys[order[order.len() - 1] as int], descending));
        assert forall|q: int| at <= q < head.len() implies precedes(
            keys[item],
            keys[#[trigger] head[q] as int],
            descending,
        ) by {
            assert(head[q] == order[q]);
        }
        if at > 0 {
            assert(head[at - 1] == order[at - 1]);
        }
        lemma_entry_point_is(keys, head, item, descending, at);
    }
}

/// There is one stable order: a list that holds each item below `n` once,
/// sorted by key with equal keys in the order of the items, is
/// `stable_order`.
pub proof fn lemma_stable_order_unique(keys: Seq<Scalar>, order: Seq<usize>, n: nat, descending: bool)
    requires
        n <= usize::MAX,
        permutes(order, n),
        holds_each(order, n),
        sorted_stably(keys, order, descending),
    ensures
        order == stable_order(keys, n, descending),
    decreases n,
{
    if n == 0 {
        assert(order =~= Seq::<usize>::empty());
    } else {
        let item = (n - 1) as usize;
        assert(order.contains(item));
        let at = choose|at: int| 0 <= at < order.len() && order[at] == item;
        let rest = order.remove(at);
        assert(rest.len() == n - 1);
        assert forall|q: int| 0 <= q < rest.len() implies (#[trigger] rest[q]) < n - 1 by {
            let from = if q < at {
                q
            } else {
                q + 1
            };
            assert(rest[q] == order[from]);
            assert(order[from] != order[at]);
        }
        assert forall|p: int, q: int| 0 <= p < q < rest.len() implies #[trigger] rest[p]
            != #[trigger] rest[q] by {
            let pp = if p < at {
                p
            } else {
                p + 1
            };
            let qq = if q < at {
                q
            } else {
                q + 1
            };
            assert(rest[p] == order[pp] && rest[q] == order[qq]);
        }
        assert forall|i: int| 0 <= i < n - 1 implies rest.contains(#[trigger] (i as usize)) by {
            assert(order.contains(i as usize));
            let w = choose|w: int| 0 <= w < order.len() && order[w] == i as usize;
            let to = if w < at {
                w
            } else {
                w - 1
            };
            assert(rest[to] == order[w]);
        }
        assert forall|p: int, q: int| 0 <= p < q < rest.len() implies ({
            let a = #[trigger] rest[p] as int;
            let b = #[trigger] rest[q] as int;
            !precedes(keys[b], keys[a], descending) && (precedes(keys[a], keys[b], descending) || a
                < b)
        }) by {
            let pp = if p < at {
                p
            } else {
                p + 1
            };
            let qq = if q < at {
                q
            } else {
                q + 1
            };
            assert(rest[p] == order[pp] && rest[q] == order[qq]);
        }
        lemma_stable_order_unique(keys, rest, (n - 1) as nat, descending);
        assert forall|q: int| at <= q < rest.len() implies precedes(
            keys[n - 1],
            keys[#[trigger] rest[q] as int],
            descending,
        ) by {
            assert(rest[q] == order[q + 1]);
            let a = order[at] as int;
            let b = order[q + 1] as int;
            assert(b < n - 1) by {
                assert(rest[q] < n - 1);
            }
            assert(precedes(keys[a], keys[b], descending) || a < b);
        }
        if at > 0 {
            assert(rest[at - 1] == order[at - 1]);
            let a = order[at - 1] as int;
            let b = order[at] as int;
            assert(!precedes(keys[b], keys[a], descending));
        }
        lemma_entry_point_is(keys, rest, n - 1, descending, at);
        assert(order =~= rest.insert(at, item)) by {
            rest.insert_ensures(at, item);
            assert forall|q: int| 0 <= q < order.len() implies order[q] == rest.insert(at, item)[q] by {
                lemma_inserted(rest, at, item, q);
                if q > at {
                    assert(rest[q - 1] == order[q]);
                }
            }
        }
    }
}

/// Whether no key is a NaN.
pub fn are_numbers(keys: &Vec<Scalar>) -> (r: bool)
    ensures
        r == all_numbers(keys@),
{
    let mut i: usize = 0;
    while i < keys.len()
        invariant
            i <= keys@.len(),
            forall|k: int| 0 <= k < i ==> !(#[trigger] keys@[k]).nan(),
        decreases keys@.len() - i,
    {
        if keys[i].is_nan() {
            return false;
        }
        i = i + 1;
    }
    true
}

/// Lists the items `0..keys.len()` in stable order of their keys:
/// ascending, or descending where `descending` is set. Keys that are all
/// numbers go through the standard sort.
pub fn order_by_key(keys: &Vec<Scalar>, descending: bool) -> (r: Vec<usize>)
    ensures
        r@ == stable_order(keys@, keys@.len(), descending),
{
    if !are_numbers(keys) {
        return order_by_insertion(keys, descending);
    }
    let n: usize = keys.len();
    let mut pairs: Vec<(Scalar, usize)> = Vec::new();
    let mut i: usize = 0;
    while i < n
        invariant
            i <= n,
            n == keys@.len(),
            pairs@.len() == i,
            forall|k: int| 0 <= k < i ==> #[trigger] pairs@[k] == (keys@[k], k as usize),
        decreases n - i,
    {
        pairs.push((keys[i], i));
        i = i + 1;
    }
    let ghost listed = pairs@;
    assert(keys_of(listed) =~= keys@);
    sort_pairs(&mut pairs, descending);
    let mut order: Vec<usize> = Vec::new();
    let mut p: usize = 0;
    while p < n
        invariant
            p <= n,
            n == pairs@.len(),
            order@ == numbers_of(pairs@).take(p as int),
        decreases n - p,
    {
        order.push(pairs[p].1);
        assert(numbers_of(pairs@).take(p + 1) == numbers_of(pairs@).take(p as int).push(
            pairs@[p as int].1,
        ));
        p = p + 1;
    }
    proof {
        assert(numbers_of(pairs@).take(n as int) == numbers_of(pairs@));
        lemma_stable_order_unique(keys@, order@, n as nat, descending);
    }
    order
}

/// Lists the items `0..keys.len()` in stable order of their keys by
/// entering them one by one. This is the way for keys that hold a NaN,
/// which the standard sort does not take.
pub fn order_by_insertion(keys: &Vec<Scalar>, descending: bool) -> (r: Vec<usize>)
    ensures
        r@ == stable_order(keys@, keys@.len(), descending),
{
    let mut order: Vec<usize> = Vec::new();
    let mut i: usize = 0;
    while i < keys.len()
        invariant
            i <= keys@.len(),
            order@ == stable_order(keys@, i as nat, descending),
        decreases keys@.len() - i,
    {
        proof {
            lemma_stable_order_permutes(keys@, i as nat, descending);
        }
        let mut at: usize = order.len();
        assert(order@.take(at as int) == order@);
        while at > 0 && comes_before(keys[i], keys[order[at - 1]], descending)
            invariant
                at <= order@.len(),
                i < keys@.len(),
                permutes(order@, i as nat),
                entry_point(keys@, order@, i as int, descending) == entry_point(
                    keys@,
                    order@.take(at as int),
                    i as int,
                    descending,
                ),
            decreases at,
        {
            proof {
                let head = order@.take(at as int);
                assert(head.last() == order@[at - 1]);
                assert(head.drop_last() == order@.take(at - 1));
            }
            at = at - 1;
        }
        proof {
            let head = order@.take(at as int);
            if at > 0 {
                assert(head.last() == order@[at - 1]);
            }
            assert(entry_point(keys@, head, i as int, descending) == at);
        }
        order.insert(at, i);
        i = i + 1;
    }
    order
}

} // verus!
