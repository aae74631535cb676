//! The standard library's stable sort, applied to keyed items.

use std::cmp::Ordering;

use vstd::prelude::*;

use super::order::{precedes, sortable, sorted_from};
use super::scalar::Scalar;

verus! {

/// How a key `a` stands to a key `b`: `Less` where it has to come before
/// it, `Greater` where it has to come behind it, `Equal` otherwise.
pub fn key_order(a: Scalar, b: Scalar, descending: bool) -> (r: Ordering)
    ensures
        (r == Ordering::Less) == precedes(a, b, descending),
        (r == Ordering::Greater) == (!precedes(a, b, descending) && precedes(b, a, descending)),
{
    let before: bool = if descending {
        a.gt(b)
    } else {
        a.lt(b)
    };
    let behind: bool = if descending {
        b.gt(a)
    } else {
        b.lt(a)
    };
    if before {
        Ordering::Less
    } else if behind {
        Ordering::Greater
    } else {
        Ordering::Equal
    }
}

/// `slice::sort_by` of std, on items that are numbered as they are listed
/// and whose keys are all numbers, so that `key_order` is a total order:
/// the sort rearranges the items, leaves them sorted by their keys, and
/// keeps items of equal keys in their listed order.
#[verifier::external_body]
pub(crate) fn sort_pairs(pairs: &mut Vec<(Scalar, usize)>, descending: bool)
    requires
        sortable(old(pairs)@),
    ensures
        sorted_from(old(pairs)@, final(pairs)@, descending),
{
    pairs.sort_by(|x, y| key_order(x.0, y.0, descending));
}

} // verus!
