//! Miscellaneous baseline algorithms: the anchor bookkeeping of the
//! interpolated baseline, and the BEADS settings.

use vstd::prelude::*;
use crate::error::{BaselineError, Result};

pub mod beads;

pub use beads::BeadsCostFunction;

verus! {

/// Whether the anchor at position `a` goes before the one at position `b`:
/// by sample index, and among equal indices by position.
pub open spec fn anchor_before(keys: Seq<usize>, a: int, b: int) -> bool {
    keys[a] < keys[b] || (keys[a] == keys[b] && a < b)
}

/// Whether `order` lists each position of `keys` once, sorted by sample index
/// and, among equal indices, in their original order (a stable sort).
pub open spec fn is_stable_order(keys: Seq<usize>, order: Seq<usize>) -> bool {
    &&& order.len() == keys.len()
    &&& forall|k: int| 0 <= k < order.len() ==> #[trigger] order[k] < keys.len()
    &&& forall|a: int, b: int|
        0 <= a < b < order.len() ==> anchor_before(keys, #[trigger] order[a] as int, #[trigger] order[b] as int)
}

/// The positions of the anchors with sample indices `keys`, in the order a
/// stable sort by sample index puts them.
pub fn anchor_order(keys: &[usize]) -> (order: Vec<usize>)
    ensures
        is_stable_order(keys@, order@),
{
    let mut order: Vec<usize> = Vec::new();
    let mut i: usize = 0;
    while i < keys.len()
        invariant
            i <= keys@.len(),
            order@.len() == i,
            forall|k: int| 0 <= k < i ==> #[trigger] order@[k] < i,
            forall|a: int, b: int|
                0 <= a < b < i ==> anchor_before(keys@, #[trigger] order@[a] as int, #[trigger] order@[b] as int),
        decreases keys@.len() - i,
    {
        let key = keys[i];
        let mut p: usize = 0;
        while p < i
            invariant
                p <= i,
                i < keys@.len(),
                key == keys@[i as int],
                order@.len() == i,
                forall|k: int| 0 <= k < i ==> #[trigger] order@[k] < i,
                forall|k: int| 0 <= k < p ==> keys@[#[trigger] order@[k] as int] <= key,
            ensures
                p <= i,
                forall|k: int| 0 <= k < p ==> keys@[#[trigger] order@[k] as int] <= key,
                p < i ==> keys@[order@[p as int] as int] > key,
            decreases i - p,
        {
            if keys[order[p]] > key {
                break;
            }
            p = p + 1;
        }
        proof {
            assert forall|k: int| p <= k < i implies keys@[#[trigger] order@[k] as int] > key by {
                if p < k {
                    assert(anchor_before(keys@, order@[p as int] as int, order@[k] as int));
                }
            }
        }
        let ghost old_order = order@;
        order.insert(p, i);
        proof {
            old_order.insert_ensures(p as int, i);
            assert forall|k: int| 0 <= k < i + 1 implies #[trigger] order@[k] < i + 1 by {
                if k > p {
                    assert(order@[k] == old_order[k - 1]);
                }
            }
            assert forall|a: int, b: int| 0 <= a < b < i + 1 implies anchor_before(
                keys@,
                #[trigger] order@[a] as int,
                #[trigger] order@[b] as int,
            ) by {
                if b < p {
                } else if b == p {
                    assert(keys@[old_order[a] as int] <= key);
                } else if a < p {
                    assert(order@[b] == old_order[b - 1]);
                } else if a == p {
                    assert(order@[b] == old_order[b - 1]);
                    assert(keys@[old_order[b - 1] as int] > key);
                } else {
                    assert(order@[a] == old_order[a - 1]);
                    assert(order@[b] == old_order[b - 1]);
                }
            }
        }
        i = i + 1;
    }
    order
}

/// Checks the anchor sample indices of an interpolated baseline over a
/// signal of `len` samples: there must be at least one anchor, and each
/// must lie inside the signal.
pub fn validate_anchor_indices(len: usize, keys: &[usize]) -> (res: Result<()>)
    ensures
        keys@.len() == 0 ==> res == Err::<(), BaselineError>(BaselineError::InvalidParameter {
            name: "points",
            reason: "must contain at least one anchor",
        }),
        keys@.len() > 0 && (exists|k: int| 0 <= k < keys@.len() && #[trigger] keys@[k] >= len) ==> res
            == Err::<(), BaselineError>(BaselineError::InvalidParameter {
            name: "points",
            reason: "anchor index is outside the input length",
        }),
        keys@.len() > 0 && (forall|k: int| 0 <= k < keys@.len() ==> #[trigger] keys@[k] < len) ==> res
            == Ok::<(), BaselineError>(()),
{
    if keys.len() == 0 {
        return Err(BaselineError::InvalidParameter { name: "points", reason: "must contain at least one anchor" });
    }
    let mut i: usize = 0;
    while i < keys.len()
        invariant
            i <= keys@.len(),
            forall|k: int| 0 <= k < i ==> #[trigger] keys@[k] < len,
        decreases keys@.len() - i,
    {
        if keys[i] >= len {
            return Err(BaselineError::InvalidParameter {
                name: "points",
                reason: "anchor index is outside the input length",
            });
        }
        i = i + 1;
    }
    Ok(())
}

} // verus!
