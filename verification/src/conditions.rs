//! Predicates on live character state that gate scheduled tasks.

use vstd::prelude::*;
use crate::response::InventorySlot;

verus! {

/// The total quantity held across a list of inventory slots.
pub open spec fn sum_quantities(s: Seq<InventorySlot>) -> int
    decreases s.len(),
{
    if s.len() == 0 {
        0
    } else {
        sum_quantities(s.drop_last()) + s.last().quantity as int
    }
}

/// True exactly when the inventory is full: the total held quantity has
/// reached the capacity figure. The total is accumulated in a width that
/// cannot overflow, so the verdict is exact for every input.
pub fn full_inventory(max_items: i64, inventory: &Vec<InventorySlot>) -> (full: bool)
    ensures
        full == (sum_quantities(inventory@) >= max_items as int),
{
    let n = inventory.len();
    let mut total: i128 = 0;
    let mut i: usize = 0;
    while i < n
        invariant
            i <= n,
            n == inventory@.len(),
            total == sum_quantities(inventory@.take(i as int)),
            -(i as int) * 0x8000_0000_0000_0000 <= total
                <= (i as int) * 0x7FFF_FFFF_FFFF_FFFF,
        decreases n - i,
    {
        let q = inventory[i].quantity;
        proof {
            assert(inventory@.take(i + 1 as int).drop_last() =~= inventory@.take(i as int));
            assert(inventory@.take(i + 1 as int).last() == inventory@[i as int]);
        }
        total = total + q as i128;
        i = i + 1;
    }
    proof {
        assert(inventory@.take(n as int) =~= inventory@);
    }
    total >= max_items as i128
}

} // verus!
