//! Where the candles of a series stand on the chart.
//!
//! The chart is cut into as many slots of equal width as the series has
//! records. The series lists its most recent record first, and the chart
//! shows the most recent record in its rightmost slot.

use vstd::prelude::*;

verus! {

/// The slot, counted from the left edge, of the record at position `i` of a
/// series of `len` records.
pub open spec fn slot_of(len: int, i: int) -> int {
    len - 1 - i
}

/// Computes the slot of the record at position `i` of a series of `len`
/// records. It depends on the two positions alone, never on a price.
pub fn slot_from_left(len: usize, i: usize) -> (slot: usize)
    requires
        i < len,
    ensures
        slot == slot_of(len as int, i as int),
        slot < len,
{
    len - (i + 1)
}

/// The slots of a series are the positions of its records in reverse: every
/// record has a slot on the chart, the first record has the last slot, the
/// last record the first, no two records share a slot, and a record that
/// comes later in the series stands further left.
pub proof fn lemma_slots_reverse_positions(len: int, i: int, j: int)
    requires
        0 <= i < len,
        0 <= j < len,
    ensures
        0 <= slot_of(len, i) < len,
        slot_of(len, 0) == len - 1,
        slot_of(len, len - 1) == 0,
        slot_of(len, slot_of(len, i)) == i,
        i < j <==> slot_of(len, i) > slot_of(len, j),
{
}

} // verus!
