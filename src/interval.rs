//! Turning a list of semitone offsets into absolute MIDI note numbers.
use vstd::prelude::*;

verus! {

/// Adds `root` to each offset of `intervals`, keeping their order.
pub fn transpose(root: i32, intervals: &Vec<i32>) -> (notes: Vec<i32>)
    requires
        forall|k: int|
            0 <= k < intervals@.len() ==> i32::MIN <= root + #[trigger] intervals@[k] <= i32::MAX,
    ensures
        notes@.len() == intervals@.len(),
        forall|k: int| 0 <= k < notes@.len() ==> notes@[k] == root + intervals@[k],
{
    let mut notes: Vec<i32> = Vec::new();
    let mut i: usize = 0;
    while i < intervals.len()
        invariant
            i <= intervals@.len(),
            notes@.len() == i,
            forall|k: int|
                0 <= k < intervals@.len() ==> i32::MIN <= root + #[trigger] intervals@[k] <= i32::MAX,
            forall|k: int| 0 <= k < i ==> notes@[k] == root + intervals@[k],
        decreases intervals@.len() - i,
    {
        notes.push(root + intervals[i]);
        i += 1;
    }
    notes
}

} // verus!
