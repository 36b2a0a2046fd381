//! Scales: seven notes built on a root from a fixed table of intervals.
use vstd::prelude::*;

use crate::interval::transpose;

verus! {

/// The kind of a scale.
#[derive(Debug, Clone, Copy, PartialEq, Eq, Structural)]
pub enum ScaleType {
    Major,
    Minor,
}

/// Semitone offsets from the root for each kind of scale.
pub open spec fn scale_intervals(scale: ScaleType) -> Seq<int> {
    match scale {
        ScaleType::Major => seq![0, 2, 4, 5, 7, 9, 11],
        ScaleType::Minor => seq![0, 2, 3, 5, 7, 8, 10],
    }
}

/// The MIDI notes of the scale of kind `scale` on `root` (60 is C4).
/// The root is not range-checked here.
pub fn notes_in_scale(root: i32, scale: ScaleType) -> (notes: Vec<i32>)
    requires
        root <= i32::MAX - 11,
    ensures
        notes@.len() == 7,
        forall|k: int| 0 <= k < 7 ==> notes@[k] == root + scale_intervals(scale)[k],
{
    let intervals: Vec<i32> = match scale {
        ScaleType::Major => vec![0, 2, 4, 5, 7, 9, 11],
        ScaleType::Minor => vec![0, 2, 3, 5, 7, 8, 10],
    };
    assert(forall|k: int| 0 <= k < 7 ==> intervals@[k] == scale_intervals(scale)[k]);
    transpose(root, &intervals)
}

} // verus!
