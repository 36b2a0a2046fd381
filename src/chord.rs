//! Chords: three notes built on a root from a fixed table of intervals.
use vstd::prelude::*;

use crate::interval::transpose;

verus! {

/// The kind of a chord.
#[derive(Debug, Clone, Copy, PartialEq, Eq, Structural)]
pub enum ChordType {
    Major,
    Minor,
}

/// Semitone offsets from the root for each kind of chord.
pub open spec fn chord_intervals(chord: ChordType) -> Seq<int> {
    match chord {
        ChordType::Major => seq![0, 4, 7],
        ChordType::Minor => seq![0, 3, 7],
    }
}

/// The MIDI notes of the chord of kind `chord` on `root` (60 is C4).
/// The root is not range-checked here.
pub fn notes_in_chord(root: i32, chord: ChordType) -> (notes: Vec<i32>)
    requires
        root <= i32::MAX - 7,
    ensures
        notes@.len() == 3,
        forall|k: int| 0 <= k < 3 ==> notes@[k] == root + chord_intervals(chord)[k],
{
    let intervals: Vec<i32> = match chord {
        ChordType::Major => vec![0, 4, 7],
        ChordType::Minor => vec![0, 3, 7],
    };
    assert(forall|k: int| 0 <= k < 3 ==> intervals@[k] == chord_intervals(chord)[k]);
    transpose(root, &intervals)
}

} // verus!
