//! Chord events and the patterns that hold them.
use vstd::prelude::*;

use crate::chord::ChordType;

verus! {

/// Highest MIDI note number.
pub const MIDI_NOTE_MAX: i32 = 127;

/// Lowest MIDI note number.
pub const MIDI_NOTE_MIN: i32 = 0;

/// One chord placed on a pattern's timeline: a root note, a chord kind,
/// a start offset and a duration. Only `PatternEvent::new` builds one, so
/// every event has a root in `MIDI_NOTE_MIN..=MIDI_NOTE_MAX`, a start of at
/// least 0 and a positive duration.
#[derive(Debug, Clone, Copy, PartialEq, Eq, Structural)]
pub struct PatternEvent {
    root: i32,
    chord: ChordType,
    start: i32,
    duration: i32,
}

/// Why a `PatternEvent` could not be built.
#[derive(Debug, Clone, Copy, PartialEq, Eq, Structural)]
pub enum PatternEventError {
    InvalidRoot,
    InvalidStart,
    InvalidDuration,
}

/// The outcome that building an event from these values must have:
/// the first check that fails, in the order root, start, duration.
pub open spec fn event_check(root: int, start: int, duration: int) -> Option<PatternEventError> {
    if root < MIDI_NOTE_MIN || root > MIDI_NOTE_MAX {
        Some(PatternEventError::InvalidRoot)
    } else if start < 0 {
        Some(PatternEventError::InvalidStart)
    } else if duration <= 0 {
        Some(PatternEventError::InvalidDuration)
    } else {
        None
    }
}

impl PatternEvent {
    /// The root note.
    pub closed spec fn spec_root(self) -> int {
        self.root as int
    }

    /// The chord kind.
    pub closed spec fn spec_chord(self) -> ChordType {
        self.chord
    }

    /// The start offset on the timeline.
    pub closed spec fn spec_start(self) -> int {
        self.start as int
    }

    /// The length on the timeline.
    pub closed spec fn spec_duration(self) -> int {
        self.duration as int
    }

    /// The first offset after the event.
    pub open spec fn spec_end(self) -> int {
        self.spec_start() + self.spec_duration()
    }

    #[verifier::type_invariant]
    spec fn valid(self) -> bool {
        event_check(self.root as int, self.start as int, self.duration as int) is None
    }

    /// Builds an event, or reports the first of root, start and duration
    /// that is out of range.
    pub fn new(root: i32, chord: ChordType, start: i32, duration: i32) -> (r: Result<
        Self,
        PatternEventError,
    >)
        ensures
            match r {
                Ok(e) => event_check(root as int, start as int, duration as int) is None
                    && e.spec_root() == root && e.spec_chord() == chord && e.spec_start() == start
                    && e.spec_duration() == duration,
                Err(err) => event_check(root as int, start as int, duration as int) == Some(err),
            },
    {
        if root > MIDI_NOTE_MAX || root < MIDI_NOTE_MIN {
            return Err(PatternEventError::InvalidRoot);
        }
        if start < 0 {
            return Err(PatternEventError::InvalidStart);
        }
        if duration <= 0 {
            return Err(PatternEventError::InvalidDuration);
        }
        Ok(PatternEvent { root, chord, start, duration })
    }

    /// The root note, a MIDI note number.
    pub fn root(&self) -> (r: i32)
        ensures
            r == self.spec_root(),
            MIDI_NOTE_MIN <= r <= MIDI_NOTE_MAX,
    {
        proof {
            use_type_invariant(self);
        }
        self.root
    }

    /// The chord kind.
    pub fn chord(&self) -> (r: ChordType)
        ensures
            r == self.spec_chord(),
    {
        self.chord
    }

    /// The start offset, never negative.
    pub fn start(&self) -> (r: i32)
        ensures
            r == self.spec_start(),
            r >= 0,
    {
        proof {
            use_type_invariant(self);
        }
        self.start
    }

    /// The duration, always positive.
    pub fn duration(&self) -> (r: i32)
        ensures
            r == self.spec_duration(),
            r > 0,
    {
        proof {
            use_type_invariant(self);
        }
        self.duration
    }
}

/// Whether the half-open spans `[start, end)` of two events intersect.
/// Events that only touch, one ending where the other starts, do not.
pub open spec fn overlapping(a: PatternEvent, b: PatternEvent) -> bool {
    a.spec_start() < b.spec_end() && b.spec_start() < a.spec_end()
}

/// A timeline of length `size` holding `events`: each event ends within the
/// timeline and no two of them overlap.
pub open spec fn timeline_ok(size: int, events: Seq<PatternEvent>) -> bool {
    &&& forall|i: int| 0 <= i < events.len() ==> (#[trigger] events[i]).spec_end() <= size
    &&& forall|i: int, j: int|
        0 <= i < j < events.len() ==> !overlapping(#[trigger] events[i], #[trigger] events[j])
}

/// Whether some event of `events` overlaps `e`.
pub open spec fn clashes(events: Seq<PatternEvent>, e: PatternEvent) -> bool {
    exists|i: int| 0 <= i < events.len() && overlapping(#[trigger] events[i], e)
}

fn events_overlap(a: &PatternEvent, b: &PatternEvent) -> (r: bool)
    ensures
        r == overlapping(*a, *b),
{
    let a_end: i64 = a.start as i64 + a.duration as i64;
    let b_end: i64 = b.start as i64 + b.duration as i64;
    (a.start as i64) < b_end && (b.start as i64) < a_end
}

/// A timeline of fixed, positive length holding non-overlapping events in
/// the order they were added.
#[derive(Debug, PartialEq)]
pub struct Pattern {
    size: u8,
    sequence: Vec<PatternEvent>,
}

/// Why a `Pattern` could not be built or could not take an event.
#[derive(Debug, Clone, Copy, PartialEq, Eq, Structural)]
pub enum PatternError {
    InvalidSize,
    InvalidEventSize,
    InvalidEventOverlap,
}

impl Clone for Pattern {
    fn clone(&self) -> (r: Self)
        ensures
            r.spec_size() == self.spec_size(),
            r.events() == self.events(),
    {
        proof {
            use_type_invariant(self);
        }
        Pattern { size: self.size, sequence: self.sequence.clone() }
    }
}

impl Pattern {
    /// The length of the timeline.
    pub closed spec fn spec_size(self) -> int {
        self.size as int
    }

    /// The events, in the order they were added.
    pub closed spec fn events(self) -> Seq<PatternEvent> {
        self.sequence@
    }

    #[verifier::type_invariant]
    spec fn well_formed(self) -> bool {
        self.size >= 1 && timeline_ok(self.size as int, self.sequence@)
    }

    /// An empty pattern of length `size`; a length of 0 is refused.
    pub fn new(size: u8) -> (r: Result<Self, PatternError>)
        ensures
            match r {
                Ok(p) => size != 0 && p.spec_size() == size && p.events() == Seq::<
                    PatternEvent,
                >::empty(),
                Err(err) => size == 0 && err == PatternError::InvalidSize,
            },
    {
        if size == 0 {
            return Err(PatternError::InvalidSize);
        }
        Ok(Pattern { size, sequence: Vec::new() })
    }

    /// Appends `event` if it ends within the timeline and overlaps none of
    /// the events already there; otherwise reports why and leaves the
    /// pattern as it was.
    pub fn add_event(&mut self, event: PatternEvent) -> (r: Result<(), PatternError>)
        ensures
            final(self).spec_size() == old(self).spec_size(),
            event.spec_end() > old(self).spec_size() ==> r == Err::<(), PatternError>(
                PatternError::InvalidEventSize,
            ),
            event.spec_end() <= old(self).spec_size() && clashes(old(self).events(), event)
                ==> r == Err::<(), PatternError>(PatternError::InvalidEventOverlap),
            event.spec_end() <= old(self).spec_size() && !clashes(old(self).events(), event)
                ==> r == Ok::<(), PatternError>(()),
            r is Ok ==> final(self).events() == old(self).events().push(event),
            r is Err ==> final(self).events() == old(self).events(),
    {
        proof {
            use_type_invariant(&*self);
            use_type_invariant(&event);
        }
        let end: i64 = event.start as i64 + event.duration as i64;
        if end > self.size as i64 {
            return Err(PatternError::InvalidEventSize);
        }
        let mut i: usize = 0;
        while i < self.sequence.len()
            invariant
                i <= self.sequence@.len(),
                *self == *old(self),
                event.spec_end() <= self.spec_size(),
                forall|k: int| 0 <= k < i ==> !overlapping(#[trigger] self.sequence@[k], event),
            decreases self.sequence@.len() - i,
        {
            if events_overlap(&self.sequence[i], &event) {
                return Err(PatternError::InvalidEventOverlap);
            }
            i += 1;
        }
        let mut events: Vec<PatternEvent> = Vec::new();
        std::mem::swap(&mut events, &mut self.sequence);
        events.push(event);
        self.sequence = events;
        Ok(())
    }

    /// The events, in the order they were added. Each ends within the
    /// timeline and no two overlap.
    pub fn sequence(&self) -> (r: &Vec<PatternEvent>)
        ensures
            r@ == self.events(),
            self.spec_size() >= 1,
            timeline_ok(self.spec_size(), r@),
    {
        proof {
            use_type_invariant(self);
        }
        &self.sequence
    }
}

} // verus!
