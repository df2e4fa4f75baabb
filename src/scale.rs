//! Scales: a root note and a mode, and the pitch classes they reach.
use crate::theory::{
    interval_semis, note_semis, pitch_class, sharp_spelling, Interval, Note, Pitch,
};
use vstd::prelude::*;

verus! {

/// The mode of a scale.
#[derive(Clone, Copy, Debug, Hash, PartialEq, Eq, Structural)]
pub enum ScaleType {
    Ionian,
    Dorian,
    Phrygian,
    Lydian,
    Mixolydian,
    Aeolian,
    Locrian,
    MelodicMinor,
    HarmonicMinor,
    WholeTone,
    Pentatonic,
    PhrygianDominant,
    HungarianMinor,
}

/// The seven steps that lead from a mode's root back to its octave.
pub open spec fn scale_steps(t: ScaleType) -> Seq<Interval> {
    match t {
        ScaleType::Ionian => seq![Interval::MajorSecond, Interval::MajorSecond, Interval::MinorSecond, Interval::MajorSecond, Interval::MajorSecond, Interval::MajorSecond, Interval::MinorSecond],
        ScaleType::Dorian => seq![Interval::MajorSecond, Interval::MinorSecond, Interval::MajorSecond, Interval::MajorSecond, Interval::MajorSecond, Interval::MinorSecond, Interval::MajorSecond],
        ScaleType::Phrygian => seq![Interval::MinorSecond, Interval::MajorSecond, Interval::MajorSecond, Interval::MajorSecond, Interval::MinorSecond, Interval::MajorSecond, Interval::MajorSecond],
        ScaleType::Lydian => seq![Interval::MajorSecond, Interval::MajorSecond, Interval::MajorSecond, Interval::MinorSecond, Interval::MajorSecond, Interval::MajorSecond, Interval::MinorSecond],
        ScaleType::Mixolydian => seq![Interval::MajorSecond, Interval::MajorSecond, Interval::MinorSecond, Interval::MajorSecond, Interval::MajorSecond, Interval::MinorSecond, Interval::MajorSecond],
        ScaleType::Aeolian => seq![Interval::MajorSecond, Interval::MinorSecond, Interval::MajorSecond, Interval::MajorSecond, Interval::MinorSecond, Interval::MajorSecond, Interval::MajorSecond],
        ScaleType::Locrian => seq![Interval::MinorSecond, Interval::MajorSecond, Interval::MajorSecond, Interval::MinorSecond, Interval::MajorSecond, Interval::MajorSecond, Interval::MajorSecond],
        ScaleType::MelodicMinor => seq![Interval::MajorSecond, Interval::MinorSecond, Interval::MajorSecond, Interval::MajorSecond, Interval::MajorSecond, Interval::MajorSecond, Interval::MinorSecond],
        ScaleType::HarmonicMinor => seq![Interval::MajorSecond, Interval::MinorSecond, Interval::MajorSecond, Interval::MajorSecond, Interval::MinorSecond, Interval::MinorThird, Interval::MinorSecond],
        ScaleType::WholeTone => seq![Interval::MajorSecond, Interval::MinorSecond, Interval::MajorSecond, Interval::MajorSecond, Interval::MajorSecond, Interval::MajorSecond, Interval::MinorSecond],
        ScaleType::Pentatonic => seq![Interval::MajorSecond, Interval::MinorSecond, Interval::MajorSecond, Interval::MajorSecond, Interval::MajorSecond, Interval::MajorSecond, Interval::MinorSecond],
        ScaleType::PhrygianDominant => seq![Interval::MinorSecond, Interval::MinorThird, Interval::MinorSecond, Interval::MajorSecond, Interval::MinorSecond, Interval::MajorSecond, Interval::MajorSecond],
        ScaleType::HungarianMinor => seq![Interval::MajorSecond, Interval::MinorSecond, Interval::MinorThird, Interval::MinorSecond, Interval::MinorSecond, Interval::MinorThird, Interval::MinorSecond],
    }
}

impl ScaleType {
    /// The steps of this mode, from the root upwards.
    pub fn steps(&self) -> (r: Vec<Interval>)
        ensures
            r@ == scale_steps(*self),
    {
        let r = match *self {
            ScaleType::Ionian => vec![Interval::MajorSecond, Interval::MajorSecond, Interval::MinorSecond, Interval::MajorSecond, Interval::MajorSecond, Interval::MajorSecond, Interval::MinorSecond],
            ScaleType::Dorian => vec![Interval::MajorSecond, Interval::MinorSecond, Interval::MajorSecond, Interval::MajorSecond, Interval::MajorSecond, Interval::MinorSecond, Interval::MajorSecond],
            ScaleType::Phrygian => vec![Interval::MinorSecond, Interval::MajorSecond, Interval::MajorSecond, Interval::MajorSecond, Interval::MinorSecond, Interval::MajorSecond, Interval::MajorSecond],
            ScaleType::Lydian => vec![Interval::MajorSecond, Interval::MajorSecond, Interval::MajorSecond, Interval::MinorSecond, Interval::MajorSecond, Interval::MajorSecond, Interval::MinorSecond],
            ScaleType::Mixolydian => vec![Interval::MajorSecond, Interval::MajorSecond, Interval::MinorSecond, Interval::MajorSecond, Interval::MajorSecond, Interval::MinorSecond, Interval::MajorSecond],
            ScaleType::Aeolian => vec![Interval::MajorSecond, Interval::MinorSecond, Interval::MajorSecond, Interval::MajorSecond, Interval::MinorSecond, Interval::MajorSecond, Interval::MajorSecond],
            ScaleType::Locrian => vec![Interval::MinorSecond, Interval::MajorSecond, Interval::MajorSecond, Interval::MinorSecond, Interval::MajorSecond, Interval::MajorSecond, Interval::MajorSecond],
            ScaleType::MelodicMinor => vec![Interval::MajorSecond, Interval::MinorSecond, Interval::MajorSecond, Interval::MajorSecond, Interval::MajorSecond, Interval::MajorSecond, Interval::MinorSecond],
            ScaleType::HarmonicMinor => vec![Interval::MajorSecond, Interval::MinorSecond, Interval::MajorSecond, Interval::MajorSecond, Interval::MinorSecond, Interval::MinorThird, Interval::MinorSecond],
            ScaleType::WholeTone => vec![Interval::MajorSecond, Interval::MinorSecond, Interval::MajorSecond, Interval::MajorSecond, Interval::MajorSecond, Interval::MajorSecond, Interval::MinorSecond],
            ScaleType::Pentatonic => vec![Interval::MajorSecond, Interval::MinorSecond, Interval::MajorSecond, Interval::MajorSecond, Interval::MajorSecond, Interval::MajorSecond, Interval::MinorSecond],
            ScaleType::PhrygianDominant => vec![Interval::MinorSecond, Interval::MinorThird, Interval::MinorSecond, Interval::MajorSecond, Interval::MinorSecond, Interval::MajorSecond, Interval::MajorSecond],
            ScaleType::HungarianMinor => vec![Interval::MajorSecond, Interval::MinorSecond, Interval::MinorThird, Interval::MinorSecond, Interval::MinorSecond, Interval::MinorThird, Interval::MinorSecond],
        };
        assert(r@ =~= scale_steps(*self));
        r
    }
}

/// A root note and a mode.
#[derive(Clone, Copy, Debug)]
pub struct Scale(pub Note, pub ScaleType);

/// Semitones above C of the `k`-th note of a scale: the root as written, then
/// each step added modulo the octave.
pub open spec fn scale_degree(s: Scale, k: nat) -> int
    decreases k,
{
    if k == 0 {
        note_semis(s.0)
    } else {
        (scale_degree(s, (k - 1) as nat) + interval_semis(scale_steps(s.1)[k - 1])) % 12
    }
}

/// Whether a pitch class (in `0..12`) belongs to a scale, in any octave.
pub open spec fn scale_has_class(s: Scale, pc: int) -> bool {
    exists|k: int| 0 <= k < 8 && #[trigger] scale_degree(s, k as nat) % 12 == pc
}

/// Whether a pitch's class belongs to a scale.
pub open spec fn in_scale(s: Scale, p: Pitch) -> bool {
    scale_has_class(s, pitch_class(p))
}

impl Scale {
    /// The notes of the scale from its root up to the root an octave higher;
    /// all but the first are spelled with sharps.
    pub fn notes(&self) -> (r: Vec<Note>)
        ensures
            r@.len() == 8,
            r@[0] == self.0,
            forall|k: int| 1 <= k < 8 ==> #[trigger] r@[k] == sharp_spelling(scale_degree(*self, k as nat)),
            forall|k: int| 0 <= k < 8 ==> note_semis(#[trigger] r@[k]) == scale_degree(*self, k as nat),
    {
        let intervals = self.1.steps();
        let mut result: Vec<Note> = Vec::with_capacity(intervals.len() + 1);
        result.push(self.0);
        let mut last_note = self.0;
        let mut i: usize = 0;
        while i < intervals.len()
            invariant
                intervals@ == scale_steps(self.1),
                i <= intervals.len() == 7,
                result@.len() == i + 1,
                result@[0] == self.0,
                last_note == result@[i as int],
                forall|k: int| 1 <= k <= i ==> #[trigger] result@[k] == sharp_spelling(scale_degree(*self, k as nat)),
                forall|k: int| 0 <= k <= i ==> note_semis(#[trigger] result@[k]) == scale_degree(*self, k as nat),
            decreases intervals.len() - i,
        {
            let new_note = last_note + intervals[i];
            result.push(new_note);
            last_note = new_note;
            i += 1;
        }
        result
    }
}

} // verus!
