//! Pitches, intervals and scales: the arithmetic the counterpoint search is built on.
use vstd::prelude::*;

verus! {

/// The letter name of a note.
#[derive(Clone, Copy, Debug, PartialEq, Eq, Structural)]
pub enum PitchBase {
    C,
    D,
    E,
    F,
    G,
    A,
    B,
}

/// The accidental applied to a letter name.
#[derive(Clone, Copy, Debug, PartialEq, Eq, Structural)]
pub enum PitchModifier {
    DoubleFlat,
    Flat,
    Natural,
    Sharp,
    DoubleSharp,
}

/// A spelled note without an octave, such as E♭.
#[derive(Clone, Copy, Debug)]
pub struct Note(pub PitchBase, pub PitchModifier);

/// A note in a given octave; octave 4 holds middle C. For example, A♭3 is
/// `Pitch(Note(PitchBase::A, PitchModifier::Flat), 3)`.
#[derive(Clone, Copy, Debug)]
pub struct Pitch(pub Note, pub i8);

/// The distance between two pitch classes, in semitones modulo the octave.
#[derive(Clone, Copy, Debug, PartialEq, Eq, Structural, PartialOrd, Ord)]
pub enum Interval {
    Unison,
    MinorSecond,
    MajorSecond,
    MinorThird,
    MajorThird,
    PerfectFourth,
    Tritone,
    PerfectFifth,
    MinorSixth,
    MajorSixth,
    MinorSeventh,
    MajorSeventh,
}

/// Semitones of a letter name above C.
pub open spec fn base_semis(b: PitchBase) -> int {
    match b {
        PitchBase::C => 0,
        PitchBase::D => 2,
        PitchBase::E => 4,
        PitchBase::F => 5,
        PitchBase::G => 7,
        PitchBase::A => 9,
        PitchBase::B => 11,
    }
}

/// Semitones by which an accidental raises a note.
pub open spec fn modifier_semis(m: PitchModifier) -> int {
    match m {
        PitchModifier::DoubleFlat => -2,
        PitchModifier::Flat => -1,
        PitchModifier::Natural => 0,
        PitchModifier::Sharp => 1,
        PitchModifier::DoubleSharp => 2,
    }
}

/// Semitones of a note above the C of its octave (B♯ gives 12, C♭ gives -1).
pub open spec fn note_semis(n: Note) -> int {
    base_semis(n.0) + modifier_semis(n.1)
}

/// Semitones of a pitch above middle C (negative below it).
pub open spec fn pitch_semis(p: Pitch) -> int {
    note_semis(p.0) + (p.1 - 4) * 12
}

/// The pitch class of a pitch, in `0..12`.
pub open spec fn pitch_class(p: Pitch) -> int {
    pitch_semis(p) % 12
}

/// Whether a pitch's distance from middle C fits an `i8`.
pub open spec fn pitch_fits(p: Pitch) -> bool {
    i8::MIN <= pitch_semis(p) <= i8::MAX
}

/// The note of a pitch class in `0..12`, spelled with sharps.
pub open spec fn sharp_spelling(k: int) -> Note {
    if k == 0 {
        Note(PitchBase::C, PitchModifier::Natural)
    } else if k == 1 {
        Note(PitchBase::C, PitchModifier::Sharp)
    } else if k == 2 {
        Note(PitchBase::D, PitchModifier::Natural)
    } else if k == 3 {
        Note(PitchBase::D, PitchModifier::Sharp)
    } else if k == 4 {
        Note(PitchBase::E, PitchModifier::Natural)
    } else if k == 5 {
        Note(PitchBase::F, PitchModifier::Natural)
    } else if k == 6 {
        Note(PitchBase::F, PitchModifier::Sharp)
    } else if k == 7 {
        Note(PitchBase::G, PitchModifier::Natural)
    } else if k == 8 {
        Note(PitchBase::G, PitchModifier::Sharp)
    } else if k == 9 {
        Note(PitchBase::A, PitchModifier::Natural)
    } else if k == 10 {
        Note(PitchBase::A, PitchModifier::Sharp)
    } else {
        Note(PitchBase::B, PitchModifier::Natural)
    }
}

/// The pitch `s` semitones above middle C, spelled with sharps.
pub open spec fn pitch_at(s: int) -> Pitch {
    Pitch(sharp_spelling(s % 12), (4 + s / 12) as i8)
}

/// Semitones spanned by an interval.
pub open spec fn interval_semis(i: Interval) -> int {
    match i {
        Interval::Unison => 0,
        Interval::MinorSecond => 1,
        Interval::MajorSecond => 2,
        Interval::MinorThird => 3,
        Interval::MajorThird => 4,
        Interval::PerfectFourth => 5,
        Interval::Tritone => 6,
        Interval::PerfectFifth => 7,
        Interval::MinorSixth => 8,
        Interval::MajorSixth => 9,
        Interval::MinorSeventh => 10,
        Interval::MajorSeventh => 11,
    }
}

/// The interval of `k` semitones, taken modulo the octave.
pub open spec fn interval_of(k: int) -> Interval {
    let m = k % 12;
    if m == 0 {
        Interval::Unison
    } else if m == 1 {
        Interval::MinorSecond
    } else if m == 2 {
        Interval::MajorSecond
    } else if m == 3 {
        Interval::MinorThird
    } else if m == 4 {
        Interval::MajorThird
    } else if m == 5 {
        Interval::PerfectFourth
    } else if m == 6 {
        Interval::Tritone
    } else if m == 7 {
        Interval::PerfectFifth
    } else if m == 8 {
        Interval::MinorSixth
    } else if m == 9 {
        Interval::MajorSixth
    } else if m == 10 {
        Interval::MinorSeventh
    } else {
        Interval::MajorSeventh
    }
}

/// The absolute value of an integer.
pub open spec fn abs(x: int) -> int {
    if x < 0 {
        -x
    } else {
        x
    }
}

/// The interval between two pitches: their distance in semitones, whichever
/// is lower, reduced modulo the octave.
pub open spec fn interval_between(a: Pitch, b: Pitch) -> Interval {
    interval_of(abs(pitch_semis(a) - pitch_semis(b)))
}

impl Note {
    pub fn semitones_from_c(&self) -> (r: i8)
        ensures
            r == note_semis(*self),
            -2 <= r <= 13,
    {
        let base: i8 = match self.0 {
            PitchBase::C => 0,
            PitchBase::D => 2,
            PitchBase::E => 4,
            PitchBase::F => 5,
            PitchBase::G => 7,
            PitchBase::A => 9,
            PitchBase::B => 11,
        };
        let modifier: i8 = match self.1 {
            PitchModifier::DoubleFlat => -2,
            PitchModifier::Flat => -1,
            PitchModifier::Natural => 0,
            PitchModifier::Sharp => 1,
            PitchModifier::DoubleSharp => 2,
        };
        base + modifier
    }

    /// Gets a note from the semitones above C, taken modulo the octave. The
    /// notes are spelled using sharps.
    pub fn from_semitones_from_c(semitones: i8) -> (r: Note)
        ensures
            r == sharp_spelling(semitones as int % 12),
            note_semis(r) == semitones as int % 12,
    {
        let k: i8 = semitones % 12;
        let k: i8 = if k < 0 {
            k + 12
        } else {
            k
        };
        assert(k as int == semitones as int % 12);
        if k == 0 {
            Note(PitchBase::C, PitchModifier::Natural)
        } else if k == 1 {
            Note(PitchBase::C, PitchModifier::Sharp)
        } else if k == 2 {
            Note(PitchBase::D, PitchModifier::Natural)
        } else if k == 3 {
            Note(PitchBase::D, PitchModifier::Sharp)
        } else if k == 4 {
            Note(PitchBase::E, PitchModifier::Natural)
        } else if k == 5 {
            Note(PitchBase::F, PitchModifier::Natural)
        } else if k == 6 {
            Note(PitchBase::F, PitchModifier::Sharp)
        } else if k == 7 {
            Note(PitchBase::G, PitchModifier::Natural)
        } else if k == 8 {
            Note(PitchBase::G, PitchModifier::Sharp)
        } else if k == 9 {
            Note(PitchBase::A, PitchModifier::Natural)
        } else if k == 10 {
            Note(PitchBase::A, PitchModifier::Sharp)
        } else {
            Note(PitchBase::B, PitchModifier::Natural)
        }
    }
}

impl PartialEq for Note {
    /// Notes are equal when they name the same pitch class, however they are
    /// spelled (B♯ equals C, C♭ equals B).
    fn eq(&self, other: &Note) -> (r: bool)
        ensures
            r == (note_semis(*self) % 12 == note_semis(*other) % 12),
    {
        let a: i8 = (self.semitones_from_c() + 12) % 12;
        let b: i8 = (other.semitones_from_c() + 12) % 12;
        a == b
    }
}

impl vstd::std_specs::cmp::PartialEqSpecImpl for Note {
    open spec fn obeys_eq_spec() -> bool {
        true
    }

    open spec fn eq_spec(&self, other: &Note) -> bool {
        note_semis(*self) % 12 == note_semis(*other) % 12
    }
}

impl Eq for Note {
}

impl Pitch {
    pub fn semitones_from_middle_c(&self) -> (r: i8)
        requires
            pitch_fits(*self),
        ensures
            r == pitch_semis(*self),
    {
        self.semitones_wide() as i8
    }

    /// Semitones above middle C, for any octave.
    pub(crate) fn semitones_wide(&self) -> (r: i16)
        ensures
            r == pitch_semis(*self),
    {
        let octave_difference: i16 = (self.1 as i16 - 4) * 12;
        self.0.semitones_from_c() as i16 + octave_difference
    }

    /// The pitch `semitones` above middle C, spelled with sharps.
    pub fn from_semitones_from_middle_c(semitones: i8) -> (r: Pitch)
        ensures
            r == pitch_at(semitones as int),
            pitch_semis(r) == semitones,
    {
        let note = Note::from_semitones_from_c(semitones);
        let k: i16 = note.semitones_from_c() as i16;
        let octave_difference: i16 = (semitones as i16 - k) / 12;
        assert(octave_difference == semitones as int / 12);
        Pitch(note, (4 + octave_difference) as i8)
    }
}

impl PartialEq for Pitch {
    /// Pitches are equal when they sound the same, however they are spelled.
    fn eq(&self, other: &Pitch) -> (r: bool)
        ensures
            r == (pitch_semis(*self) == pitch_semis(*other)),
    {
        self.semitones_wide() == other.semitones_wide()
    }
}

impl vstd::std_specs::cmp::PartialEqSpecImpl for Pitch {
    open spec fn obeys_eq_spec() -> bool {
        true
    }

    open spec fn eq_spec(&self, other: &Pitch) -> bool {
        pitch_semis(*self) == pitch_semis(*other)
    }
}

impl Eq for Pitch {
}

impl Interval {
    /// The interval of `semitones`, taken modulo the octave.
    pub fn from_semitones(semitones: u8) -> (r: Interval)
        ensures
            r == interval_of(semitones as int),
            interval_semis(r) == semitones as int % 12,
    {
        let k: u8 = semitones % 12;
        if k == 0 {
            Interval::Unison
        } else if k == 1 {
            Interval::MinorSecond
        } else if k == 2 {
            Interval::MajorSecond
        } else if k == 3 {
            Interval::MinorThird
        } else if k == 4 {
            Interval::MajorThird
        } else if k == 5 {
            Interval::PerfectFourth
        } else if k == 6 {
            Interval::Tritone
        } else if k == 7 {
            Interval::PerfectFifth
        } else if k == 8 {
            Interval::MinorSixth
        } else if k == 9 {
            Interval::MajorSixth
        } else if k == 10 {
            Interval::MinorSeventh
        } else {
            Interval::MajorSeventh
        }
    }

    pub fn semitones(&self) -> (r: u8)
        ensures
            r == interval_semis(*self),
            r < 12,
    {
        match *self {
            Interval::Unison => 0,
            Interval::MinorSecond => 1,
            Interval::MajorSecond => 2,
            Interval::MinorThird => 3,
            Interval::MajorThird => 4,
            Interval::PerfectFourth => 5,
            Interval::Tritone => 6,
            Interval::PerfectFifth => 7,
            Interval::MinorSixth => 8,
            Interval::MajorSixth => 9,
            Interval::MinorSeventh => 10,
            Interval::MajorSeventh => 11,
        }
    }

    /// The interval that completes this one to an octave.
    pub fn inverse(&self) -> (r: Interval)
        ensures
            r == interval_of(12 - interval_semis(*self)),
            interval_semis(r) == (12 - interval_semis(*self)) % 12,
    {
        let semitones = self.semitones();
        Self::from_semitones(12 - semitones)
    }
}

impl vstd::std_specs::ops::AddSpecImpl<i8> for Pitch {
    open spec fn obeys_add_spec() -> bool {
        true
    }

    open spec fn add_req(self, k: i8) -> bool {
        i8::MIN <= pitch_semis(self) + k <= i8::MAX
    }

    open spec fn add_spec(self, k: i8) -> Pitch {
        pitch_at(pitch_semis(self) + k)
    }
}

impl core::ops::Add<i8> for Pitch {
    type Output = Pitch;

    /// The pitch `k` semitones higher.
    fn add(self, k: i8) -> (r: Pitch)
        ensures
            r == pitch_at(pitch_semis(self) + k),
    {
        Pitch::from_semitones_from_middle_c((self.semitones_wide() + k as i16) as i8)
    }
}

impl vstd::std_specs::ops::SubSpecImpl<i8> for Pitch {
    open spec fn obeys_sub_spec() -> bool {
        true
    }

    open spec fn sub_req(self, k: i8) -> bool {
        i8::MIN <= pitch_semis(self) - k <= i8::MAX
    }

    open spec fn sub_spec(self, k: i8) -> Pitch {
        pitch_at(pitch_semis(self) - k)
    }
}

impl core::ops::Sub<i8> for Pitch {
    type Output = Pitch;

    /// The pitch `k` semitones lower.
    fn sub(self, k: i8) -> (r: Pitch)
        ensures
            r == pitch_at(pitch_semis(self) - k),
    {
        Pitch::from_semitones_from_middle_c((self.semitones_wide() - k as i16) as i8)
    }
}

impl vstd::std_specs::ops::AddSpecImpl<Interval> for Pitch {
    open spec fn obeys_add_spec() -> bool {
        true
    }

    open spec fn add_req(self, i: Interval) -> bool {
        i8::MIN <= pitch_semis(self) + interval_semis(i) <= i8::MAX
    }

    open spec fn add_spec(self, i: Interval) -> Pitch {
        pitch_at(pitch_semis(self) + interval_semis(i))
    }
}

impl core::ops::Add<Interval> for Pitch {
    type Output = Pitch;

    /// The pitch an interval higher.
    fn add(self, i: Interval) -> (r: Pitch)
        ensures
            r == pitch_at(pitch_semis(self) + interval_semis(i)),
    {
        Pitch::from_semitones_from_middle_c((self.semitones_wide() + i.semitones() as i16) as i8)
    }
}

impl vstd::std_specs::ops::SubSpecImpl<Interval> for Pitch {
    open spec fn obeys_sub_spec() -> bool {
        true
    }

    open spec fn sub_req(self, i: Interval) -> bool {
        i8::MIN <= pitch_semis(self) - interval_semis(i) <= i8::MAX
    }

    open spec fn sub_spec(self, i: Interval) -> Pitch {
        pitch_at(pitch_semis(self) - interval_semis(i))
    }
}

impl core::ops::Sub<Interval> for Pitch {
    type Output = Pitch;

    /// The pitch an interval lower.
    fn sub(self, i: Interval) -> (r: Pitch)
        ensures
            r == pitch_at(pitch_semis(self) - interval_semis(i)),
    {
        Pitch::from_semitones_from_middle_c((self.semitones_wide() - i.semitones() as i16) as i8)
    }
}

impl vstd::std_specs::ops::SubSpecImpl<Pitch> for Pitch {
    open spec fn obeys_sub_spec() -> bool {
        true
    }

    open spec fn sub_req(self, other: Pitch) -> bool {
        true
    }

    open spec fn sub_spec(self, other: Pitch) -> Interval {
        interval_between(self, other)
    }
}

impl core::ops::Sub<Pitch> for Pitch {
    type Output = Interval;

    /// The interval between two pitches, whichever of them is lower.
    fn sub(self, other: Pitch) -> (r: Interval)
        ensures
            r == interval_between(self, other),
    {
        let a = self.semitones_wide();
        let b = other.semitones_wide();
        let (bottom, top) = if a < b {
            (a, b)
        } else {
            (b, a)
        };
        Interval::from_semitones(((top - bottom) % 12) as u8)
    }
}

impl vstd::std_specs::ops::AddSpecImpl<Interval> for Interval {
    open spec fn obeys_add_spec() -> bool {
        true
    }

    open spec fn add_req(self, other: Interval) -> bool {
        true
    }

    open spec fn add_spec(self, other: Interval) -> Interval {
        interval_of(interval_semis(self) + interval_semis(other))
    }
}

impl core::ops::Add<Interval> for Interval {
    type Output = Interval;

    /// The sum of two intervals, reduced modulo the octave.
    fn add(self, other: Interval) -> (r: Interval)
        ensures
            r == interval_of(interval_semis(self) + interval_semis(other)),
    {
        let semitones = self.semitones() + other.semitones();
        Interval::from_semitones(semitones)
    }
}

impl vstd::std_specs::ops::AddSpecImpl<Interval> for Note {
    open spec fn obeys_add_spec() -> bool {
        true
    }

    open spec fn add_req(self, i: Interval) -> bool {
        true
    }

    open spec fn add_spec(self, i: Interval) -> Note {
        sharp_spelling((note_semis(self) + interval_semis(i)) % 12)
    }
}

impl core::ops::Add<Interval> for Note {
    type Output = Note;

    /// The note an interval higher, spelled with sharps.
    fn add(self, i: Interval) -> (r: Note)
        ensures
            r == sharp_spelling((note_semis(self) + interval_semis(i)) % 12),
    {
        Note::from_semitones_from_c(self.semitones_from_c() + i.semitones() as i8)
    }
}

impl vstd::std_specs::ops::SubSpecImpl<Interval> for Note {
    open spec fn obeys_sub_spec() -> bool {
        true
    }

    open spec fn sub_req(self, i: Interval) -> bool {
        true
    }

    open spec fn sub_spec(self, i: Interval) -> Note {
        sharp_spelling((note_semis(self) - interval_semis(i)) % 12)
    }
}

impl core::ops::Sub<Interval> for Note {
    type Output = Note;

    /// The note an interval lower, spelled with sharps.
    fn sub(self, i: Interval) -> (r: Note)
        ensures
            r == sharp_spelling((note_semis(self) - interval_semis(i)) % 12),
    {
        Note::from_semitones_from_c(self.semitones_from_c() - i.semitones() as i8)
    }
}

/// How two pitches compare by their distance from middle C.
pub open spec fn pitch_order(a: Pitch, b: Pitch) -> core::cmp::Ordering {
    if pitch_semis(a) < pitch_semis(b) {
        core::cmp::Ordering::Less
    } else if pitch_semis(a) > pitch_semis(b) {
        core::cmp::Ordering::Greater
    } else {
        core::cmp::Ordering::Equal
    }
}

impl PartialOrd for Pitch {
    /// Pitches are ordered by how high they sound, however they are spelled.
    fn partial_cmp(&self, other: &Pitch) -> (r: Option<core::cmp::Ordering>)
        ensures
            r == Some(pitch_order(*self, *other)),
    {
        let a = self.semitones_wide();
        let b = other.semitones_wide();
        if a < b {
            Some(core::cmp::Ordering::Less)
        } else if a > b {
            Some(core::cmp::Ordering::Greater)
        } else {
            Some(core::cmp::Ordering::Equal)
        }
    }
}

impl vstd::std_specs::cmp::PartialOrdSpecImpl for Pitch {
    open spec fn obeys_partial_cmp_spec() -> bool {
        true
    }

    open spec fn partial_cmp_spec(&self, other: &Pitch) -> Option<core::cmp::Ordering> {
        Some(pitch_order(*self, *other))
    }
}

impl vstd::std_specs::ops::AddSpecImpl<Pitch> for Interval {
    open spec fn obeys_add_spec() -> bool {
        true
    }

    open spec fn add_req(self, p: Pitch) -> bool {
        i8::MIN <= pitch_semis(p) + interval_semis(self) <= i8::MAX
    }

    open spec fn add_spec(self, p: Pitch) -> Pitch {
        pitch_at(pitch_semis(p) + interval_semis(self))
    }
}

impl core::ops::Add<Pitch> for Interval {
    type Output = Pitch;

    /// The pitch this interval above `p`.
    fn add(self, p: Pitch) -> (r: Pitch)
        ensures
            r == pitch_at(pitch_semis(p) + interval_semis(self)),
    {
        Pitch::from_semitones_from_middle_c((p.semitones_wide() + self.semitones() as i16) as i8)
    }
}

impl vstd::std_specs::ops::AddSpecImpl<Note> for Interval {
    open spec fn obeys_add_spec() -> bool {
        true
    }

    open spec fn add_req(self, n: Note) -> bool {
        true
    }

    open spec fn add_spec(self, n: Note) -> Note {
        sharp_spelling((note_semis(n) + interval_semis(self)) % 12)
    }
}

impl core::ops::Add<Note> for Interval {
    type Output = Note;

    /// The note this interval above `n`, spelled with sharps.
    fn add(self, n: Note) -> (r: Note)
        ensures
            r == sharp_spelling((note_semis(n) + interval_semis(self)) % 12),
    {
        Note::from_semitones_from_c(n.semitones_from_c() + self.semitones() as i8)
    }
}

} // verus!
