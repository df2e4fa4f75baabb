use counterpoint::{Interval, Note, Pitch, PitchBase, PitchModifier, Scale, ScaleType};

#[test]
fn semitones_from_c() {
    // C natural is 0 semitones above C
    assert_eq!(Pitch(Note(PitchBase::C, PitchModifier::Natural), 4).0.semitones_from_c(), 0);
    // D natural is 2 semitones above C
    assert_eq!(Pitch(Note(PitchBase::D, PitchModifier::Natural), 0).0.semitones_from_c(), 2);
    // D# is 3 semitones above C
    assert_eq!(Pitch(Note(PitchBase::D, PitchModifier::Sharp), 4).0.semitones_from_c(), 3);
}

#[test]
fn enharmonic_equivalents() {
    // C natural is enharmonic to D double flat
    assert_eq!(Pitch(Note(PitchBase::C, PitchModifier::Natural), 4), Pitch(Note(PitchBase::D, PitchModifier::DoubleFlat), 4));
    // E natural is enharmonic to F flat
    assert_eq!(Pitch(Note(PitchBase::E, PitchModifier::Natural), 2), Pitch(Note(PitchBase::F, PitchModifier::Flat), 2));
    // D sharp is enharmonic to E flat
    assert_eq!(Pitch(Note(PitchBase::D, PitchModifier::Sharp), 2), Pitch(Note(PitchBase::E, PitchModifier::Flat), 2));
    // C natural is enharmonic to B sharp
    assert_eq!(Pitch(Note(PitchBase::C, PitchModifier::Natural), 3), Pitch(Note(PitchBase::B, PitchModifier::Sharp), 2));
    // Enharmonic pitches at different octaves are not equal
    assert_ne!(Pitch(Note(PitchBase::C, PitchModifier::Natural), 2), Pitch(Note(PitchBase::B, PitchModifier::Sharp), 2));
}

#[test]
fn inversions() {
    // The inversion of the unison is the unison
    assert_eq!(Interval::Unison.inverse(), Interval::Unison);
    // The inversion of a major third is a minor sixth
    assert_eq!(Interval::MajorThird.inverse(), Interval::MinorSixth);
    // The inversion of a tritone is the tritone
    assert_eq!(Interval::Tritone.inverse(), Interval::Tritone);
    // The inversion of an inversion is itself
    assert_eq!(Interval::MajorSeventh.inverse().inverse(), Interval::MajorSeventh);
}

#[test]
fn intervals_of_pitches() {
    // The same notes are in unison
    assert_eq!(Pitch(Note(PitchBase::C, PitchModifier::Natural), 4) - Pitch(Note(PitchBase::C, PitchModifier::Natural), 4), Interval::Unison);
    // C and E are a major third apart
    assert_eq!(Pitch(Note(PitchBase::C, PitchModifier::Natural), 4) - Pitch(Note(PitchBase::E, PitchModifier::Natural), 4), Interval::MajorThird);
    // E and G are a minor third apart
    assert_eq!(Pitch(Note(PitchBase::E, PitchModifier::Natural), 3) - Pitch(Note(PitchBase::G, PitchModifier::Natural), 4), Interval::MinorThird);
    // C and G are a perfect fifth apart
    assert_eq!(Pitch(Note(PitchBase::C, PitchModifier::Natural), 2) - Pitch(Note(PitchBase::G, PitchModifier::Natural), 4), Interval::PerfectFifth);
    // C and B are a minor second apart
    assert_eq!(Pitch(Note(PitchBase::C, PitchModifier::Natural), 4) - Pitch(Note(PitchBase::B, PitchModifier::Natural), 3), Interval::MinorSecond);
}

#[test]
fn scales() {
    // C major/ionian scale
    assert_eq!(Scale(Note(PitchBase::C, PitchModifier::Natural), ScaleType::Ionian).notes(), vec![
        Note(PitchBase::C, PitchModifier::Natural),
        Note(PitchBase::D, PitchModifier::Natural),
        Note(PitchBase::E, PitchModifier::Natural),
        Note(PitchBase::F, PitchModifier::Natural),
        Note(PitchBase::G, PitchModifier::Natural),
        Note(PitchBase::A, PitchModifier::Natural),
        Note(PitchBase::B, PitchModifier::Natural),
        Note(PitchBase::C, PitchModifier::Natural),
    ]);

    // F melodic minor scale
    assert_eq!(Scale(Note(PitchBase::F, PitchModifier::Natural), ScaleType::MelodicMinor).notes(), vec![
        Note(PitchBase::F, PitchModifier::Natural),
        Note(PitchBase::G, PitchModifier::Natural),
        Note(PitchBase::A, PitchModifier::Flat),
        Note(PitchBase::B, PitchModifier::Flat),
        Note(PitchBase::C, PitchModifier::Natural),
        Note(PitchBase::D, PitchModifier::Natural),
        Note(PitchBase::E, PitchModifier::Natural),
        Note(PitchBase::F, PitchModifier::Natural),
    ]);
}

#[test]
fn below_middle_c() {
    assert_eq!(Pitch::from_semitones_from_middle_c(-1), Pitch(Note(PitchBase::B, PitchModifier::Natural), 3));
}

fn natural(base: PitchBase, octave: i8) -> Pitch {
    Pitch(Note(base, PitchModifier::Natural), octave)
}

#[test]
fn semitones_across_octaves() {
    assert_eq!(natural(PitchBase::C, 4).semitones_from_middle_c(), 0);
    assert_eq!(natural(PitchBase::A, 3).semitones_from_middle_c(), -3);
    assert_eq!(Pitch(Note(PitchBase::B, PitchModifier::Sharp), 4).semitones_from_middle_c(), 12);
    assert_eq!(Pitch(Note(PitchBase::C, PitchModifier::Flat), 0).semitones_from_middle_c(), -49);
}

#[test]
fn from_semitones_keeps_the_octave() {
    let c5 = Pitch::from_semitones_from_middle_c(12);
    assert_eq!(c5.1, 5);
    assert_eq!(c5.semitones_from_middle_c(), 12);
    let low = Pitch::from_semitones_from_middle_c(-128);
    assert_eq!(low.semitones_from_middle_c(), -128);
    let high = Pitch::from_semitones_from_middle_c(127);
    assert_eq!(high.semitones_from_middle_c(), 127);
    let fs = Pitch::from_semitones_from_middle_c(18);
    assert_eq!(fs.0 .0, PitchBase::F);
    assert_eq!(fs.0 .1, PitchModifier::Sharp);
    assert_eq!(fs.1, 5);
}

#[test]
fn notes_from_semitones_wrap() {
    let n = Note::from_semitones_from_c(-13);
    assert_eq!(n.semitones_from_c(), 11);
    let n = Note::from_semitones_from_c(25);
    assert_eq!(n.semitones_from_c(), 1);
    assert_eq!(n.1, PitchModifier::Sharp);
}

#[test]
fn interval_semitones_round_trip() {
    for k in 0u8..12 {
        assert_eq!(Interval::from_semitones(k).semitones(), k);
    }
    assert_eq!(Interval::from_semitones(19), Interval::PerfectFifth);
}

#[test]
fn pitch_arithmetic() {
    let c4 = natural(PitchBase::C, 4);
    assert_eq!(c4 + 12i8, natural(PitchBase::C, 5));
    assert_eq!(c4 - 12i8, natural(PitchBase::C, 3));
    assert_eq!(c4 + Interval::PerfectFifth, natural(PitchBase::G, 4));
    assert_eq!(c4 - Interval::MinorThird, natural(PitchBase::A, 3));
    assert_eq!(Interval::PerfectFifth + Interval::PerfectFifth, Interval::MajorSecond);
    assert_eq!(Note(PitchBase::B, PitchModifier::Natural) + Interval::MajorSecond, Note(PitchBase::C, PitchModifier::Sharp));
    assert_eq!(Note(PitchBase::C, PitchModifier::Natural) - Interval::MinorSecond, Note(PitchBase::B, PitchModifier::Natural));
}

#[test]
fn interval_order_does_not_matter() {
    let a = natural(PitchBase::D, 3);
    let b = natural(PitchBase::B, 4);
    assert_eq!(a - b, b - a);
    assert_eq!(a - b, Interval::MajorSixth);
}

#[test]
fn harmonic_minor_steps() {
    let steps = ScaleType::HarmonicMinor.steps();
    assert_eq!(steps.len(), 7);
    assert_eq!(steps[5], Interval::MinorThird);
    let a_minor = Scale(Note(PitchBase::A, PitchModifier::Natural), ScaleType::HarmonicMinor).notes();
    assert_eq!(a_minor[6], Note(PitchBase::G, PitchModifier::Sharp));
    assert_eq!(a_minor[7], Note(PitchBase::A, PitchModifier::Natural));
}

#[test]
fn pitches_order_by_height() {
    let c4 = natural(PitchBase::C, 4);
    let b3 = natural(PitchBase::B, 3);
    assert!(b3 < c4);
    assert!(c4 > b3);
    assert_eq!(c4.partial_cmp(&Pitch(Note(PitchBase::B, PitchModifier::Sharp), 3)), Some(std::cmp::Ordering::Equal));
}

#[test]
fn intervals_added_to_pitches_and_notes() {
    let c4 = natural(PitchBase::C, 4);
    assert_eq!(Interval::MajorThird + c4, natural(PitchBase::E, 4));
    assert_eq!(Interval::MajorSeventh + natural(PitchBase::D, 4), Pitch(Note(PitchBase::C, PitchModifier::Sharp), 5));
    assert_eq!(Interval::MinorThird + Note(PitchBase::A, PitchModifier::Natural), Note(PitchBase::C, PitchModifier::Natural));
}

#[test]
fn notes_equal_by_pitch_class() {
    assert_eq!(Note(PitchBase::B, PitchModifier::Sharp), Note(PitchBase::C, PitchModifier::Natural));
    assert_eq!(Note(PitchBase::C, PitchModifier::Flat), Note(PitchBase::B, PitchModifier::Natural));
    assert_eq!(Note(PitchBase::C, PitchModifier::Natural), Note(PitchBase::D, PitchModifier::DoubleFlat));
    assert_eq!(Note(PitchBase::B, PitchModifier::DoubleSharp), Note(PitchBase::C, PitchModifier::Sharp));
    assert_ne!(Note(PitchBase::C, PitchModifier::Natural), Note(PitchBase::C, PitchModifier::Sharp));
    assert_ne!(Note(PitchBase::B, PitchModifier::Natural), Note(PitchBase::C, PitchModifier::Natural));
}
