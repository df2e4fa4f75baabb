use counterpoint::{parse_music, Note, ParseError, Pitch, PitchBase, PitchModifier};

#[test]
fn parses_tokens() {
    let v = parse_music("C4 d#4\n Eb3\tg2 b1").unwrap();
    assert_eq!(v.len(), 5);
    assert_eq!(v[0], Pitch(Note(PitchBase::C, PitchModifier::Natural), 4));
    assert_eq!(v[1].0 .0, PitchBase::D);
    assert_eq!(v[1].0 .1, PitchModifier::Sharp);
    assert_eq!(v[2].0 .1, PitchModifier::Flat);
    assert_eq!(v[2].1, 3);
    assert_eq!(v[3], Pitch(Note(PitchBase::G, PitchModifier::Natural), 2));
    assert_eq!(v[4].0 .0, PitchBase::B);
    assert_eq!(v[4].1, 1);
}

#[test]
fn parses_empty_and_blank_text() {
    assert_eq!(parse_music("").unwrap().len(), 0);
    assert_eq!(parse_music("  \n\t").unwrap().len(), 0);
}

#[test]
fn tokens_need_no_separator() {
    let v = parse_music("C4D4bb3").unwrap();
    assert_eq!(v.len(), 3);
    assert_eq!(v[2], Pitch(Note(PitchBase::B, PitchModifier::Flat), 3));
}

#[test]
fn rejects_unknown_letter() {
    assert_eq!(parse_music("C4 H4"), Err(ParseError::UnexpectedPitchBase));
}

#[test]
fn rejects_unknown_modifier() {
    assert_eq!(parse_music("Cx4"), Err(ParseError::UnexpectedModifier));
}

#[test]
fn rejects_bad_octave() {
    assert_eq!(parse_music("C9"), Err(ParseError::UnexpectedOctave));
    assert_eq!(parse_music("C#a"), Err(ParseError::UnexpectedOctave));
}

#[test]
fn rejects_truncated_token() {
    assert_eq!(parse_music("C4 D"), Err(ParseError::UnexpectedEnd));
    assert_eq!(parse_music("C4 D#"), Err(ParseError::UnexpectedEnd));
}
