//! Reading a melody written as text, one pitch per token: a letter `A`-`G` in
//! either case, an optional `#` or `b`, and an octave digit `0`-`8`.
use crate::theory::{Note, Pitch, PitchBase, PitchModifier};
use vstd::prelude::*;
use vstd::string::StrSliceExecFns;

verus! {

/// Why a text could not be read as pitches.
#[derive(Clone, Copy, Debug, PartialEq, Eq, Structural)]
pub enum ParseError {
    /// A token starts with something other than a letter from A to G.
    UnexpectedPitchBase,
    /// A letter is followed by something other than `#`, `b` or a digit.
    UnexpectedModifier,
    /// The octave is not a digit from 0 to 8.
    UnexpectedOctave,
    /// The text ends in the middle of a token.
    UnexpectedEnd,
}

/// ASCII whitespace, which separates tokens.
pub open spec fn is_space(c: char) -> bool {
    c == ' ' || c == '\t' || c == '\n' || c == '\r' || c == '\x0C'
}

/// The letter name that a character spells, in either case.
pub open spec fn base_of(c: char) -> Option<PitchBase> {
    if c == 'a' || c == 'A' {
        Some(PitchBase::A)
    } else if c == 'b' || c == 'B' {
        Some(PitchBase::B)
    } else if c == 'c' || c == 'C' {
        Some(PitchBase::C)
    } else if c == 'd' || c == 'D' {
        Some(PitchBase::D)
    } else if c == 'e' || c == 'E' {
        Some(PitchBase::E)
    } else if c == 'f' || c == 'F' {
        Some(PitchBase::F)
    } else if c == 'g' || c == 'G' {
        Some(PitchBase::G)
    } else {
        None
    }
}

/// Whether a character is an ASCII digit.
pub open spec fn is_digit(c: char) -> bool {
    '0' <= c <= '9'
}

/// The octave that a character names, `0` to `8`.
pub open spec fn octave_of(c: char) -> Option<i8> {
    if '0' <= c <= '8' {
        Some((c as int - '0' as int) as i8)
    } else {
        None
    }
}

/// Whether the token at `i` (whose first character is a letter) has an
/// accidental: its second character is there and is not a digit.
pub open spec fn has_modifier(s: Seq<char>, i: int) -> bool {
    i + 1 < s.len() && !is_digit(s[i + 1])
}

/// The pitch of the token that starts at `i`, which is not whitespace.
pub open spec fn token_at(s: Seq<char>, i: int) -> Result<Pitch, ParseError> {
    match base_of(s[i]) {
        None => Err(ParseError::UnexpectedPitchBase),
        Some(base) => if i + 1 >= s.len() {
            Err(ParseError::UnexpectedEnd)
        } else if has_modifier(s, i) {
            if s[i + 1] != '#' && s[i + 1] != 'b' {
                Err(ParseError::UnexpectedModifier)
            } else if i + 2 >= s.len() {
                Err(ParseError::UnexpectedEnd)
            } else {
                let m = if s[i + 1] == '#' {
                    PitchModifier::Sharp
                } else {
                    PitchModifier::Flat
                };
                match octave_of(s[i + 2]) {
                    None => Err(ParseError::UnexpectedOctave),
                    Some(o) => Ok(Pitch(Note(base, m), o)),
                }
            }
        } else {
            match octave_of(s[i + 1]) {
                None => Err(ParseError::UnexpectedOctave),
                Some(o) => Ok(Pitch(Note(base, PitchModifier::Natural), o)),
            }
        },
    }
}

/// The pitches of the text from position `i` on, or the first error in it.
pub open spec fn parse_from(s: Seq<char>, i: int) -> Result<Seq<Pitch>, ParseError>
    decreases s.len() - i,
{
    if i < 0 || i >= s.len() {
        Ok(Seq::empty())
    } else if is_space(s[i]) {
        parse_from(s, i + 1)
    } else {
        match token_at(s, i) {
            Err(e) => Err(e),
            Ok(p) => {
                let next = if has_modifier(s, i) {
                    i + 3
                } else {
                    i + 2
                };
                match parse_from(s, next) {
                    Err(e) => Err(e),
                    Ok(rest) => Ok(seq![p] + rest),
                }
            },
        }
    }
}

/// The pitches of a whole text, or the first error in it.
pub open spec fn parse_spec(s: Seq<char>) -> Result<Seq<Pitch>, ParseError> {
    parse_from(s, 0)
}

/// `done` followed by what `rest` reads, or the error of `rest`.
pub open spec fn after(done: Seq<Pitch>, rest: Result<Seq<Pitch>, ParseError>) -> Result<
    Seq<Pitch>,
    ParseError,
> {
    match rest {
        Ok(r) => Ok(done + r),
        Err(e) => Err(e),
    }
}

fn is_space_char(c: char) -> (r: bool)
    ensures
        r == is_space(c),
{
    c == ' ' || c == '\t' || c == '\n' || c == '\r' || c == '\x0C'
}

fn base_of_char(c: char) -> (r: Option<PitchBase>)
    ensures
        r == base_of(c),
{
    if c == 'a' || c == 'A' {
        Some(PitchBase::A)
    } else if c == 'b' || c == 'B' {
        Some(PitchBase::B)
    } else if c == 'c' || c == 'C' {
        Some(PitchBase::C)
    } else if c == 'd' || c == 'D' {
        Some(PitchBase::D)
    } else if c == 'e' || c == 'E' {
        Some(PitchBase::E)
    } else if c == 'f' || c == 'F' {
        Some(PitchBase::F)
    } else if c == 'g' || c == 'G' {
        Some(PitchBase::G)
    } else {
        None
    }
}

fn octave_of_char(c: char) -> (r: Option<i8>)
    ensures
        r == octave_of(c),
{
    if '0' <= c && c <= '8' {
        Some((c as u32 - '0' as u32) as i8)
    } else {
        None
    }
}

/// Reads the pitches written in `text`. Fails on the first token that is not
/// a letter, an optional `#` or `b`, and an octave digit from 0 to 8.
pub fn parse_music(text: &str) -> (r: Result<Vec<Pitch>, ParseError>)
    ensures
        match r {
            Ok(v) => parse_spec(text@) == Ok::<Seq<Pitch>, ParseError>(v@),
            Err(e) => parse_spec(text@) == Err::<Seq<Pitch>, ParseError>(e),
        },
{
    let ghost s = text@;
    let len = text.unicode_len();
    let mut result: Vec<Pitch> = Vec::new();
    let mut i: usize = 0;
    while i < len
        invariant
            len == s.len(),
            s == text@,
            i <= len,
            after(result@, parse_from(s, i as int)) == parse_spec(s),
        decreases len - i,
    {
        let c = text.get_char(i);
        if is_space_char(c) {
            i += 1;
            continue;
        }
        let ghost start = i as int;
        let pitch_base = match base_of_char(c) {
            Some(b) => b,
            None => return Err(ParseError::UnexpectedPitchBase),
        };
        if i + 1 >= len {
            return Err(ParseError::UnexpectedEnd);
        }
        let mut c = text.get_char(i + 1);
        let mut next: usize = i + 2;
        let pitch_modifier = if !('0' <= c && c <= '9') {
            let m = if c == '#' {
                PitchModifier::Sharp
            } else if c == 'b' {
                PitchModifier::Flat
            } else {
                return Err(ParseError::UnexpectedModifier);
            };
            if i + 2 >= len {
                return Err(ParseError::UnexpectedEnd);
            }
            c = text.get_char(i + 2);
            next = i + 3;
            m
        } else {
            PitchModifier::Natural
        };
        let octave = match octave_of_char(c) {
            Some(o) => o,
            None => return Err(ParseError::UnexpectedOctave),
        };
        let pitch = Pitch(Note(pitch_base, pitch_modifier), octave);
        proof {
            assert(token_at(s, start) == Ok::<Pitch, ParseError>(pitch));
            let rest = parse_from(s, next as int);
            match rest {
                Ok(r) => {
                    assert(result@.push(pitch) + r =~= result@ + (seq![pitch] + r));
                },
                Err(e) => {},
            }
        }
        result.push(pitch);
        i = next;
    }
    Ok(result)
}

} // verus!
