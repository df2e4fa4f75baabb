//! First-species counterpoint: writes a second voice against a given melody
//! (the cantus firmus) within a scale, above or below it, by a backtracking
//! search pruned by voice-leading rules.
pub mod laws;
pub mod parse;
pub mod rules;
pub mod scale;
pub mod search;
pub mod theory;

pub use parse::{parse_music, ParseError};
pub use rules::{cantus_fits, Direction};
pub use scale::{Scale, ScaleType};
pub use search::{counterpoint, counterpoint_with, shuffle, shuffle_with, Exploration};
pub use theory::{Interval, Note, Pitch, PitchBase, PitchModifier};
