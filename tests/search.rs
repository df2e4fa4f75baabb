use counterpoint::{
    counterpoint, counterpoint_with, shuffle, shuffle_with, Direction, Exploration, Note, Pitch, PitchBase,
    PitchModifier, Scale, ScaleType,
};

fn natural(base: PitchBase, octave: i8) -> Pitch {
    Pitch(Note(base, PitchModifier::Natural), octave)
}

fn semis(p: &Pitch) -> i32 {
    p.semitones_from_middle_c() as i32
}

fn sign(a: i32) -> i32 {
    if a >= 0 {
        1
    } else {
        -1
    }
}

fn class(x: i32, y: i32) -> i32 {
    (x - y).abs() % 12
}

fn c_major() -> Scale {
    Scale(Note(PitchBase::C, PitchModifier::Natural), ScaleType::Ionian)
}

/// Checks every property that a line found by the search must have.
fn assert_valid(cantus: &[Pitch], scale: &Scale, direction: Direction, line: &[Pitch]) {
    let n = cantus.len();
    assert_eq!(line.len(), n);
    let classes: Vec<i32> = scale.notes().iter().map(|m| (m.semitones_from_c() as i32).rem_euclid(12)).collect();
    for p in line {
        assert!(classes.contains(&semis(p).rem_euclid(12)));
    }
    let dir = if direction == Direction::Above { 1 } else { -1 };
    let open = dir * (semis(&line[0]) - semis(&cantus[0]));
    assert!(open == 0 || open == 7 || open == 12);
    let close = dir * (semis(&line[n - 1]) - semis(&cantus[n - 1]));
    assert!(close == 0 || close == 12);
    for i in 0..n.saturating_sub(1) {
        let leap = (semis(&line[i + 1]) - semis(&line[i])).abs();
        assert!(leap <= 12 && leap != 6);
        let v = class(semis(&line[i + 1]), semis(&cantus[i + 1]));
        if v == 0 || v == 7 {
            assert_ne!(sign(semis(&line[i + 1]) - semis(&line[i])), sign(semis(&cantus[i + 1]) - semis(&cantus[i])));
        }
        assert!((semis(&line[i + 1]) - semis(&cantus[i + 1])).abs() <= 16);
    }
    for i in 0..n.saturating_sub(3) {
        let vs: Vec<i32> = (i..i + 4).map(|k| class(semis(&line[k]), semis(&cantus[k]))).collect();
        assert!(!vs.iter().all(|v| *v == 3 || *v == 4));
        assert!(!vs.iter().all(|v| *v == 8 || *v == 9));
    }
    for i in 0..n.saturating_sub(2) {
        let m = semis(&line[i + 1]) - semis(&line[i]);
        if m.abs() > 4 {
            let next = semis(&line[i + 2]) - semis(&line[i + 1]);
            assert!(next.abs() <= 2 && sign(next) != sign(m));
        }
    }
    if n >= 2 {
        let last = (semis(&line[n - 1]) - semis(&line[n - 2])).abs();
        assert!(last <= 2);
    }
}

fn scenario_b_cantus() -> Vec<Pitch> {
    vec![
        natural(PitchBase::C, 4),
        natural(PitchBase::D, 4),
        natural(PitchBase::E, 4),
        natural(PitchBase::D, 4),
        natural(PitchBase::C, 4),
    ]
}

fn longer_cantus() -> Vec<Pitch> {
    vec![
        natural(PitchBase::D, 4),
        natural(PitchBase::F, 4),
        natural(PitchBase::E, 4),
        natural(PitchBase::D, 4),
        natural(PitchBase::G, 4),
        natural(PitchBase::F, 4),
        natural(PitchBase::A, 4),
        natural(PitchBase::G, 4),
        natural(PitchBase::F, 4),
        natural(PitchBase::E, 4),
        natural(PitchBase::D, 4),
    ]
}

#[test]
fn single_note_below_is_unison_in_order() {
    let cantus = vec![natural(PitchBase::C, 4)];
    let line = counterpoint_with(&cantus, &c_major(), Direction::Below, Exploration::InOrder).unwrap();
    assert_eq!(line.len(), 1);
    assert_eq!(semis(&line[0]), 0);
}

#[test]
fn single_note_below_opens_and_closes_together() {
    let cantus = vec![natural(PitchBase::C, 4)];
    for _ in 0..20 {
        let line = counterpoint(&cantus, &c_major(), Direction::Below).unwrap();
        assert_valid(&cantus, &c_major(), Direction::Below, &line);
        assert!(semis(&line[0]) == 0 || semis(&line[0]) == -12);
    }
}

#[test]
fn single_note_outside_the_scale_has_no_line() {
    let cantus = vec![natural(PitchBase::C, 4)];
    let d_major = Scale(Note(PitchBase::D, PitchModifier::Natural), ScaleType::Ionian);
    assert!(counterpoint(&cantus, &d_major, Direction::Below).is_none());
}

#[test]
fn short_cantus_above_in_c_major() {
    let cantus = scenario_b_cantus();
    let first = counterpoint_with(&cantus, &c_major(), Direction::Above, Exploration::InOrder).unwrap();
    assert_valid(&cantus, &c_major(), Direction::Above, &first);
    // The fixed order makes the search deterministic.
    let again = counterpoint_with(&cantus, &c_major(), Direction::Above, Exploration::InOrder);
    assert_eq!(line_semis(&Some(first)), line_semis(&again));
}

fn line_semis(line: &Option<Vec<Pitch>>) -> Option<Vec<i32>> {
    line.as_ref().map(|l| l.iter().map(semis).collect())
}

#[test]
fn short_cantus_above_is_solved_in_order() {
    let cantus = scenario_b_cantus();
    let line = counterpoint_with(&cantus, &c_major(), Direction::Above, Exploration::InOrder).unwrap();
    assert_valid(&cantus, &c_major(), Direction::Above, &line);
}

#[test]
fn random_order_finds_valid_lines() {
    let cantus = longer_cantus();
    for direction in [Direction::Above, Direction::Below] {
        for _ in 0..10 {
            if let Some(line) = counterpoint(&cantus, &c_major(), direction) {
                assert_valid(&cantus, &c_major(), direction, &line);
            }
        }
    }
}

#[test]
fn random_and_fixed_orders_agree_on_feasibility() {
    let cantus = longer_cantus();
    for direction in [Direction::Above, Direction::Below] {
        let fixed = counterpoint_with(&cantus, &c_major(), direction, Exploration::InOrder);
        for _ in 0..5 {
            let random = counterpoint(&cantus, &c_major(), direction);
            assert_eq!(fixed.is_some(), random.is_some());
        }
    }
}

#[test]
fn leap_in_the_line_is_recovered() {
    // The cantus leaps up a sixth; every line found recovers from its own leaps.
    let cantus = vec![
        natural(PitchBase::C, 4),
        natural(PitchBase::A, 4),
        natural(PitchBase::G, 4),
        natural(PitchBase::F, 4),
        natural(PitchBase::E, 4),
        natural(PitchBase::D, 4),
        natural(PitchBase::C, 4),
    ];
    for direction in [Direction::Above, Direction::Below] {
        for _ in 0..10 {
            if let Some(line) = counterpoint(&cantus, &c_major(), direction) {
                assert_valid(&cantus, &c_major(), direction, &line);
            }
        }
    }
}

#[test]
fn no_opening_in_the_scale_means_no_line() {
    // Above C#4 the openings are C#4, G#4 and C#5, none of them in C major.
    let cs = Pitch(Note(PitchBase::C, PitchModifier::Sharp), 4);
    let cantus = vec![cs, natural(PitchBase::D, 4), cs];
    assert!(counterpoint(&cantus, &c_major(), Direction::Above).is_none());
    assert!(counterpoint_with(&cantus, &c_major(), Direction::Above, Exploration::InOrder).is_none());
}

#[test]
fn two_notes_need_a_step_into_the_close() {
    // C4 then G4 below: the close is G4 or G3, the opening C4, F3 or C3; no
    // opening lies within a step of a closing note.
    let cantus = vec![natural(PitchBase::C, 4), natural(PitchBase::G, 4)];
    assert!(counterpoint(&cantus, &c_major(), Direction::Below).is_none());
}

#[test]
fn two_notes_cannot_close_by_contrary_step() {
    // Above D4 the openings are D4, A4 and D5; the close on C4 or C5 would
    // need a step in the same direction as the cantus into a unison or octave.
    let cantus = vec![natural(PitchBase::D, 4), natural(PitchBase::C, 4)];
    assert!(counterpoint_with(&cantus, &c_major(), Direction::Above, Exploration::InOrder).is_none());
}

#[test]
fn shuffle_keeps_the_elements() {
    for _ in 0..50 {
        let mut v: Vec<u32> = (0..10).collect();
        shuffle(&mut v);
        let mut sorted = v.clone();
        sorted.sort();
        assert_eq!(sorted, (0..10).collect::<Vec<u32>>());
    }
    let mut single = vec![7u32];
    shuffle(&mut single);
    assert_eq!(single, vec![7]);
}

#[test]
fn shuffle_moves_elements() {
    let original: Vec<u32> = (0..10).collect();
    let mut moved = false;
    for _ in 0..50 {
        let mut v = original.clone();
        shuffle(&mut v);
        if v != original {
            moved = true;
        }
    }
    assert!(moved);
}

#[test]
fn shuffle_with_follows_the_draws() {
    let mut v = vec![1u32, 2, 3];
    shuffle_with(&mut v, &vec![0, 0, 1]);
    assert_eq!(v, vec![3, 1, 2]);
    let mut w = vec![1u32, 2, 3, 4];
    shuffle_with(&mut w, &vec![0, 1, 2, 3]);
    assert_eq!(w, vec![1, 2, 3, 4]);
    let mut x = vec![1u32, 2, 3, 4];
    shuffle_with(&mut x, &vec![0, 0, 0, 0]);
    assert_eq!(x, vec![2, 3, 4, 1]);
}
