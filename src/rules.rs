//! The voice-leading rules that a counterpoint line must obey against its cantus
//! firmus, stated over semitone positions, and their executable checks.
use crate::scale::{scale_degree, scale_has_class, Scale};
use crate::theory::{abs, note_semis, pitch_fits, pitch_semis, Note, Pitch};
use vstd::prelude::*;

verus! {

/// Whether the counterpoint is written above or below the cantus firmus.
#[derive(Clone, Copy, Debug, PartialEq, Eq, Structural)]
pub enum Direction {
    Above,
    Below,
}

/// The sign that a direction gives to the intervals it adds to the cantus.
pub open spec fn direction_sign(d: Direction) -> int {
    match d {
        Direction::Above => 1,
        Direction::Below => -1,
    }
}

/// The sign of a melodic motion; holding still counts as rising.
pub open spec fn motion_sign(m: int) -> int {
    if m >= 0 {
        1
    } else {
        -1
    }
}

/// The semitone positions of a sequence of pitches.
pub open spec fn semis_of(ps: Seq<Pitch>) -> Seq<int> {
    ps.map_values(|p: Pitch| pitch_semis(p))
}

/// Whether every pitch of a cantus firmus lies far enough inside the `i8`
/// range of semitone positions that each candidate against it (at most an
/// octave and a major third away) is representable.
pub open spec fn cantus_in_range(cantus: Seq<Pitch>) -> bool {
    forall|i: int| 0 <= i < cantus.len() ==> -112 <= #[trigger] pitch_semis(cantus[i]) <= 111
}

/// The distances from the cantus note, before the direction's sign, that a
/// candidate may take at position `p` of a line of `n` notes: unison, fifth or
/// octave to open; unison or octave to close (a single note both opens and
/// closes); in between, a fifth, a third, a sixth, an octave or an octave and
/// a third.
pub open spec fn candidate_offsets(p: int, n: int) -> Seq<int> {
    if p == n - 1 {
        seq![0, 12]
    } else if p == 0 {
        seq![0, 7, 12]
    } else {
        seq![7, 3, 4, 8, 9, 12, 15, 16]
    }
}

/// The interval class between two simultaneous notes.
pub open spec fn vertical_class(x: int, y: int) -> int {
    abs(x - y) % 12
}

/// Unison, octave or fifth.
pub open spec fn is_perfect(v: int) -> bool {
    v == 0 || v == 7
}

/// Minor or major third.
pub open spec fn is_third(v: int) -> bool {
    v == 3 || v == 4
}

/// Minor or major sixth.
pub open spec fn is_sixth(v: int) -> bool {
    v == 8 || v == 9
}

/// Both thirds, or both sixths.
pub open spec fn same_imperfect_kind(v: int, w: int) -> bool {
    (is_third(v) && is_third(w)) || (is_sixth(v) && is_sixth(w))
}

/// No parallel or direct motion into a perfect consonance: moving to `x`
/// from `prev` while the cantus moves from `cprev` to `cur`.
pub open spec fn no_direct_perfect(x: int, prev: int, cur: int, cprev: int) -> bool {
    is_perfect(vertical_class(x, cur)) ==> motion_sign(x - prev) != motion_sign(cur - cprev)
}

/// The voices stay within an octave and a major third of each other.
pub open spec fn within_register(x: int, cur: int) -> bool {
    abs(x - cur) <= 16
}

/// Appending `x` makes no run of more than three thirds, or of more than three
/// sixths, against the cantus.
pub open spec fn within_run_limit(cs: Seq<int>, ls: Seq<int>, x: int) -> bool {
    let p = ls.len() as int;
    let v = vertical_class(x, cs[p]);
    !(p >= 3 && same_imperfect_kind(v, vertical_class(ls[p - 1], cs[p - 1]))
        && same_imperfect_kind(v, vertical_class(ls[p - 2], cs[p - 2]))
        && same_imperfect_kind(v, vertical_class(ls[p - 3], cs[p - 3])))
}

/// The two voices do not both skip (move more than a major second) in the
/// same direction.
pub open spec fn no_parallel_skips(x: int, prev: int, cur: int, cprev: int) -> bool {
    !(abs(x - prev) > 2 && abs(cur - cprev) > 2 && motion_sign(x - prev) == motion_sign(
        cur - cprev,
    ))
}

/// No pitch is sounded three times in a row.
pub open spec fn no_triple_repeat(ls: Seq<int>, x: int) -> bool {
    let p = ls.len() as int;
    !(p >= 2 && x == ls[p - 1] && ls[p - 1] == ls[p - 2])
}

/// No melodic leap beyond an octave.
pub open spec fn within_leap(x: int, prev: int) -> bool {
    abs(x - prev) <= 12
}

/// No melodic leap of a tritone.
pub open spec fn no_tritone_leap(x: int, prev: int) -> bool {
    abs(x - prev) != 6
}

/// The last note is approached by step.
pub open spec fn steps_into_final(n: int, ls: Seq<int>, x: int) -> bool {
    ls.len() == n - 1 ==> abs(x - ls[ls.len() - 1]) <= 2
}

/// After a leap of more than a major third, the line moves by step the other way.
pub open spec fn recovers_from_leap(ls: Seq<int>, x: int) -> bool {
    let p = ls.len() as int;
    (p >= 2 && abs(ls[p - 1] - ls[p - 2]) > 4) ==> (abs(x - ls[p - 1]) <= 2 && motion_sign(
        x - ls[p - 1],
    ) != motion_sign(ls[p - 1] - ls[p - 2]))
}

/// The rules that relate a note to the notes before it, for a note that is
/// not the first.
pub open spec fn follows_rules(cs: Seq<int>, ls: Seq<int>, x: int) -> bool {
    let p = ls.len() as int;
    let prev = ls[p - 1];
    let cur = cs[p];
    let cprev = cs[p - 1];
    p == 0 || (no_direct_perfect(x, prev, cur, cprev) && within_register(x, cur)
        && within_run_limit(cs, ls, x) && no_parallel_skips(x, prev, cur, cprev)
        && no_triple_repeat(ls, x) && within_leap(x, prev) && no_tritone_leap(x, prev)
        && steps_into_final(cs.len() as int, ls, x) && recovers_from_leap(ls, x))
}

/// Whether `x` may follow the line `ls` against the cantus `cs`: it is one of
/// the candidates of its position, lies in the scale, and obeys every rule.
pub open spec fn allowed(cs: Seq<int>, s: Scale, d: Direction, ls: Seq<int>, x: int) -> bool {
    let p = ls.len() as int;
    &&& p < cs.len()
    &&& candidate_offsets(p, cs.len() as int).contains(direction_sign(d) * (x - cs[p]))
    &&& scale_has_class(s, x % 12)
    &&& follows_rules(cs, ls, x)
}

/// Every note of `ls` is allowed after the notes before it.
pub open spec fn valid_prefix(cs: Seq<int>, s: Scale, d: Direction, ls: Seq<int>) -> bool {
    &&& ls.len() <= cs.len()
    &&& forall|p: int| 0 <= p < ls.len() ==> #[trigger] allowed(cs, s, d, ls.take(p), ls[p])
}

/// A complete line of semitone positions that obeys every rule.
pub open spec fn valid_semis(cs: Seq<int>, s: Scale, d: Direction, ls: Seq<int>) -> bool {
    ls.len() == cs.len() && valid_prefix(cs, s, d, ls)
}

/// A complete counterpoint line that obeys every rule against `cantus`.
pub open spec fn valid_counterpoint(cantus: Seq<Pitch>, s: Scale, d: Direction, line: Seq<Pitch>) -> bool {
    valid_semis(semis_of(cantus), s, d, semis_of(line))
}

/// Whether `notes` are the notes of the scale `s`, as `Scale::notes` gives them.
pub open spec fn notes_of_scale(notes: Seq<Note>, s: Scale) -> bool {
    &&& notes.len() == 8
    &&& forall|k: int| 0 <= k < 8 ==> note_semis(#[trigger] notes[k]) == scale_degree(s, k as nat)
}

/// The sign of a melodic motion; holding still counts as rising.
pub fn sign(a: i16) -> (r: i8)
    ensures
        r == motion_sign(a as int),
{
    if a >= 0 {
        1
    } else {
        -1
    }
}

fn abs_of(a: i16) -> (r: i16)
    requires
        a > i16::MIN,
    ensures
        r == abs(a as int),
{
    if a < 0 {
        -a
    } else {
        a
    }
}

fn vertical_class_of(x: i16, y: i16) -> (r: i16)
    requires
        -1000 <= x <= 1000,
        -1000 <= y <= 1000,
    ensures
        r == vertical_class(x as int, y as int),
        0 <= r < 12,
{
    abs_of(x - y) % 12
}

/// Whether pitch class `x % 12` belongs to the scale whose notes are given.
pub fn in_scale_notes(scale_notes: &Vec<Note>, s: &Scale, x: i16) -> (r: bool)
    requires
        notes_of_scale(scale_notes@, *s),
    ensures
        r == scale_has_class(*s, x as int % 12),
{
    let pc: i16 = x % 12;
    let pc: i16 = if pc < 0 {
        pc + 12
    } else {
        pc
    };
    let mut k: usize = 0;
    while k < scale_notes.len()
        invariant
            notes_of_scale(scale_notes@, *s),
            pc == x as int % 12,
            k <= 8,
            forall|j: int| 0 <= j < k ==> #[trigger] scale_degree(*s, j as nat) % 12 != pc,
        decreases 8 - k,
    {
        let n: i16 = scale_notes[k].semitones_from_c() as i16;
        let c: i16 = n % 12;
        let c: i16 = if c < 0 {
            c + 12
        } else {
            c
        };
        assert(note_semis(scale_notes@[k as int]) == scale_degree(*s, k as nat));
        if c == pc {
            return true;
        }
        k += 1;
    }
    false
}

fn rule_no_direct_perfect(x: i16, prev: i16, cur: i16, cprev: i16) -> (r: bool)
    requires
        -1000 <= x <= 1000,
        -1000 <= prev <= 1000,
        -1000 <= cur <= 1000,
        -1000 <= cprev <= 1000,
    ensures
        r == no_direct_perfect(x as int, prev as int, cur as int, cprev as int),
{
    let v = vertical_class_of(x, cur);
    if v == 0 || v == 7 {
        sign(x - prev) != sign(cur - cprev)
    } else {
        true
    }
}

fn rule_within_register(x: i16, cur: i16) -> (r: bool)
    requires
        -1000 <= x <= 1000,
        -1000 <= cur <= 1000,
    ensures
        r == within_register(x as int, cur as int),
{
    abs_of(x - cur) <= 16
}

fn rule_no_parallel_skips(x: i16, prev: i16, cur: i16, cprev: i16) -> (r: bool)
    requires
        -1000 <= x <= 1000,
        -1000 <= prev <= 1000,
        -1000 <= cur <= 1000,
        -1000 <= cprev <= 1000,
    ensures
        r == no_parallel_skips(x as int, prev as int, cur as int, cprev as int),
{
    let is_skip = abs_of(x - prev) > 2;
    let is_other_skip = abs_of(cur - cprev) > 2;
    !(is_skip && is_other_skip && sign(x - prev) == sign(cur - cprev))
}

fn rule_within_leap(x: i16, prev: i16) -> (r: bool)
    requires
        -1000 <= x <= 1000,
        -1000 <= prev <= 1000,
    ensures
        r == within_leap(x as int, prev as int),
{
    abs_of(x - prev) <= 12
}

fn rule_no_tritone_leap(x: i16, prev: i16) -> (r: bool)
    requires
        -1000 <= x <= 1000,
        -1000 <= prev <= 1000,
    ensures
        r == no_tritone_leap(x as int, prev as int),
{
    abs_of(x - prev) != 6
}

/// Whether the line and the cantus hold only pitches whose semitone
/// positions fit an `i8`.
pub open spec fn all_fit(ps: Seq<Pitch>) -> bool {
    forall|i: int| 0 <= i < ps.len() ==> pitch_fits(#[trigger] ps[i])
}

fn rule_within_run_limit(cantus: &Vec<Pitch>, line: &Vec<Pitch>, x: i16) -> (r: bool)
    requires
        line.len() < cantus.len(),
        all_fit(cantus@),
        all_fit(line@),
        -1000 <= x <= 1000,
    ensures
        r == within_run_limit(semis_of(cantus@), semis_of(line@), x as int),
{
    let p = line.len();
    if p < 3 {
        return true;
    }
    let v = vertical_class_of(x, cantus[p].semitones_wide());
    let mut k: usize = 1;
    while k <= 3
        invariant
            3 <= p == line.len() < cantus.len(),
            all_fit(cantus@),
            all_fit(line@),
            1 <= k <= 4,
            v == vertical_class(x as int, semis_of(cantus@)[p as int]),
            forall|j: int|
                1 <= j < k ==> same_imperfect_kind(
                    v as int,
                    #[trigger] vertical_class(semis_of(line@)[p - j], semis_of(cantus@)[p - j]),
                ),
        decreases 4 - k,
    {
        let w = vertical_class_of(line[p - k].semitones_wide(), cantus[p - k].semitones_wide());
        let same = ((v == 3 || v == 4) && (w == 3 || w == 4)) || ((v == 8 || v == 9) && (w == 8
            || w == 9));
        if !same {
            return true;
        }
        k += 1;
    }
    false
}

fn rule_no_triple_repeat(line: &Vec<Pitch>, x: i16) -> (r: bool)
    requires
        all_fit(line@),
    ensures
        r == no_triple_repeat(semis_of(line@), x as int),
{
    let p = line.len();
    if p < 2 {
        return true;
    }
    let prev = line[p - 1].semitones_wide();
    let prev_prev = line[p - 2].semitones_wide();
    !(x == prev && prev == prev_prev)
}

fn rule_steps_into_final(cantus: &Vec<Pitch>, line: &Vec<Pitch>, x: i16) -> (r: bool)
    requires
        1 <= line.len() < cantus.len(),
        all_fit(line@),
        -1000 <= x <= 1000,
    ensures
        r == steps_into_final(cantus@.len() as int, semis_of(line@), x as int),
{
    let p = line.len();
    if p == cantus.len() - 1 {
        abs_of(x - line[p - 1].semitones_wide()) <= 2
    } else {
        true
    }
}

fn rule_recovers_from_leap(line: &Vec<Pitch>, x: i16) -> (r: bool)
    requires
        all_fit(line@),
        -1000 <= x <= 1000,
    ensures
        r == recovers_from_leap(semis_of(line@), x as int),
{
    let p = line.len();
    if p < 2 {
        return true;
    }
    let prev = line[p - 1].semitones_wide();
    let motion = prev - line[p - 2].semitones_wide();
    if abs_of(motion) > 4 {
        let curr_motion = x - prev;
        abs_of(curr_motion) <= 2 && sign(curr_motion) != sign(motion)
    } else {
        true
    }
}

/// Whether `x` obeys every rule that relates it to the notes before it.
pub fn passes_rules(cantus: &Vec<Pitch>, line: &Vec<Pitch>, x: i16) -> (r: bool)
    requires
        line.len() < cantus.len(),
        all_fit(cantus@),
        all_fit(line@),
        -1000 <= x <= 1000,
    ensures
        r == follows_rules(semis_of(cantus@), semis_of(line@), x as int),
{
    let p = line.len();
    if p == 0 {
        return true;
    }
    let prev = line[p - 1].semitones_wide();
    let cur = cantus[p].semitones_wide();
    let cprev = cantus[p - 1].semitones_wide();
    rule_no_direct_perfect(x, prev, cur, cprev) && rule_within_register(x, cur)
        && rule_within_run_limit(cantus, line, x) && rule_no_parallel_skips(x, prev, cur, cprev)
        && rule_no_triple_repeat(line, x) && rule_within_leap(x, prev) && rule_no_tritone_leap(
        x,
        prev,
    ) && rule_steps_into_final(cantus, line, x) && rule_recovers_from_leap(line, x)
}

/// Whether every pitch of a cantus firmus lies within the range that the
/// search accepts (see `cantus_in_range`).
pub fn cantus_fits(notes: &Vec<Pitch>) -> (r: bool)
    ensures
        r == cantus_in_range(notes@),
{
    let mut i: usize = 0;
    while i < notes.len()
        invariant
            i <= notes@.len(),
            forall|j: int| 0 <= j < i ==> -112 <= #[trigger] pitch_semis(notes@[j]) <= 111,
        decreases notes@.len() - i,
    {
        let s = notes[i].semitones_wide();
        if s < -112 || s > 111 {
            return false;
        }
        i += 1;
    }
    true
}

} // verus!
