//! The backtracking search that builds a counterpoint line note by note.
use crate::rules::{
    all_fit, allowed, candidate_offsets, cantus_in_range, direction_sign,
    in_scale_notes, notes_of_scale, passes_rules, semis_of, valid_counterpoint, valid_prefix,
    valid_semis, Direction,
};
use crate::scale::Scale;
use crate::theory::{pitch_at, pitch_fits, pitch_semis, Note, Pitch};
use rand::Rng;
use vstd::prelude::*;

verus! {

/// The order in which the search tries the candidates of each position.
#[derive(Clone, Copy, Debug, PartialEq, Eq, Structural)]
pub enum Exploration {
    /// A fresh uniformly random order at every position.
    Shuffled,
    /// The order in which the candidates are generated.
    InOrder,
}

/// No complete valid line starts with `prefix`.
pub open spec fn no_completion(cs: Seq<int>, s: Scale, d: Direction, prefix: Seq<int>) -> bool {
    forall|ls: Seq<int>| #[trigger]
        valid_semis(cs, s, d, ls) ==> ls.take(prefix.len() as int) != prefix
}

/// Relies on `rand::thread_rng` and `rand::Rng::gen_range(low, high)`, which
/// returns a value in `[low, high)` and panics when `low >= high`.
#[verifier::external_body]
fn random_index(high: usize) -> (r: usize)
    requires
        0 < high,
    ensures
        r < high,
{
    rand::thread_rng().gen_range(0, high)
}

/// The Fisher-Yates shuffle of `s` driven by `draws`: for each position `k`
/// from `i - 1` down to `1`, the element at `k` swaps with the one at
/// `draws[k]`.
pub open spec fn fisher_yates<T>(s: Seq<T>, draws: Seq<usize>, i: int) -> Seq<T>
    decreases i,
{
    if i <= 1 {
        s
    } else {
        let d = draws[i - 1] as int;
        fisher_yates(s.update(i - 1, s[d]).update(d, s[i - 1]), draws, i - 1)
    }
}

/// Reorders `val` by the Fisher-Yates shuffle that `draws` drives; when each
/// `draws[k]` is drawn uniformly from `0..=k`, every order is equally likely.
pub fn shuffle_with<T: Copy>(val: &mut Vec<T>, draws: &Vec<usize>)
    requires
        draws@.len() == old(val)@.len(),
        forall|k: int| 0 <= k < draws@.len() ==> draws@[k] <= k,
    ensures
        final(val)@ == fisher_yates(old(val)@, draws@, old(val)@.len() as int),
        final(val)@.to_multiset() == old(val)@.to_multiset(),
{
    let ghost original = val@;
    let mut i: usize = val.len();
    while i > 1
        invariant
            i <= val@.len() == original.len() == draws@.len(),
            forall|k: int| 0 <= k < draws@.len() ==> draws@[k] <= k,
            fisher_yates(val@, draws@, i as int) == fisher_yates(
                original,
                draws@,
                original.len() as int,
            ),
            val@.to_multiset() == original.to_multiset(),
        decreases i,
    {
        i -= 1;
        let idx = draws[i];
        assert(draws@[i as int] <= i);
        let a = val[i];
        let b = val[idx];
        proof {
            broadcast use vstd::seq_lib::group_to_multiset_ensures;
            broadcast use vstd::multiset::group_multiset_axioms;

            let s0 = val@;
            let s1 = s0.update(i as int, b);
            let s2 = s1.update(idx as int, a);
            assert(s1.to_multiset() =~= s0.to_multiset().insert(b).remove(a));
            assert(s2.to_multiset() =~= s1.to_multiset().insert(a).remove(s1[idx as int]));
            assert(s2.to_multiset() =~= s0.to_multiset());
        }
        val.set(i, b);
        val.set(idx, a);
    }
}

/// Puts the elements in a uniformly random order (Fisher-Yates).
pub fn shuffle<T: Copy>(val: &mut Vec<T>)
    ensures
        final(val)@.len() == old(val)@.len(),
        final(val)@.to_multiset() == old(val)@.to_multiset(),
{
    let mut draws: Vec<usize> = Vec::new();
    let mut k: usize = 0;
    while k < val.len()
        invariant
            k <= val@.len(),
            draws@.len() == k,
            forall|j: int| 0 <= j < k ==> draws@[j] <= j,
        decreases val@.len() - k,
    {
        draws.push(random_index(k + 1));
        k += 1;
    }
    let ghost before = val@;
    shuffle_with(val, &draws);
    proof {
        broadcast use vstd::seq_lib::group_to_multiset_ensures;

        assert(val@.len() == val@.to_multiset().len());
        assert(before.len() == before.to_multiset().len());
    }
}

/// The candidates that the rules start from at position `p`: the cantus note
/// moved by each of `candidate_offsets`, upwards or downwards by `direction`.
fn raw_candidates(notes: &Vec<Pitch>, p: usize, direction: Direction) -> (r: Vec<Pitch>)
    requires
        p < notes.len(),
        cantus_in_range(notes@),
    ensures
        r@.len() == candidate_offsets(p as int, notes@.len() as int).len(),
        forall|k: int|
            0 <= k < r@.len() ==> #[trigger] r@[k] == pitch_at(
                pitch_semis(notes@[p as int]) + direction_sign(direction) * candidate_offsets(
                    p as int,
                    notes@.len() as int,
                )[k],
            ) && pitch_semis(r@[k]) == pitch_semis(notes@[p as int]) + direction_sign(direction)
                * candidate_offsets(p as int, notes@.len() as int)[k] && pitch_fits(r@[k]),
{
    let n = notes.len();
    let ghost offs = candidate_offsets(p as int, n as int);
    // The closing test comes first: a single note both opens and closes.
    let offsets: Vec<i8> = if p == n - 1 {
        vec![0, 12]
    } else if p == 0 {
        vec![0, 7, 12]
    } else {
        vec![7, 3, 4, 8, 9, 12, 15, 16]
    };
    assert(offsets@.len() == offs.len());
    assert(forall|k: int| 0 <= k < offs.len() ==> offsets@[k] as int == #[trigger] offs[k]);
    assert(forall|k: int| 0 <= k < offs.len() ==> 0 <= #[trigger] offs[k] <= 16);
    let other_note = notes[p];
    assert(-112 <= pitch_semis(notes@[p as int]) <= 111);
    let mut result: Vec<Pitch> = Vec::new();
    let mut k: usize = 0;
    while k < offsets.len()
        invariant
            p < notes@.len(),
            other_note == notes@[p as int],
            -112 <= pitch_semis(other_note) <= 111,
            offsets@.len() == offs.len(),
            forall|j: int| 0 <= j < offs.len() ==> offsets@[j] as int == #[trigger] offs[j],
            forall|j: int| 0 <= j < offs.len() ==> 0 <= #[trigger] offs[j] <= 16,
            k <= offsets@.len(),
            result@.len() == k,
            forall|j: int|
                0 <= j < k ==> #[trigger] result@[j] == pitch_at(
                    pitch_semis(other_note) + direction_sign(direction) * offs[j],
                ) && pitch_semis(result@[j]) == pitch_semis(other_note) + direction_sign(direction)
                    * offs[j] && pitch_fits(result@[j]),
        decreases offsets@.len() - k,
    {
        let offset = offsets[k];
        assert(offset as int == offs[k as int]);
        let candidate = match direction {
            Direction::Above => other_note + offset,
            Direction::Below => other_note - offset,
        };
        result.push(candidate);
        k += 1;
    }
    result
}

/// The candidates of position `line.len()` that lie in the scale and obey
/// every rule, in the order they were generated.
fn candidates(
    notes: &Vec<Pitch>,
    line: &Vec<Pitch>,
    scale_notes: &Vec<Note>,
    scale: &Scale,
    direction: Direction,
) -> (r: Vec<Pitch>)
    requires
        line.len() < notes.len(),
        cantus_in_range(notes@),
        all_fit(line@),
        notes_of_scale(scale_notes@, *scale),
    ensures
        forall|i: int|
            0 <= i < r@.len() ==> allowed(
                semis_of(notes@),
                *scale,
                direction,
                semis_of(line@),
                #[trigger] pitch_semis(r@[i]),
            ) && pitch_fits(r@[i]),
        forall|x: int|
            #[trigger] allowed(semis_of(notes@), *scale, direction, semis_of(line@), x) ==> exists|
                i: int,
            |
                0 <= i < r@.len() && #[trigger] pitch_semis(r@[i]) == x,
{
    let ghost cs = semis_of(notes@);
    let ghost ls = semis_of(line@);
    let ghost p = line@.len() as int;
    let ghost offs = candidate_offsets(p, cs.len() as int);
    assert(all_fit(notes@)) by {
        assert(forall|i: int| 0 <= i < notes@.len() ==> -112 <= #[trigger] pitch_semis(notes@[i]) <= 111);
    }
    let raw = raw_candidates(notes, line.len(), direction);
    let mut result: Vec<Pitch> = Vec::new();
    let mut k: usize = 0;
    while k < raw.len()
        invariant
            cs == semis_of(notes@),
            ls == semis_of(line@),
            p == line@.len() < notes@.len(),
            offs == candidate_offsets(p, cs.len() as int),
            all_fit(notes@),
            all_fit(line@),
            notes_of_scale(scale_notes@, *scale),
            raw@.len() == offs.len(),
            forall|j: int|
                0 <= j < raw@.len() ==> #[trigger] pitch_semis(raw@[j]) == cs[p] + direction_sign(
                    direction,
                ) * offs[j] && pitch_fits(raw@[j]),
            k <= raw@.len(),
            forall|i: int|
                0 <= i < result@.len() ==> allowed(cs, *scale, direction, ls, #[trigger] pitch_semis(result@[i]))
                    && pitch_fits(result@[i]),
            forall|j: int|
                0 <= j < k && allowed(cs, *scale, direction, ls, #[trigger] pitch_semis(raw@[j])) ==> exists|
                    i: int,
                |
                    0 <= i < result@.len() && #[trigger] pitch_semis(result@[i]) == pitch_semis(raw@[j]),
        decreases raw@.len() - k,
    {
        let option = raw[k];
        let x: i16 = option.semitones_wide();
        proof {
            let o = offs[k as int];
            assert(offs.contains(o));
            assert(direction_sign(direction) * (x - cs[p]) == o) by {
                if direction == Direction::Above {
                } else {
                }
            }
        }
        let ghost old_result = result@;
        if in_scale_notes(scale_notes, scale, x) && passes_rules(notes, line, x) {
            result.push(option);
            proof {
                assert(pitch_semis(result@[result@.len() - 1]) == x);
                assert forall|i: int| 0 <= i < old_result.len() implies result@[i] == old_result[i] by {}
            }
        } else {
            assert(!allowed(cs, *scale, direction, ls, x as int));
        }
        k += 1;
        proof {
            assert forall|j: int|
                0 <= j < k && allowed(cs, *scale, direction, ls, #[trigger] pitch_semis(raw@[j])) implies exists|
                    i: int,
                |
                    0 <= i < result@.len() && #[trigger] pitch_semis(result@[i]) == pitch_semis(raw@[j]) by {
                if j < k - 1 {
                    let i0 = choose|i: int| 0 <= i < old_result.len() && #[trigger] pitch_semis(old_result[i]) == pitch_semis(raw@[j]);
                    assert(result@[i0] == old_result[i0]);
                } else {
                    assert(pitch_semis(result@[result@.len() - 1]) == x);
                }
            }
        }
    }
    proof {
        assert forall|x: int| #[trigger] allowed(cs, *scale, direction, ls, x) implies exists|i: int|
            0 <= i < result@.len() && #[trigger] pitch_semis(result@[i]) == x by {
            let o = direction_sign(direction) * (x - cs[p]);
            let j = choose|j: int| 0 <= j < offs.len() && offs[j] == o;
            assert(pitch_semis(raw@[j]) == x) by {
                if direction == Direction::Above {
                } else {
                }
            }
        }
    }
    result
}

/// A copy of `line`.
fn copy_line(line: &Vec<Pitch>) -> (r: Vec<Pitch>)
    ensures
        r@ == line@,
{
    let mut r: Vec<Pitch> = Vec::new();
    let mut i: usize = 0;
    while i < line.len()
        invariant
            i <= line@.len(),
            r@ == line@.take(i as int),
        decreases line@.len() - i,
    {
        r.push(line[i]);
        i += 1;
        assert(r@ =~= line@.take(i as int));
    }
    assert(line@.take(line@.len() as int) =~= line@);
    r
}

/// A copy of `line` with `x` appended.
fn extended(line: &Vec<Pitch>, x: Pitch) -> (r: Vec<Pitch>)
    ensures
        r@ == line@.push(x),
{
    let mut r = copy_line(line);
    r.push(x);
    r
}

proof fn lemma_semis_push(line: Seq<Pitch>, x: Pitch)
    ensures
        semis_of(line.push(x)) == semis_of(line).push(pitch_semis(x)),
{
    assert(semis_of(line.push(x)) =~= semis_of(line).push(pitch_semis(x)));
}

proof fn lemma_prefix_push(cs: Seq<int>, s: Scale, d: Direction, ls: Seq<int>, x: int)
    requires
        valid_prefix(cs, s, d, ls),
        allowed(cs, s, d, ls, x),
    ensures
        valid_prefix(cs, s, d, ls.push(x)),
{
    let ls2 = ls.push(x);
    assert forall|q: int| 0 <= q < ls2.len() implies #[trigger] allowed(
        cs,
        s,
        d,
        ls2.take(q),
        ls2[q],
    ) by {
        if q < ls.len() {
            assert(ls2.take(q) =~= ls.take(q));
            assert(allowed(cs, s, d, ls.take(q), ls[q]));
        } else {
            assert(ls2.take(q) =~= ls);
        }
    }
}

/// Extends `so_far` to a complete line, trying the candidates of each
/// position in the order `exploration` gives and backtracking on dead ends.
/// Returns `None` exactly when no complete valid line starts with `so_far`.
pub fn counterpoint_helper(
    notes: &Vec<Pitch>,
    so_far: &Vec<Pitch>,
    scale_notes: &Vec<Note>,
    scale: &Scale,
    direction: Direction,
    exploration: Exploration,
) -> (r: Option<Vec<Pitch>>)
    requires
        so_far.len() <= notes.len(),
        cantus_in_range(notes@),
        all_fit(so_far@),
        notes_of_scale(scale_notes@, *scale),
        valid_prefix(semis_of(notes@), *scale, direction, semis_of(so_far@)),
    ensures
        match r {
            Some(line) => valid_counterpoint(notes@, *scale, direction, line@)
                && line@.subrange(0, so_far@.len() as int) == so_far@,
            None => no_completion(semis_of(notes@), *scale, direction, semis_of(so_far@)),
        },
    decreases notes.len() - so_far.len(),
{
    let ghost cs = semis_of(notes@);
    let ghost sf = semis_of(so_far@);
    if so_far.len() == notes.len() {
        let line = copy_line(so_far);
        assert(line@.subrange(0, so_far@.len() as int) =~= so_far@);
        return Some(line);
    }
    let mut options = candidates(notes, so_far, scale_notes, scale, direction);
    let ghost generated = options@;
    if exploration == Exploration::Shuffled {
        shuffle(&mut options);
    }
    proof {
        broadcast use vstd::seq_lib::group_to_multiset_ensures;

        assert forall|j: int| 0 <= j < options@.len() implies allowed(
            cs,
            *scale,
            direction,
            sf,
            #[trigger] pitch_semis(options@[j]),
        ) && pitch_fits(options@[j]) by {
            assert(options@.to_multiset().count(options@[j]) > 0);
            assert(generated.contains(options@[j]));
        }
        assert forall|x: int| #[trigger] allowed(cs, *scale, direction, sf, x) implies exists|j: int|
            0 <= j < options@.len() && #[trigger] pitch_semis(options@[j]) == x by {
            let i = choose|i: int| 0 <= i < generated.len() && #[trigger] pitch_semis(generated[i]) == x;
            assert(generated.to_multiset().count(generated[i]) > 0);
            assert(options@.contains(generated[i]));
        }
    }
    let mut i: usize = 0;
    while i < options.len()
        invariant
            cs == semis_of(notes@),
            sf == semis_of(so_far@),
            so_far@.len() < notes@.len(),
            cantus_in_range(notes@),
            all_fit(so_far@),
            notes_of_scale(scale_notes@, *scale),
            valid_prefix(cs, *scale, direction, sf),
            forall|j: int|
                0 <= j < options@.len() ==> allowed(cs, *scale, direction, sf, #[trigger] pitch_semis(options@[j]))
                    && pitch_fits(options@[j]),
            forall|x: int| #[trigger] allowed(cs, *scale, direction, sf, x) ==> exists|j: int|
                0 <= j < options@.len() && #[trigger] pitch_semis(options@[j]) == x,
            i <= options@.len(),
            forall|j: int|
                0 <= j < i ==> no_completion(cs, *scale, direction, sf.push(#[trigger] pitch_semis(options@[j]))),
        decreases options@.len() - i,
    {
        let option = options[i];
        let next = extended(so_far, option);
        proof {
            lemma_semis_push(so_far@, option);
            lemma_prefix_push(cs, *scale, direction, sf, pitch_semis(option));
            assert(all_fit(next@)) by {
                assert(forall|j: int| 0 <= j < so_far@.len() ==> next@[j] == #[trigger] so_far@[j]);
            }
        }
        let res = counterpoint_helper(notes, &next, scale_notes, scale, direction, exploration);
        if let Some(line) = res {
            assert(line@.subrange(0, so_far@.len() as int) =~= line@.subrange(
                0,
                next@.len() as int,
            ).subrange(0, so_far@.len() as int));
            return Some(line);
        }
        i += 1;
    }
    proof {
        assert forall|ls: Seq<int>| #[trigger] valid_semis(cs, *scale, direction, ls) implies ls.take(
            sf.len() as int,
        ) != sf by {
            let p = sf.len() as int;
            if ls.take(p) == sf {
                assert(allowed(cs, *scale, direction, ls.take(p), ls[p]));
                let j = choose|j: int| 0 <= j < options@.len() && #[trigger] pitch_semis(options@[j]) == ls[p];
                assert(no_completion(cs, *scale, direction, sf.push(pitch_semis(options@[j]))));
                assert(ls.take(p + 1) =~= sf.push(ls[p]));
            }
        }
    }
    None
}

/// Writes a counterpoint against `notes` in `scale`, above or below it as
/// `direction` says, trying candidates in the order `exploration` gives.
/// Returns a line that obeys every rule, or `None` exactly when no such line
/// exists.
pub fn counterpoint_with(
    notes: &Vec<Pitch>,
    scale: &Scale,
    direction: Direction,
    exploration: Exploration,
) -> (r: Option<Vec<Pitch>>)
    requires
        notes.len() >= 1,
        cantus_in_range(notes@),
    ensures
        r matches Some(line) ==> valid_counterpoint(notes@, *scale, direction, line@),
        r is None <==> !exists|line: Seq<Pitch>| valid_counterpoint(notes@, *scale, direction, line),
{
    let scale_notes = scale.notes();
    let start: Vec<Pitch> = Vec::new();
    proof {
        assert(semis_of(start@) =~= Seq::<int>::empty());
    }
    let res = counterpoint_helper(notes, &start, &scale_notes, scale, direction, exploration);
    proof {
        if res is None {
            assert forall|line: Seq<Pitch>| !valid_counterpoint(notes@, *scale, direction, line) by {
                let ls = semis_of(line);
                if valid_semis(semis_of(notes@), *scale, direction, ls) {
                    assert(ls.take(0) =~= semis_of(start@));
                }
            }
        }
    }
    res
}

/// Writes a counterpoint against `notes` in `scale`, above or below it as
/// `direction` says, exploring candidates in random order. Returns a line that
/// obeys every rule, or `None` exactly when no such line exists.
pub fn counterpoint(notes: &Vec<Pitch>, scale: &Scale, direction: Direction) -> (r: Option<
    Vec<Pitch>,
>)
    requires
        notes.len() >= 1,
        cantus_in_range(notes@),
    ensures
        r matches Some(line) ==> valid_counterpoint(notes@, *scale, direction, line@),
        r is None <==> !exists|line: Seq<Pitch>| valid_counterpoint(notes@, *scale, direction, line),
{
    counterpoint_with(notes, scale, direction, Exploration::Shuffled)
}

} // verus!
