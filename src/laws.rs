//! What every counterpoint line that obeys the rules is guaranteed to satisfy.
use crate::rules::{
    allowed, direction_sign, is_perfect, is_sixth, is_third, motion_sign, semis_of,
    valid_counterpoint, vertical_class, Direction,
};
use crate::scale::{in_scale, Scale};
use crate::theory::{abs, pitch_semis, Pitch};
use vstd::prelude::*;

verus! {

/// The rules at position `p` of a valid line, read against the whole line.
proof fn lemma_allowed_at(cantus: Seq<Pitch>, s: Scale, d: Direction, line: Seq<Pitch>, p: int)
    requires
        valid_counterpoint(cantus, s, d, line),
        0 <= p < line.len(),
    ensures
        allowed(semis_of(cantus), s, d, semis_of(line).take(p), semis_of(line)[p]),
        semis_of(line).take(p).len() == p,
        forall|j: int| 0 <= j < p ==> #[trigger] semis_of(line).take(p)[j] == semis_of(line)[j],
        forall|j: int| 0 <= j < line.len() ==> #[trigger] semis_of(line)[j] == pitch_semis(line[j]),
        forall|j: int|
            0 <= j < cantus.len() ==> #[trigger] semis_of(cantus)[j] == pitch_semis(cantus[j]),
{
}

/// A valid line has as many notes as the cantus firmus.
pub proof fn lemma_length(cantus: Seq<Pitch>, s: Scale, d: Direction, line: Seq<Pitch>)
    requires
        valid_counterpoint(cantus, s, d, line),
    ensures
        line.len() == cantus.len(),
{
}

/// Every note of a valid line belongs to the scale.
pub proof fn lemma_scale_membership(cantus: Seq<Pitch>, s: Scale, d: Direction, line: Seq<Pitch>)
    requires
        valid_counterpoint(cantus, s, d, line),
    ensures
        forall|i: int| 0 <= i < line.len() ==> in_scale(s, #[trigger] line[i]),
{
    assert forall|i: int| 0 <= i < line.len() implies in_scale(s, #[trigger] line[i]) by {
        lemma_allowed_at(cantus, s, d, line, i);
    }
}

/// No melodic step of a valid line spans more than an octave, or a tritone.
pub proof fn lemma_leap_bound(cantus: Seq<Pitch>, s: Scale, d: Direction, line: Seq<Pitch>)
    requires
        valid_counterpoint(cantus, s, d, line),
    ensures
        forall|i: int|
            0 <= i < line.len() - 1 ==> abs(pitch_semis(#[trigger] line[i + 1]) - pitch_semis(line[i]))
                <= 12 && abs(pitch_semis(line[i + 1]) - pitch_semis(line[i])) != 6,
{
    assert forall|i: int| 0 <= i < line.len() - 1 implies abs(
        pitch_semis(#[trigger] line[i + 1]) - pitch_semis(line[i]),
    ) <= 12 && abs(pitch_semis(line[i + 1]) - pitch_semis(line[i])) != 6 by {
        lemma_allowed_at(cantus, s, d, line, i + 1);
    }
}

/// A valid line opens on a unison, fifth or octave with the cantus, and
/// closes on a unison or octave, on the side that the direction names.
pub proof fn lemma_boundary_consonance(
    cantus: Seq<Pitch>,
    s: Scale,
    d: Direction,
    line: Seq<Pitch>,
)
    requires
        valid_counterpoint(cantus, s, d, line),
        cantus.len() >= 1,
    ensures
        ({
            let o = direction_sign(d) * (pitch_semis(line[0]) - pitch_semis(cantus[0]));
            o == 0 || o == 7 || o == 12
        }),
        ({
            let n = line.len() - 1;
            let o = direction_sign(d) * (pitch_semis(line[n]) - pitch_semis(cantus[n]));
            o == 0 || o == 12
        }),
{
    lemma_allowed_at(cantus, s, d, line, 0);
    lemma_allowed_at(cantus, s, d, line, line.len() - 1);
}

/// A valid line never reaches a fifth, unison or octave with the cantus by
/// moving the same way as the cantus.
pub proof fn lemma_no_parallel_perfects(
    cantus: Seq<Pitch>,
    s: Scale,
    d: Direction,
    line: Seq<Pitch>,
)
    requires
        valid_counterpoint(cantus, s, d, line),
    ensures
        forall|i: int|
            0 <= i < line.len() - 1 && is_perfect(
                vertical_class(pitch_semis(#[trigger] line[i + 1]), pitch_semis(cantus[i + 1])),
            ) ==> motion_sign(pitch_semis(line[i + 1]) - pitch_semis(line[i])) != motion_sign(
                pitch_semis(cantus[i + 1]) - pitch_semis(cantus[i]),
            ),
{
    assert forall|i: int|
        0 <= i < line.len() - 1 && is_perfect(
            vertical_class(pitch_semis(#[trigger] line[i + 1]), pitch_semis(cantus[i + 1])),
        ) implies motion_sign(pitch_semis(line[i + 1]) - pitch_semis(line[i])) != motion_sign(
        pitch_semis(cantus[i + 1]) - pitch_semis(cantus[i]),
    ) by {
        lemma_allowed_at(cantus, s, d, line, i + 1);
    }
}

/// A valid line never sounds four thirds, or four sixths, in a row against
/// the cantus.
pub proof fn lemma_run_length(cantus: Seq<Pitch>, s: Scale, d: Direction, line: Seq<Pitch>)
    requires
        valid_counterpoint(cantus, s, d, line),
    ensures
        forall|i: int|
            0 <= i && i + 3 < line.len() ==> !(is_third(
                vertical_class(pitch_semis(#[trigger] line[i]), pitch_semis(cantus[i])),
            ) && is_third(vertical_class(pitch_semis(line[i + 1]), pitch_semis(cantus[i + 1])))
                && is_third(vertical_class(pitch_semis(line[i + 2]), pitch_semis(cantus[i + 2])))
                && is_third(vertical_class(pitch_semis(line[i + 3]), pitch_semis(cantus[i + 3])))),
        forall|i: int|
            0 <= i && i + 3 < line.len() ==> !(is_sixth(
                vertical_class(pitch_semis(#[trigger] line[i]), pitch_semis(cantus[i])),
            ) && is_sixth(vertical_class(pitch_semis(line[i + 1]), pitch_semis(cantus[i + 1])))
                && is_sixth(vertical_class(pitch_semis(line[i + 2]), pitch_semis(cantus[i + 2])))
                && is_sixth(vertical_class(pitch_semis(line[i + 3]), pitch_semis(cantus[i + 3])))),
{
    assert forall|i: int| 0 <= i && i + 3 < line.len() implies !(is_third(
        vertical_class(pitch_semis(#[trigger] line[i]), pitch_semis(cantus[i])),
    ) && is_third(vertical_class(pitch_semis(line[i + 1]), pitch_semis(cantus[i + 1])))
        && is_third(vertical_class(pitch_semis(line[i + 2]), pitch_semis(cantus[i + 2])))
        && is_third(vertical_class(pitch_semis(line[i + 3]), pitch_semis(cantus[i + 3])))) && !(
    is_sixth(vertical_class(pitch_semis(line[i]), pitch_semis(cantus[i]))) && is_sixth(
        vertical_class(pitch_semis(line[i + 1]), pitch_semis(cantus[i + 1])),
    ) && is_sixth(vertical_class(pitch_semis(line[i + 2]), pitch_semis(cantus[i + 2])))
        && is_sixth(vertical_class(pitch_semis(line[i + 3]), pitch_semis(cantus[i + 3])))) by {
        lemma_allowed_at(cantus, s, d, line, i + 3);
    }
}

/// In a valid line, a leap of more than a major third is followed by a step
/// in the other direction.
pub proof fn lemma_leap_recovery(cantus: Seq<Pitch>, s: Scale, d: Direction, line: Seq<Pitch>)
    requires
        valid_counterpoint(cantus, s, d, line),
    ensures
        forall|i: int|
            0 <= i && i + 2 < line.len() && abs(
                pitch_semis(line[i + 1]) - pitch_semis(#[trigger] line[i]),
            ) > 4 ==> abs(pitch_semis(line[i + 2]) - pitch_semis(line[i + 1])) <= 2 && motion_sign(
                pitch_semis(line[i + 2]) - pitch_semis(line[i + 1]),
            ) != motion_sign(pitch_semis(line[i + 1]) - pitch_semis(line[i])),
{
    assert forall|i: int|
        0 <= i && i + 2 < line.len() && abs(
            pitch_semis(line[i + 1]) - pitch_semis(#[trigger] line[i]),
        ) > 4 implies abs(pitch_semis(line[i + 2]) - pitch_semis(line[i + 1])) <= 2 && motion_sign(
        pitch_semis(line[i + 2]) - pitch_semis(line[i + 1]),
    ) != motion_sign(pitch_semis(line[i + 1]) - pitch_semis(line[i])) by {
        lemma_allowed_at(cantus, s, d, line, i + 2);
    }
}

/// A valid line that begins with a given prefix recovers from a leap of more
/// than a major third at the end of that prefix: its next note moves by step
/// in the other direction.
pub proof fn lemma_leap_recovery_after_prefix(
    cantus: Seq<Pitch>,
    s: Scale,
    d: Direction,
    line: Seq<Pitch>,
    prefix: Seq<Pitch>,
)
    requires
        valid_counterpoint(cantus, s, d, line),
        2 <= prefix.len() < line.len(),
        line.subrange(0, prefix.len() as int) == prefix,
        abs(pitch_semis(prefix[prefix.len() - 1]) - pitch_semis(prefix[prefix.len() - 2])) > 4,
    ensures
        ({
            let k = prefix.len() as int;
            &&& abs(pitch_semis(line[k]) - pitch_semis(prefix[k - 1])) <= 2
            &&& motion_sign(pitch_semis(line[k]) - pitch_semis(prefix[k - 1])) != motion_sign(
                pitch_semis(prefix[k - 1]) - pitch_semis(prefix[k - 2]),
            )
        }),
{
    let k = prefix.len() as int;
    assert(line[k - 1] == line.subrange(0, k)[k - 1]);
    assert(line[k - 2] == line.subrange(0, k)[k - 2]);
    lemma_leap_recovery(cantus, s, d, line);
    assert(line[k - 2 + 1] == line[k - 1]);
}

} // verus!
