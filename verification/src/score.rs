//! Voice-leading heuristics: a scalar desirability score per candidate.
//!
//! Scores are integers counted in tenths of a point, so every heuristic
//! weight is exact: doubling the root is worth 100, each semitone of
//! excess upper-voice gap costs 20, each semitone of distance from a
//! range midpoint costs 1, each semitone of upper-voice motion costs 5,
//! contrary outer-voice motion earns 50, and a parallel perfect fifth
//! or octave costs 10000. Higher is better; nothing is normalized or
//! clamped.

use vstd::prelude::*;
use crate::pitch::{Pitch, pitch_class};
use crate::ranges::{VoiceRanges, range_mid};
use crate::voicing::Voicing;

verus! {

/// The absolute difference of two integers.
pub open spec fn abs_diff(a: int, b: int) -> int {
    if a >= b {
        a - b
    } else {
        b - a
    }
}

/// Reward for voices sounding the root's pitch class: 100 per voice.
pub open spec fn doubling_spec(v: Voicing, root: Pitch) -> int {
    let c = pitch_class(root.midi_number);
    (if pitch_class(v.soprano.midi_number) == c {
        100int
    } else {
        0int
    }) + (if pitch_class(v.alto.midi_number) == c {
        100int
    } else {
        0int
    }) + (if pitch_class(v.tenor.midi_number) == c {
        100int
    } else {
        0int
    }) + (if pitch_class(v.bass.midi_number) == c {
        100int
    } else {
        0int
    })
}

/// Penalty for an upper-voice gap beyond a perfect fifth: 20 per
/// semitone of excess, for each of the two upper gaps.
pub open spec fn spacing_spec(v: Voicing) -> int {
    let g1 = v.soprano.midi_number - v.alto.midi_number;
    let g2 = v.alto.midi_number - v.tenor.midi_number;
    (if g1 > 7 {
        -20 * (g1 - 7)
    } else {
        0int
    }) + (if g2 > 7 {
        -20 * (g2 - 7)
    } else {
        0int
    })
}

/// Penalty for soprano, alto and tenor straying from the midpoints of
/// their ranges: 1 per semitone of distance, summed over the three.
pub open spec fn comfort_spec(v: Voicing, rs: VoiceRanges) -> int {
    -abs_diff(v.soprano.midi_number as int, range_mid(rs.soprano)) - abs_diff(
        v.alto.midi_number as int,
        range_mid(rs.alto),
    ) - abs_diff(v.tenor.midi_number as int, range_mid(rs.tenor))
}

/// Two voices at note numbers `a1`,`b1` moving to `a2`,`b2` form
/// forbidden parallel motion: a perfect fifth or octave apart in both
/// chords, with both voices moving and in the same direction.
pub open spec fn parallel_pair(a1: u8, b1: u8, a2: u8, b2: u8) -> bool {
    let i1 = abs_diff(a1 as int, b1 as int);
    let i2 = abs_diff(a2 as int, b2 as int);
    &&& (i1 == 7 || i1 == 12)
    &&& i1 == i2
    &&& a2 != a1
    &&& b2 != b1
    &&& ((a2 > a1) <==> (b2 > b1))
}

/// Some pair of voices moves in forbidden parallels from `v1` to `v2`.
pub open spec fn has_parallel(v1: Voicing, v2: Voicing) -> bool {
    let s1 = v1.soprano.midi_number;
    let a1 = v1.alto.midi_number;
    let t1 = v1.tenor.midi_number;
    let b1 = v1.bass.midi_number;
    let s2 = v2.soprano.midi_number;
    let a2 = v2.alto.midi_number;
    let t2 = v2.tenor.midi_number;
    let b2 = v2.bass.midi_number;
    ||| parallel_pair(s1, a1, s2, a2)
    ||| parallel_pair(s1, t1, s2, t2)
    ||| parallel_pair(s1, b1, s2, b2)
    ||| parallel_pair(a1, t1, a2, t2)
    ||| parallel_pair(a1, b1, a2, b2)
    ||| parallel_pair(t1, b1, t2, b2)
}

/// The parallel-motion term: one flat 10000 penalty if any voice pair
/// moves in forbidden parallels, never compounded.
pub open spec fn parallel_spec(v1: Voicing, v2: Voicing) -> int {
    if has_parallel(v1, v2) {
        -10000int
    } else {
        0int
    }
}

/// Penalty for upper-voice motion: 5 per semitone moved by soprano,
/// alto and tenor together; bass motion is free.
pub open spec fn motion_spec(v1: Voicing, v2: Voicing) -> int {
    -5 * (abs_diff(v2.soprano.midi_number as int, v1.soprano.midi_number as int) + abs_diff(
        v2.alto.midi_number as int,
        v1.alto.midi_number as int,
    ) + abs_diff(v2.tenor.midi_number as int, v1.tenor.midi_number as int))
}

/// Reward of 50 when soprano and bass both move, in opposite directions.
pub open spec fn contrary_spec(v1: Voicing, v2: Voicing) -> int {
    let s1 = v1.soprano.midi_number;
    let s2 = v2.soprano.midi_number;
    let b1 = v1.bass.midi_number;
    let b2 = v2.bass.midi_number;
    if s2 != s1 && b2 != b1 && ((s2 > s1) <==> (b2 < b1)) {
        50int
    } else {
        0int
    }
}

/// The total score of a candidate: the three static terms, plus the
/// three transition terms when a previous voicing exists.
pub open spec fn score_spec(v: Voicing, prev: Option<Voicing>, root: Pitch, rs: VoiceRanges) -> int {
    doubling_spec(v, root) + spacing_spec(v) + comfort_spec(v, rs) + match prev {
        Option::Some(p) => parallel_spec(p, v) + motion_spec(p, v) + contrary_spec(p, v),
        Option::None => 0int,
    }
}

/// The previous-voicing argument as a plain optional value.
pub open spec fn prev_view(prev: Option<&Voicing>) -> Option<Voicing> {
    match prev {
        Option::Some(p) => Option::Some(*p),
        Option::None => Option::None,
    }
}

/// The absolute difference of two note numbers, widened to a score.
fn diff_abs(a: u8, b: u8) -> (r: i32)
    ensures
        r as int == abs_diff(a as int, b as int),
{
    if a >= b {
        (a - b) as i32
    } else {
        (b - a) as i32
    }
}

/// The doubling term of the score.
pub fn doubling_score(voicing: &Voicing, root: Pitch) -> (r: i32)
    ensures
        r as int == doubling_spec(*voicing, root),
{
    let c: u8 = root.midi_number % 12;
    let mut score: i32 = 0;
    if voicing.soprano.midi_number % 12 == c {
        score += 100;
    }
    if voicing.alto.midi_number % 12 == c {
        score += 100;
    }
    if voicing.tenor.midi_number % 12 == c {
        score += 100;
    }
    if voicing.bass.midi_number % 12 == c {
        score += 100;
    }
    score
}

/// The spacing term of the score.
pub fn spacing_score(voicing: &Voicing) -> (r: i32)
    requires
        voicing.soprano.midi_number >= voicing.alto.midi_number,
        voicing.alto.midi_number >= voicing.tenor.midi_number,
    ensures
        r as int == spacing_spec(*voicing),
{
    let mut score: i32 = 0;
    let g1: u8 = voicing.soprano.midi_number - voicing.alto.midi_number;
    let g2: u8 = voicing.alto.midi_number - voicing.tenor.midi_number;
    if g1 > 7 {
        score -= 20 * ((g1 - 7) as i32);
    }
    if g2 > 7 {
        score -= 20 * ((g2 - 7) as i32);
    }
    score
}

/// The range-comfort term of the score.
pub fn range_comfort_score(voicing: &Voicing, ranges: &VoiceRanges) -> (r: i32)
    ensures
        r as int == comfort_spec(*voicing, *ranges),
{
    let sop_mid: u8 = ((ranges.soprano.min as u16 + ranges.soprano.max as u16) / 2) as u8;
    let alto_mid: u8 = ((ranges.alto.min as u16 + ranges.alto.max as u16) / 2) as u8;
    let tenor_mid: u8 = ((ranges.tenor.min as u16 + ranges.tenor.max as u16) / 2) as u8;
    let mut score: i32 = 0;
    score -= diff_abs(voicing.soprano.midi_number, sop_mid);
    score -= diff_abs(voicing.alto.midi_number, alto_mid);
    score -= diff_abs(voicing.tenor.midi_number, tenor_mid);
    score
}

/// Whether one ordered pair of voices moves in forbidden parallels.
fn pair_is_parallel(a1: u8, b1: u8, a2: u8, b2: u8) -> (r: bool)
    ensures
        r == parallel_pair(a1, b1, a2, b2),
{
    let i1: i32 = diff_abs(a1, b1);
    let i2: i32 = diff_abs(a2, b2);
    (i1 == 7 || i1 == 12) && i1 == i2 && a2 != a1 && b2 != b1 && ((a2 > a1) == (b2 > b1))
}

/// The parallel-motion term of the score between consecutive voicings.
pub fn parallel_motion_penalty(v1: &Voicing, v2: &Voicing) -> (r: i32)
    ensures
        r as int == parallel_spec(*v1, *v2),
{
    let s1 = v1.soprano.midi_number;
    let a1 = v1.alto.midi_number;
    let t1 = v1.tenor.midi_number;
    let b1 = v1.bass.midi_number;
    let s2 = v2.soprano.midi_number;
    let a2 = v2.alto.midi_number;
    let t2 = v2.tenor.midi_number;
    let b2 = v2.bass.midi_number;
    if pair_is_parallel(s1, a1, s2, a2) {
        return -10000;
    }
    if pair_is_parallel(s1, t1, s2, t2) {
        return -10000;
    }
    if pair_is_parallel(s1, b1, s2, b2) {
        return -10000;
    }
    if pair_is_parallel(a1, t1, a2, t2) {
        return -10000;
    }
    if pair_is_parallel(a1, b1, a2, b2) {
        return -10000;
    }
    if pair_is_parallel(t1, b1, t2, b2) {
        return -10000;
    }
    0
}

/// The voice-motion term of the score between consecutive voicings.
pub fn voice_motion_score(v1: &Voicing, v2: &Voicing) -> (r: i32)
    ensures
        r as int == motion_spec(*v1, *v2),
{
    let ds: i32 = diff_abs(v2.soprano.midi_number, v1.soprano.midi_number);
    let da: i32 = diff_abs(v2.alto.midi_number, v1.alto.midi_number);
    let dt: i32 = diff_abs(v2.tenor.midi_number, v1.tenor.midi_number);
    assert(0 <= ds <= 255 && 0 <= da <= 255 && 0 <= dt <= 255);
    let total: i32 = ds + da + dt;
    assert(0 <= total <= 765);
    let scaled: i32 = 5 * total;
    -scaled
}

/// The contrary-motion term of the score between consecutive voicings.
pub fn contrary_motion_bonus(v1: &Voicing, v2: &Voicing) -> (r: i32)
    ensures
        r as int == contrary_spec(*v1, *v2),
{
    let s1 = v1.soprano.midi_number;
    let s2 = v2.soprano.midi_number;
    let b1 = v1.bass.midi_number;
    let b2 = v2.bass.midi_number;
    if s2 != s1 && b2 != b1 && ((s2 > s1) == (b2 < b1)) {
        50
    } else {
        0
    }
}

/// The total score of a candidate voicing against the previous chord's
/// voicing (if any) and the chord's root, in tenths of a point.
#[verifier::rlimit(50)]
pub fn score_voicing(voicing: &Voicing, prev: Option<&Voicing>, root: Pitch, ranges: &VoiceRanges)
    -> (r: i32)
    requires
        voicing.soprano.midi_number >= voicing.alto.midi_number,
        voicing.alto.midi_number >= voicing.tenor.midi_number,
    ensures
        r as int == score_spec(*voicing, prev_view(prev), root, *ranges),
{
    let mut score: i32 = 0;
    score += doubling_score(voicing, root);
    score += spacing_score(voicing);
    score += range_comfort_score(voicing, ranges);
    match prev {
        Option::Some(prev_voicing) => {
            score += parallel_motion_penalty(prev_voicing, voicing);
            score += voice_motion_score(prev_voicing, voicing);
            score += contrary_motion_bonus(prev_voicing, voicing);
        },
        Option::None => {},
    }
    score
}

} // verus!
