//! Candidate voicing generation for one chord.

use vstd::prelude::*;
use crate::pitch::{Pitch, pitch_class};
use crate::ranges::VoiceRanges;
use crate::voicing::{ChordSpec, Voicing, well_formed_voicing, sounds_class, lex_before};

verus! {

/// Some required chord tone has the same pitch class as note number `m`.
pub open spec fn has_tone_class(tones: Seq<Pitch>, m: u8) -> bool {
    exists|i: int|
        0 <= i < tones.len() && pitch_class((#[trigger] tones[i]).midi_number) == pitch_class(m)
}

/// Note number `m` belongs to the candidate list for a voice whose
/// inclusive range is `min..=max`: it lies in the range and matches a
/// required chord tone's pitch class.
pub open spec fn note_ok(m: u8, tones: Seq<Pitch>, min: u8, max: u8) -> bool {
    min <= m && m <= max && has_tone_class(tones, m)
}

/// A complete candidate voicing for a chord: the bass is the chord's
/// bass, each upper voice sings a chord tone inside its own range, and
/// the structural invariants hold.
pub open spec fn is_candidate(v: Voicing, bass: Pitch, tones: Seq<Pitch>, rs: VoiceRanges) -> bool {
    &&& v.bass == bass
    &&& note_ok(v.soprano.midi_number, tones, rs.soprano.min, rs.soprano.max)
    &&& note_ok(v.alto.midi_number, tones, rs.alto.min, rs.alto.max)
    &&& note_ok(v.tenor.midi_number, tones, rs.tenor.min, rs.tenor.max)
    &&& well_formed_voicing(v, tones)
}

/// Whether any required chord tone shares note number `m`'s pitch class.
fn class_in_tones(chord_tones: &Vec<Pitch>, m: u8) -> (r: bool)
    ensures
        r == has_tone_class(chord_tones@, m),
{
    let mut i: usize = 0;
    while i < chord_tones.len()
        invariant
            i <= chord_tones@.len(),
            forall|k: int|
                0 <= k < i ==> pitch_class((#[trigger] chord_tones@[k]).midi_number)
                    != pitch_class(m),
        decreases chord_tones@.len() - i,
    {
        if chord_tones[i].midi_number % 12 == m % 12 {
            return true;
        }
        i += 1;
    }
    false
}

/// Every absolute pitch in `min..=max` whose pitch class matches a
/// required chord tone, in strictly ascending order with no duplicates.
pub fn get_notes_in_range(chord_tones: &Vec<Pitch>, min: u8, max: u8) -> (r: Vec<Pitch>)
    ensures
        forall|k1: int, k2: int|
            0 <= k1 < k2 < r@.len() ==> r@[k1].midi_number < r@[k2].midi_number,
        forall|k: int|
            0 <= k < r@.len() ==> note_ok((#[trigger] r@[k]).midi_number, chord_tones@, min, max),
        forall|m: u8| note_ok(m, chord_tones@, min, max) ==> r@.contains(Pitch { midi_number: m }),
{
    let mut notes: Vec<Pitch> = Vec::new();
    let mut m: u16 = min as u16;
    while m <= max as u16
        invariant
            min as int <= m as int,
            forall|k1: int, k2: int|
                0 <= k1 < k2 < notes@.len() ==> notes@[k1].midi_number < notes@[k2].midi_number,
            forall|k: int|
                0 <= k < notes@.len() ==> note_ok(
                    (#[trigger] notes@[k]).midi_number,
                    chord_tones@,
                    min,
                    max,
                ),
            forall|k: int| 0 <= k < notes@.len() ==> (#[trigger] notes@[k]).midi_number < m,
            forall|w: u8|
                note_ok(w, chord_tones@, min, max) && w < m ==> notes@.contains(
                    Pitch { midi_number: w },
                ),
        decreases max as int + 1 - m as int,
    {
        let mb: u8 = m as u8;
        let ghost old_notes = notes@;
        if class_in_tones(chord_tones, mb) {
            notes.push(Pitch { midi_number: mb });
        }
        proof {
            assert forall|w: u8| note_ok(w, chord_tones@, min, max) && w < m + 1 implies notes@
                .contains(Pitch { midi_number: w }) by {
                if w < m {
                    let kk = choose|kk: int|
                        0 <= kk < old_notes.len() && old_notes[kk] == Pitch { midi_number: w };
                    assert(notes@[kk] == Pitch { midi_number: w });
                } else {
                    assert(w == mb);
                    assert(notes@[notes@.len() - 1] == Pitch { midi_number: w });
                }
            }
        }
        m = m + 1;
    }
    notes
}

/// Whether a voicing satisfies the structural invariants against the
/// required chord tones: no voice crossing, upper gaps at most an
/// octave, full pitch-class coverage by the four voices.
pub fn is_valid_voicing(voicing: &Voicing, chord_tones: &Vec<Pitch>) -> (r: bool)
    ensures
        r == well_formed_voicing(*voicing, chord_tones@),
{
    if voicing.soprano.midi_number < voicing.alto.midi_number {
        return false;
    }
    if voicing.alto.midi_number < voicing.tenor.midi_number {
        return false;
    }
    if voicing.tenor.midi_number < voicing.bass.midi_number {
        return false;
    }
    if voicing.soprano.midi_number - voicing.alto.midi_number > 12 {
        return false;
    }
    if voicing.alto.midi_number - voicing.tenor.midi_number > 12 {
        return false;
    }
    let mut i: usize = 0;
    while i < chord_tones.len()
        invariant
            i <= chord_tones@.len(),
            forall|k: int|
                0 <= k < i ==> sounds_class(
                    *voicing,
                    pitch_class((#[trigger] chord_tones@[k]).midi_number),
                ),
        decreases chord_tones@.len() - i,
    {
        let c: u8 = chord_tones[i].midi_number % 12;
        if voicing.soprano.midi_number % 12 != c && voicing.alto.midi_number % 12 != c
            && voicing.tenor.midi_number % 12 != c && voicing.bass.midi_number % 12 != c {
            return false;
        }
        i += 1;
    }
    true
}

/// Every candidate voicing of one chord, in the canonical generation
/// order: soprano outermost, then alto, then tenor, each ascending.
///
/// The result is exactly the set of voicings accepted by
/// `is_candidate`, listed in strictly increasing `lex_before` order;
/// that order is what downstream tie-breaking depends on.
#[verifier::loop_isolation(false)]
pub fn generate_voicings(symbol: &ChordSpec, ranges: &VoiceRanges) -> (r: Vec<Voicing>)
    ensures
        forall|k: int|
            0 <= k < r@.len() ==> is_candidate(
                #[trigger] r@[k],
                symbol.bass,
                symbol.chord_tones@,
                *ranges,
            ),
        forall|v: Voicing|
            #[trigger] is_candidate(v, symbol.bass, symbol.chord_tones@, *ranges) ==> r@.contains(
                v,
            ),
        forall|k1: int, k2: int| 0 <= k1 < k2 < r@.len() ==> lex_before(r@[k1], r@[k2]),
{
    let bass = symbol.bass;
    let sop = get_notes_in_range(&symbol.chord_tones, ranges.soprano.min, ranges.soprano.max);
    let alt = get_notes_in_range(&symbol.chord_tones, ranges.alto.min, ranges.alto.max);
    let ten = get_notes_in_range(&symbol.chord_tones, ranges.tenor.min, ranges.tenor.max);
    let ghost tones = symbol.chord_tones@;
    let ghost rs = *ranges;
    let mut voicings: Vec<Voicing> = Vec::new();
    let mut i: usize = 0;
    while i < sop.len()
        invariant
            i <= sop@.len(),
            forall|k: int|
                0 <= k < voicings@.len() ==> is_candidate(#[trigger] voicings@[k], bass, tones, rs),
            forall|k1: int, k2: int|
                0 <= k1 < k2 < voicings@.len() ==> lex_before(voicings@[k1], voicings@[k2]),
            forall|k: int|
                0 <= k < voicings@.len() && i < sop@.len() ==> (
                #[trigger] voicings@[k]).soprano.midi_number < sop@[i as int].midi_number,
            forall|v: Voicing|
                #[trigger] is_candidate(v, bass, tones, rs) && (v.soprano.midi_number as int) < (
                if i < sop@.len() {
                    sop@[i as int].midi_number as int
                } else {
                    256
                }) ==> voicings@.contains(v),
        decreases sop@.len() - i,
    {
        let sop_i = sop[i];
        let mut j: usize = 0;
        while j < alt.len()
            invariant
                j <= alt@.len(),
                forall|k: int|
                    0 <= k < voicings@.len() ==> is_candidate(
                        #[trigger] voicings@[k],
                        bass,
                        tones,
                        rs,
                    ),
                forall|k1: int, k2: int|
                    0 <= k1 < k2 < voicings@.len() ==> lex_before(voicings@[k1], voicings@[k2]),
                forall|k: int|
                    0 <= k < voicings@.len() ==> (#[trigger] voicings@[k]).soprano.midi_number
                        < sop_i.midi_number || (voicings@[k].soprano == sop_i && (j < alt@.len()
                        ==> voicings@[k].alto.midi_number < alt@[j as int].midi_number)),
                forall|v: Voicing|
                    #[trigger] is_candidate(v, bass, tones, rs) && ((v.soprano.midi_number as int)
                        < sop_i.midi_number as int || (v.soprano == sop_i
                        && (v.alto.midi_number as int) < (if j < alt@.len() {
                        alt@[j as int].midi_number as int
                    } else {
                        256
                    }))) ==> voicings@.contains(v),
            decreases alt@.len() - j,
        {
            let alt_j = alt[j];
            let mut t: usize = 0;
            while t < ten.len()
                invariant
                    t <= ten@.len(),
                    forall|k: int|
                        0 <= k < voicings@.len() ==> is_candidate(
                            #[trigger] voicings@[k],
                            bass,
                            tones,
                            rs,
                        ),
                    forall|k1: int, k2: int|
                        0 <= k1 < k2 < voicings@.len() ==> lex_before(voicings@[k1], voicings@[k2]),
                    forall|k: int|
                        0 <= k < voicings@.len() ==> (#[trigger] voicings@[k]).soprano.midi_number
                            < sop_i.midi_number || (voicings@[k].soprano == sop_i && (
                        voicings@[k].alto.midi_number < alt_j.midi_number || (voicings@[k].alto
                            == alt_j && (t < ten@.len() ==> voicings@[k].tenor.midi_number
                            < ten@[t as int].midi_number)))),
                    forall|v: Voicing|
                        #[trigger] is_candidate(v, bass, tones, rs) && ((v.soprano.midi_number as int)
                            < sop_i.midi_number as int || (v.soprano == sop_i && (
                        (v.alto.midi_number as int) < (alt_j.midi_number as int) || (v.alto == alt_j
                            && (v.tenor.midi_number as int) < (if t < ten@.len() {
                            ten@[t as int].midi_number as int
                        } else {
                            256
                        }))))) ==> voicings@.contains(v),
                decreases ten@.len() - t,
            {
                let ten_t = ten[t];
                let cand = Voicing { soprano: sop_i, alto: alt_j, tenor: ten_t, bass };
                let ghost old_voicings = voicings@;
                if is_valid_voicing(&cand, &symbol.chord_tones) {
                    voicings.push(cand);
                }
                proof {
                    assert forall|v: Voicing|
                        is_candidate(v, bass, tones, rs) && ((v.soprano.midi_number as int)
                            < sop_i.midi_number as int || (v.soprano == sop_i && (
                        (v.alto.midi_number as int) < (alt_j.midi_number as int) || (v.alto == alt_j
                            && (v.tenor.midi_number as int) < (if t + 1 < ten@.len() {
                            ten@[t as int + 1].midi_number as int
                        } else {
                            256
                        }))))) implies voicings@.contains(v) by {
                        if old_voicings.contains(v) {
                            let kk = choose|kk: int|
                                0 <= kk < old_voicings.len() && old_voicings[kk] == v;
                            assert(voicings@[kk] == v);
                        } else {
                            if v.soprano == sop_i && v.alto == alt_j {
                                let mt = v.tenor.midi_number;
                                assert(note_ok(mt, tones, rs.tenor.min, rs.tenor.max));
                                assert(ten@.contains(Pitch { midi_number: mt }));
                                let kk = choose|kk: int|
                                    0 <= kk < ten@.len() && ten@[kk] == Pitch { midi_number: mt };
                                assert(v.tenor == ten@[kk]);
                                assert(kk <= t);
                                assert(kk == t);
                                assert(v == cand);
                                assert(voicings@[voicings@.len() - 1] == v);
                            } else {
                                assert(false);
                            }
                        }
                    }
                }
                t += 1;
            }
            proof {
                assert forall|v: Voicing|
                    is_candidate(v, bass, tones, rs) && ((v.soprano.midi_number as int)
                        < sop_i.midi_number as int || (v.soprano == sop_i
                        && (v.alto.midi_number as int) < (if j + 1 < alt@.len() {
                        alt@[j as int + 1].midi_number as int
                    } else {
                        256
                    }))) implies voicings@.contains(v) by {
                    if v.soprano == sop_i && !(v.alto.midi_number < alt_j.midi_number) {
                        let ma = v.alto.midi_number;
                        assert(note_ok(ma, tones, rs.alto.min, rs.alto.max));
                        assert(alt@.contains(Pitch { midi_number: ma }));
                        let kk = choose|kk: int|
                            0 <= kk < alt@.len() && alt@[kk] == Pitch { midi_number: ma };
                        assert(kk <= j);
                        assert(kk == j);
                        assert(v.alto == alt_j);
                    }
                }
            }
            j += 1;
        }
        proof {
            assert forall|v: Voicing|
                is_candidate(v, bass, tones, rs) && (v.soprano.midi_number as int) < (if i + 1
                    < sop@.len() {
                    sop@[i as int + 1].midi_number as int
                } else {
                    256
                }) implies voicings@.contains(v) by {
                if !(v.soprano.midi_number < sop_i.midi_number) {
                    let ms = v.soprano.midi_number;
                    assert(note_ok(ms, tones, rs.soprano.min, rs.soprano.max));
                    assert(sop@.contains(Pitch { midi_number: ms }));
                    let kk = choose|kk: int|
                        0 <= kk < sop@.len() && sop@[kk] == Pitch { midi_number: ms };
                    assert(kk <= i);
                    assert(kk == i);
                    assert(v.soprano == sop_i);
                }
            }
        }
        i += 1;
    }
    voicings
}

} // verus!
