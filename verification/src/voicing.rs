//! Chords as given to the engine, and complete four-voice voicings.

use vstd::prelude::*;
use crate::pitch::{Pitch, pitch_class};

verus! {

/// One chord of the progression: a fixed bass pitch plus the set of
/// required chord-tone pitch classes, already resolved from whatever
/// notation produced them. The engine never reinterprets figures.
#[derive(Debug)]
pub struct ChordSpec {
    pub bass: Pitch,
    pub chord_tones: Vec<Pitch>,
}

/// One complete four-voice pitch assignment for a single chord.
#[derive(Clone, Copy, Debug, PartialEq, Eq, Structural)]
pub struct Voicing {
    pub soprano: Pitch,
    pub alto: Pitch,
    pub tenor: Pitch,
    pub bass: Pitch,
}

/// Some voice of the voicing (bass included) sounds the pitch class `c`.
pub open spec fn sounds_class(v: Voicing, c: int) -> bool {
    ||| pitch_class(v.soprano.midi_number) == c
    ||| pitch_class(v.alto.midi_number) == c
    ||| pitch_class(v.tenor.midi_number) == c
    ||| pitch_class(v.bass.midi_number) == c
}

/// Every required chord tone's pitch class sounds in at least one of the
/// four voices (bass included).
pub open spec fn covers_chord_tones(v: Voicing, tones: Seq<Pitch>) -> bool {
    forall|i: int|
        0 <= i < tones.len() ==> sounds_class(v, pitch_class((#[trigger] tones[i]).midi_number))
}

/// The structural invariants of a voicing against its chord tones:
/// voices do not cross (soprano >= alto >= tenor >= bass), neither upper
/// gap exceeds an octave, and the required pitch classes are covered.
pub open spec fn well_formed_voicing(v: Voicing, tones: Seq<Pitch>) -> bool {
    &&& v.soprano.midi_number >= v.alto.midi_number
    &&& v.alto.midi_number >= v.tenor.midi_number
    &&& v.tenor.midi_number >= v.bass.midi_number
    &&& v.soprano.midi_number - v.alto.midi_number <= 12
    &&& v.alto.midi_number - v.tenor.midi_number <= 12
    &&& covers_chord_tones(v, tones)
}

/// The canonical generation order between voicings of one chord:
/// lexicographic by soprano, then alto, then tenor. Bass is fixed per
/// chord, so distinct candidates of one chord are always ordered.
pub open spec fn lex_before(a: Voicing, b: Voicing) -> bool {
    ||| a.soprano.midi_number < b.soprano.midi_number
    ||| (a.soprano.midi_number == b.soprano.midi_number && a.alto.midi_number
        < b.alto.midi_number)
    ||| (a.soprano.midi_number == b.soprano.midi_number && a.alto.midi_number
        == b.alto.midi_number && a.tenor.midi_number < b.tenor.midi_number)
}

} // verus!
