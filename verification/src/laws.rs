//! The guarantees of the engine, stated and proved once for all inputs.

use vstd::prelude::*;
use crate::pitch::Pitch;
use crate::ranges::VoiceRanges;
use crate::voicing::{ChordSpec, Voicing, covers_chord_tones, lex_before};
use crate::generate::{has_tone_class, note_ok, is_candidate};
use crate::score::{
    doubling_spec, spacing_spec, comfort_spec, motion_spec, contrary_spec, has_parallel,
    score_spec,
};
use crate::realize::{prev_of, is_chosen};

verus! {

/// Invariant preservation and range containment: every candidate
/// voicing — so in particular every voicing of a successful
/// realization — keeps its voices in order soprano >= alto >= tenor
/// >= bass, keeps both upper gaps within an octave, covers all
/// required chord-tone pitch classes, holds each upper voice inside
/// its own range, and carries the chord's own bass.
pub proof fn lemma_candidate_invariants(v: Voicing, bass: Pitch, tones: Seq<Pitch>, rs: VoiceRanges)
    requires
        is_candidate(v, bass, tones, rs),
    ensures
        v.soprano.midi_number >= v.alto.midi_number,
        v.alto.midi_number >= v.tenor.midi_number,
        v.tenor.midi_number >= v.bass.midi_number,
        v.soprano.midi_number - v.alto.midi_number <= 12,
        v.alto.midi_number - v.tenor.midi_number <= 12,
        covers_chord_tones(v, tones),
        rs.soprano.min <= v.soprano.midi_number <= rs.soprano.max,
        rs.alto.min <= v.alto.midi_number <= rs.alto.max,
        rs.tenor.min <= v.tenor.midi_number <= rs.tenor.max,
        v.bass == bass,
{
}

/// A chord tone reachable only exactly at a range's endpoint still
/// belongs to that voice's candidate list: the boundary note numbers
/// satisfy `note_ok`, and `get_notes_in_range` returns every note
/// number that satisfies it.
pub proof fn lemma_boundary_inclusion(tones: Seq<Pitch>, min: u8, max: u8)
    requires
        min <= max,
    ensures
        has_tone_class(tones, min) ==> note_ok(min, tones, min, max),
        has_tone_class(tones, max) ==> note_ok(max, tones, min, max),
{
}

/// Parallel-fifth and parallel-octave detection: of two otherwise
/// identically scored candidates following the same previous voicing,
/// the one whose motion from the previous voicing contains forbidden
/// parallels scores exactly 10000 tenths lower than the one whose
/// motion does not.
pub proof fn lemma_parallel_fifth_penalty(
    prev: Voicing,
    faulty: Voicing,
    clean: Voicing,
    root: Pitch,
    rs: VoiceRanges,
)
    requires
        has_parallel(prev, faulty),
        !has_parallel(prev, clean),
        doubling_spec(faulty, root) == doubling_spec(clean, root),
        spacing_spec(faulty) == spacing_spec(clean),
        comfort_spec(faulty, rs) == comfort_spec(clean, rs),
        motion_spec(prev, faulty) == motion_spec(prev, clean),
        contrary_spec(prev, faulty) == contrary_spec(prev, clean),
    ensures
        score_spec(faulty, Option::Some(prev), root, rs) == score_spec(
            clean,
            Option::Some(prev),
            root,
            rs,
        ) - 10000,
{
}

/// At most one voicing can be the chosen one for a chord in a given
/// context: maximality forces equal scores, and the tie-break clause
/// would otherwise order each strictly before the other.
pub proof fn lemma_chosen_unique(
    b1: Voicing,
    b2: Voicing,
    bass: Pitch,
    tones: Seq<Pitch>,
    prev: Option<Voicing>,
    rs: VoiceRanges,
)
    requires
        is_chosen(b1, bass, tones, prev, rs),
        is_chosen(b2, bass, tones, prev, rs),
    ensures
        b1 == b2,
{
    assert(score_spec(b1, prev, bass, rs) <= score_spec(b2, prev, bass, rs));
    assert(score_spec(b2, prev, bass, rs) <= score_spec(b1, prev, bass, rs));
    if b1 != b2 {
        assert(lex_before(b1, b2));
        assert(lex_before(b2, b1));
        assert(false);
    }
}

/// Determinism: two output sequences that both satisfy the realizer's
/// success contract for the same input sequence and ranges agree on
/// every position. The realization is a function of its input alone.
pub proof fn lemma_realize_deterministic(
    symbols: Seq<ChordSpec>,
    out1: Seq<Voicing>,
    out2: Seq<Voicing>,
    rs: VoiceRanges,
)
    requires
        out1.len() == symbols.len(),
        out2.len() == symbols.len(),
        forall|i: int|
            0 <= i < symbols.len() ==> is_chosen(
                #[trigger] out1[i],
                symbols[i].bass,
                symbols[i].chord_tones@,
                prev_of(out1, i),
                rs,
            ),
        forall|i: int|
            0 <= i < symbols.len() ==> is_chosen(
                #[trigger] out2[i],
                symbols[i].bass,
                symbols[i].chord_tones@,
                prev_of(out2, i),
                rs,
            ),
    ensures
        out1 =~= out2,
{
    lemma_prefix_deterministic(symbols, out1, out2, rs, symbols.len() as int);
}

/// Positions before `n` agree, by induction on `n`: equal previous
/// contexts admit only one chosen voicing.
proof fn lemma_prefix_deterministic(
    symbols: Seq<ChordSpec>,
    out1: Seq<Voicing>,
    out2: Seq<Voicing>,
    rs: VoiceRanges,
    n: int,
)
    requires
        out1.len() == symbols.len(),
        out2.len() == symbols.len(),
        0 <= n <= symbols.len(),
        forall|i: int|
            0 <= i < symbols.len() ==> is_chosen(
                #[trigger] out1[i],
                symbols[i].bass,
                symbols[i].chord_tones@,
                prev_of(out1, i),
                rs,
            ),
        forall|i: int|
            0 <= i < symbols.len() ==> is_chosen(
                #[trigger] out2[i],
                symbols[i].bass,
                symbols[i].chord_tones@,
                prev_of(out2, i),
                rs,
            ),
    ensures
        forall|j: int| 0 <= j < n ==> out1[j] == out2[j],
    decreases n,
{
    if n > 0 {
        lemma_prefix_deterministic(symbols, out1, out2, rs, n - 1);
        assert(prev_of(out1, n - 1) == prev_of(out2, n - 1));
        lemma_chosen_unique(
            out1[n - 1],
            out2[n - 1],
            symbols[n - 1].bass,
            symbols[n - 1].chord_tones@,
            prev_of(out1, n - 1),
            rs,
        );
    }
}

} // verus!
