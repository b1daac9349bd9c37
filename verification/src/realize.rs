//! Greedy chord-by-chord realization of a whole progression.

use vstd::prelude::*;
use crate::pitch::Pitch;
use crate::ranges::VoiceRanges;
use crate::voicing::{ChordSpec, Voicing, lex_before};
use crate::generate::{generate_voicings, is_candidate};
use crate::score::{score_spec, score_voicing, prev_view};

verus! {

/// The one failure of realization: the chord at the carried index has
/// no structurally valid voicing, so the whole progression is refused.
#[derive(Clone, Copy, Debug, PartialEq, Eq, Structural)]
pub enum RealizeError {
    NoValidVoicing(usize),
}

/// The previous-voicing context for chord `i` of an output sequence:
/// nothing before the first chord, else the voicing chosen for `i - 1`.
pub open spec fn prev_of(out: Seq<Voicing>, i: int) -> Option<Voicing> {
    if i == 0 {
        Option::None
    } else {
        Option::Some(out[i - 1])
    }
}

/// The chord has at least one structurally valid candidate voicing.
pub open spec fn some_candidate(sym: ChordSpec, rs: VoiceRanges) -> bool {
    exists|w: Voicing| is_candidate(w, sym.bass, sym.chord_tones@, rs)
}

/// The voicing the realizer owes for one chord: a candidate that scores
/// at least as high as every candidate, and that precedes every other
/// equally scored candidate in the canonical generation order. The
/// chord's own bass serves as the root handed to the scorer.
pub open spec fn is_chosen(
    b: Voicing,
    bass: Pitch,
    tones: Seq<Pitch>,
    prev: Option<Voicing>,
    rs: VoiceRanges,
) -> bool {
    &&& is_candidate(b, bass, tones, rs)
    &&& forall|w: Voicing|
        #[trigger] is_candidate(w, bass, tones, rs) ==> score_spec(w, prev, bass, rs) <= score_spec(
            b,
            prev,
            bass,
            rs,
        )
    &&& forall|w: Voicing|
        #[trigger] is_candidate(w, bass, tones, rs) && w != b && score_spec(w, prev, bass, rs)
            == score_spec(b, prev, bass, rs) ==> lex_before(b, w)
}

/// Picks the best-scoring voicing from a non-empty candidate list,
/// ties going to the earliest candidate; when the list is strictly
/// ordered, that is the `lex_before`-least of the equally scored.
#[verifier::loop_isolation(false)]
fn select_best(candidates: &Vec<Voicing>, prev: Option<&Voicing>, bass: Pitch, ranges: &VoiceRanges)
    -> (r: Voicing)
    requires
        candidates@.len() > 0,
        forall|k: int|
            0 <= k < candidates@.len() ==> (#[trigger] candidates@[k]).soprano.midi_number
                >= candidates@[k].alto.midi_number && candidates@[k].alto.midi_number
                >= candidates@[k].tenor.midi_number,
        forall|k1: int, k2: int|
            0 <= k1 < k2 < candidates@.len() ==> lex_before(candidates@[k1], candidates@[k2]),
    ensures
        candidates@.contains(r),
        forall|j: int|
            0 <= j < candidates@.len() ==> score_spec(
                #[trigger] candidates@[j],
                prev_view(prev),
                bass,
                *ranges,
            ) <= score_spec(r, prev_view(prev), bass, *ranges),
        forall|j: int|
            0 <= j < candidates@.len() && candidates@[j] != r && score_spec(
                #[trigger] candidates@[j],
                prev_view(prev),
                bass,
                *ranges,
            ) == score_spec(r, prev_view(prev), bass, *ranges) ==> lex_before(r, candidates@[j]),
{
    let ghost rs = *ranges;
    let ghost prevv = prev_view(prev);
    let mut best: Voicing = candidates[0];
    let ghost mut best_idx: int = 0;
    let mut best_score: i32 = score_voicing(&candidates[0], prev, bass, ranges);
    let mut k: usize = 1;
    while k < candidates.len()
        invariant
            1 <= k <= candidates@.len(),
            0 <= best_idx < k,
            best == candidates@[best_idx],
            best_score as int == score_spec(best, prevv, bass, rs),
            forall|j: int|
                0 <= j < k ==> score_spec(#[trigger] candidates@[j], prevv, bass, rs)
                    <= best_score as int,
            forall|j: int|
                0 <= j < best_idx ==> score_spec(#[trigger] candidates@[j], prevv, bass, rs)
                    < best_score as int,
        decreases candidates@.len() - k,
    {
        let sc = score_voicing(&candidates[k], prev, bass, ranges);
        if sc > best_score {
            best = candidates[k];
            best_score = sc;
            proof {
                best_idx = k as int;
            }
        }
        k += 1;
    }
    proof {
        assert forall|j: int|
            0 <= j < candidates@.len() && candidates@[j] != best && score_spec(
                #[trigger] candidates@[j],
                prevv,
                bass,
                rs,
            ) == score_spec(best, prevv, bass, rs) implies lex_before(best, candidates@[j]) by {
            assert(j != best_idx);
            assert(j > best_idx);
            assert(lex_before(candidates@[best_idx], candidates@[j]));
        }
        assert(candidates@[best_idx] == best);
    }
    best
}

/// Generates and selects the voicing for one chord against the
/// previous context; `None` exactly when the chord has no candidate.
#[verifier::rlimit(50)]
fn realize_step(symbol: &ChordSpec, prev: Option<&Voicing>, ranges: &VoiceRanges) -> (r: Option<
    Voicing,
>)
    ensures
        match r {
            Option::Some(b) => is_chosen(
                b,
                symbol.bass,
                symbol.chord_tones@,
                prev_view(prev),
                *ranges,
            ),
            Option::None => forall|w: Voicing|
                !is_candidate(w, symbol.bass, symbol.chord_tones@, *ranges),
        },
{
    let ghost rs = *ranges;
    let ghost prevv = prev_view(prev);
    let candidates = generate_voicings(symbol, ranges);
    if candidates.len() == 0 {
        proof {
            assert forall|w: Voicing| !is_candidate(w, symbol.bass, symbol.chord_tones@, rs) by {
                if is_candidate(w, symbol.bass, symbol.chord_tones@, rs) {
                    assert(candidates@.contains(w));
                }
            }
        }
        return Option::None;
    }
    proof {
        assert forall|k: int| 0 <= k < candidates@.len() implies (
        #[trigger] candidates@[k]).soprano.midi_number >= candidates@[k].alto.midi_number
            && candidates@[k].alto.midi_number >= candidates@[k].tenor.midi_number by {
            assert(is_candidate(candidates@[k], symbol.bass, symbol.chord_tones@, rs));
        }
    }
    let bass = symbol.bass;
    let best: Voicing = select_best(&candidates, prev, bass, ranges);
    proof {
        let jb = choose|jb: int| 0 <= jb < candidates@.len() && candidates@[jb] == best;
        assert(is_candidate(best, symbol.bass, symbol.chord_tones@, rs));
        assert forall|w: Voicing|
            #[trigger] is_candidate(w, symbol.bass, symbol.chord_tones@, rs) implies score_spec(
            w,
            prevv,
            bass,
            rs,
        ) <= score_spec(best, prevv, bass, rs) by {
            assert(candidates@.contains(w));
            let jw = choose|jw: int| 0 <= jw < candidates@.len() && candidates@[jw] == w;
            assert(score_spec(candidates@[jw], prevv, bass, rs) <= score_spec(
                best,
                prevv,
                bass,
                rs,
            ));
        }
        assert forall|w: Voicing|
            #[trigger] is_candidate(w, symbol.bass, symbol.chord_tones@, rs) && w != best
                && score_spec(w, prevv, bass, rs) == score_spec(best, prevv, bass, rs) implies
            lex_before(best, w) by {
            assert(candidates@.contains(w));
            let jw = choose|jw: int| 0 <= jw < candidates@.len() && candidates@[jw] == w;
            assert(lex_before(best, candidates@[jw]));
        }
    }
    Option::Some(best)
}

/// Realizes a progression: for each chord in order, generates every
/// candidate voicing, scores each against the previously chosen voicing
/// and the chord's bass, and keeps the best, ties going to the first
/// candidate in canonical generation order.
///
/// Succeeds exactly when every chord has at least one candidate; the
/// first chord without one aborts the whole realization, naming its
/// index, and no partial output is produced.
#[verifier::rlimit(30)]
pub fn realize_figured_bass(symbols: &Vec<ChordSpec>, ranges: &VoiceRanges) -> (r: Result<
    Vec<Voicing>,
    RealizeError,
>)
    ensures
        match r {
            Result::Ok(out) => {
                &&& out@.len() == symbols@.len()
                &&& forall|i: int|
                    0 <= i < symbols@.len() ==> is_chosen(
                        #[trigger] out@[i],
                        symbols@[i].bass,
                        symbols@[i].chord_tones@,
                        prev_of(out@, i),
                        *ranges,
                    )
            },
            Result::Err(e) => match e {
                RealizeError::NoValidVoicing(idx) => {
                    &&& idx < symbols@.len()
                    &&& !some_candidate(symbols@[idx as int], *ranges)
                    &&& forall|j: int|
                        0 <= j < idx ==> some_candidate(#[trigger] symbols@[j], *ranges)
                },
            },
        },
        (r is Ok) <==> (forall|i: int|
            0 <= i < symbols@.len() ==> some_candidate(#[trigger] symbols@[i], *ranges)),
{
    let mut result: Vec<Voicing> = Vec::new();
    let mut failed: bool = false;
    let mut i: usize = 0;
    while i < symbols.len()
        invariant_except_break
            !failed,
        invariant
            i <= symbols@.len(),
            result@.len() == i,
            forall|j: int|
                0 <= j < i ==> is_chosen(
                    #[trigger] result@[j],
                    symbols@[j].bass,
                    symbols@[j].chord_tones@,
                    prev_of(result@, j),
                    *ranges,
                ),
        ensures
            failed ==> i < symbols@.len() && forall|w: Voicing|
                !is_candidate(w, symbols@[i as int].bass, symbols@[i as int].chord_tones@, *ranges),
            !failed ==> i == symbols@.len(),
        decreases symbols@.len() - i,
    {
        let symbol = &symbols[i];
        let prev: Option<&Voicing> = if i > 0 {
            Option::Some(&result[i - 1])
        } else {
            Option::None
        };
        let ghost prevv = prev_view(prev);
        let step = realize_step(symbol, prev, ranges);
        match step {
            Option::None => {
                failed = true;
                break;
            },
            Option::Some(best) => {
                result.push(best);
                proof {
                    assert(prevv == prev_of(result@, i as int));
                    assert forall|j: int| 0 <= j < i + 1 implies is_chosen(
                        #[trigger] result@[j],
                        symbols@[j].bass,
                        symbols@[j].chord_tones@,
                        prev_of(result@, j),
                        *ranges,
                    ) by {
                        if j < i {
                            assert(result@[j] == result@.subrange(0, i as int)[j]);
                            assert(prev_of(result@, j) == prev_of(
                                result@.subrange(0, i as int),
                                j,
                            ));
                        }
                    }
                }
            },
        }
        i += 1;
    }
    proof {
        assert forall|j: int| 0 <= j < i implies some_candidate(#[trigger] symbols@[j], *ranges) by {
            assert(is_candidate(result@[j], symbols@[j].bass, symbols@[j].chord_tones@, *ranges));
        }
    }
    if failed {
        proof {
            if some_candidate(symbols@[i as int], *ranges) {
                let w0 = choose|w: Voicing|
                    is_candidate(
                        w,
                        symbols@[i as int].bass,
                        symbols@[i as int].chord_tones@,
                        *ranges,
                    );
                assert(false);
            }
        }
        return Result::Err(RealizeError::NoValidVoicing(i));
    }
    Result::Ok(result)
}

} // verus!
