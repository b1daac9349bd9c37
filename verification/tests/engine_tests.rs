use basso_continuo::generate::{generate_voicings, get_notes_in_range, is_valid_voicing};
use basso_continuo::realize::realize_figured_bass;
use basso_continuo::score::{
    contrary_motion_bonus, doubling_score, parallel_motion_penalty, range_comfort_score,
    score_voicing, spacing_score, voice_motion_score,
};
use basso_continuo::{ChordSpec, Pitch, RealizeError, VoiceRanges, Voicing};

fn pitches(values: &[u8]) -> Vec<Pitch> {
    values.iter().map(|&m| Pitch::new(m)).collect()
}

fn chord(bass: u8, tones: &[u8]) -> ChordSpec {
    ChordSpec { bass: Pitch::new(bass), chord_tones: pitches(tones) }
}

fn voicing(s: u8, a: u8, t: u8, b: u8) -> Voicing {
    Voicing {
        soprano: Pitch::new(s),
        alto: Pitch::new(a),
        tenor: Pitch::new(t),
        bass: Pitch::new(b),
    }
}

fn assert_invariants(v: &Voicing, tones: &[u8], ranges: &VoiceRanges) {
    let s = v.soprano.semitones();
    let a = v.alto.semitones();
    let t = v.tenor.semitones();
    let b = v.bass.semitones();
    assert!(s >= a && a >= t && t >= b, "voices crossed");
    assert!(s - a <= 12, "soprano-alto gap over an octave");
    assert!(a - t <= 12, "alto-tenor gap over an octave");
    let classes = [s % 12, a % 12, t % 12, b % 12];
    for &tone in tones {
        assert!(classes.contains(&((tone % 12) as i16)), "chord tone not covered");
    }
    assert!(ranges.soprano.min as i16 <= s && s <= ranges.soprano.max as i16);
    assert!(ranges.alto.min as i16 <= a && a <= ranges.alto.max as i16);
    assert!(ranges.tenor.min as i16 <= t && t <= ranges.tenor.max as i16);
}

#[test]
fn pitch_basics() {
    let p = Pitch::new(60);
    assert_eq!(p.semitones(), 60);
    assert_eq!(p.name(), "C4");
    assert_eq!(Pitch::new(61).name(), "C#4");
    assert_eq!(Pitch::new(48).name(), "C3");
    assert_eq!(Pitch::new(0).name(), "C-1");
    assert_eq!(Pitch::new(127).name(), "G9");
    assert_eq!(Pitch::new(70).name(), "A#4");
}

#[test]
fn notes_in_range_sorted_and_complete() {
    let tones = pitches(&[48, 52, 55]);
    let notes = get_notes_in_range(&tones, 48, 67);
    let values: Vec<u8> = notes.iter().map(|p| p.midi_number).collect();
    assert_eq!(values, vec![48, 52, 55, 60, 64, 67]);
}

#[test]
fn notes_in_range_includes_minimum_boundary() {
    // Pitch class 0 is reachable in [60, 71] only at 60, the minimum.
    let tones = pitches(&[48]);
    let notes = get_notes_in_range(&tones, 60, 71);
    let values: Vec<u8> = notes.iter().map(|p| p.midi_number).collect();
    assert_eq!(values, vec![60]);
}

#[test]
fn notes_in_range_includes_maximum_boundary() {
    // Pitch class 0 is reachable in [62, 72] only at 72, the maximum.
    let tones = pitches(&[48]);
    let notes = get_notes_in_range(&tones, 62, 72);
    let values: Vec<u8> = notes.iter().map(|p| p.midi_number).collect();
    assert_eq!(values, vec![72]);
}

#[test]
fn notes_in_range_empty_when_no_tones() {
    let tones = pitches(&[]);
    let notes = get_notes_in_range(&tones, 60, 79);
    assert!(notes.is_empty());
}

#[test]
fn valid_voicing_accepts_good_voicing() {
    let tones = pitches(&[48, 52, 55]);
    assert!(is_valid_voicing(&voicing(64, 60, 55, 48), &tones));
}

#[test]
fn valid_voicing_rejects_crossing() {
    let tones = pitches(&[48, 52, 55]);
    assert!(!is_valid_voicing(&voicing(60, 64, 55, 48), &tones));
}

#[test]
fn valid_voicing_rejects_wide_gap() {
    let tones = pitches(&[48, 52, 55]);
    // Soprano-alto gap of 17 semitones.
    assert!(!is_valid_voicing(&voicing(76, 59, 55, 48), &tones));
}

#[test]
fn valid_voicing_rejects_missing_tone() {
    let tones = pitches(&[48, 52, 55]);
    // No voice sounds pitch class 4 (E).
    assert!(!is_valid_voicing(&voicing(72, 67, 60, 48), &tones));
}

#[test]
fn generated_candidates_are_valid_and_ordered() {
    let symbol = chord(48, &[48, 52, 55]);
    let ranges = VoiceRanges::standard();
    let candidates = generate_voicings(&symbol, &ranges);
    assert!(!candidates.is_empty());
    for v in &candidates {
        assert_invariants(v, &[48, 52, 55], &ranges);
        assert_eq!(v.bass.midi_number, 48);
    }
    for pair in candidates.windows(2) {
        let x = (pair[0].soprano.midi_number, pair[0].alto.midi_number, pair[0].tenor.midi_number);
        let y = (pair[1].soprano.midi_number, pair[1].alto.midi_number, pair[1].tenor.midi_number);
        assert!(x < y, "candidates out of canonical order");
    }
}

#[test]
fn doubling_rewards_each_root_class_voice() {
    // Soprano 72 and bass 48 both carry the root's class.
    let v = voicing(72, 64, 55, 48);
    assert_eq!(doubling_score(&v, Pitch::new(48)), 200);
}

#[test]
fn spacing_penalizes_only_gaps_over_a_fifth() {
    // Soprano-alto gap 12 costs 20 * 5; alto-tenor gap 7 costs nothing.
    let v = voicing(79, 67, 60, 48);
    assert_eq!(spacing_score(&v), -100);
    let comfortable = voicing(67, 64, 60, 48);
    assert_eq!(spacing_score(&comfortable), 0);
}

#[test]
fn comfort_measures_distance_from_midpoints() {
    // Midpoints of the standard ranges are 69, 63 and 57.
    let centered = voicing(69, 63, 57, 48);
    let ranges = VoiceRanges::standard();
    assert_eq!(range_comfort_score(&centered, &ranges), 0);
    let displaced = voicing(72, 63, 57, 48);
    assert_eq!(range_comfort_score(&displaced, &ranges), -3);
}

#[test]
fn parallel_fifth_is_detected() {
    // Soprano and alto hold a perfect fifth and move up together.
    let prev = voicing(67, 60, 55, 48);
    let parallel = voicing(69, 62, 55, 48);
    assert_eq!(parallel_motion_penalty(&prev, &parallel), -10000);
}

#[test]
fn parallel_octave_is_detected() {
    // Soprano and tenor hold an octave and move up together.
    let prev = voicing(67, 60, 55, 48);
    let parallel = voicing(69, 60, 57, 48);
    assert_eq!(parallel_motion_penalty(&prev, &parallel), -10000);
}

#[test]
fn oblique_fifth_is_not_parallel() {
    // The fifth survives only through voices that do not both move.
    let prev = voicing(67, 60, 55, 48);
    let oblique = voicing(67, 62, 55, 48);
    assert_eq!(parallel_motion_penalty(&prev, &oblique), 0);
}

#[test]
fn parallel_candidate_scores_a_thousand_points_lower() {
    // Two candidates after the same voicing, alike in every other
    // term; the parallel one must come out 10000 tenths behind.
    let prev = voicing(67, 60, 55, 48);
    let parallel = voicing(69, 62, 55, 48);
    let root = Pitch::new(50);
    let ranges = VoiceRanges::standard();
    let with = score_voicing(&parallel, Some(&prev), root, &ranges);
    let without = doubling_score(&parallel, root) + spacing_score(&parallel)
        + range_comfort_score(&parallel, &ranges) + voice_motion_score(&prev, &parallel)
        + contrary_motion_bonus(&prev, &parallel);
    assert_eq!(with, without - 10000);
}

#[test]
fn motion_counts_upper_voices_only() {
    let prev = voicing(67, 60, 55, 48);
    let next = voicing(69, 61, 55, 41);
    // Soprano moves 2, alto 1, tenor 0; bass motion is free.
    assert_eq!(voice_motion_score(&prev, &next), -15);
}

#[test]
fn contrary_motion_of_outer_voices_earns_bonus() {
    let prev = voicing(67, 60, 55, 48);
    assert_eq!(contrary_motion_bonus(&prev, &voicing(69, 60, 55, 46)), 50);
    assert_eq!(contrary_motion_bonus(&prev, &voicing(69, 60, 55, 50)), 0);
    assert_eq!(contrary_motion_bonus(&prev, &voicing(67, 60, 55, 46)), 0);
}

#[test]
fn score_is_the_sum_of_its_terms() {
    let prev = voicing(67, 60, 55, 48);
    let v = voicing(69, 64, 60, 50);
    let root = Pitch::new(50);
    let ranges = VoiceRanges::standard();
    let expected = doubling_score(&v, root) + spacing_score(&v)
        + range_comfort_score(&v, &ranges) + parallel_motion_penalty(&prev, &v)
        + voice_motion_score(&prev, &v) + contrary_motion_bonus(&prev, &v);
    assert_eq!(score_voicing(&v, Some(&prev), root, &ranges), expected);
    let static_only = doubling_score(&v, root) + spacing_score(&v)
        + range_comfort_score(&v, &ranges);
    assert_eq!(score_voicing(&v, None, root, &ranges), static_only);
}

#[test]
fn realize_end_to_end_progression() {
    let progression = vec![
        chord(48, &[48, 52, 55]),
        chord(53, &[53, 57, 60]),
        chord(55, &[55, 59, 62]),
        chord(48, &[48, 52, 55]),
    ];
    let tone_sets: [&[u8]; 4] = [&[48, 52, 55], &[53, 57, 60], &[55, 59, 62], &[48, 52, 55]];
    let ranges = VoiceRanges::standard();
    let out = realize_figured_bass(&progression, &ranges).expect("progression should realize");
    assert_eq!(out.len(), 4);
    for (i, v) in out.iter().enumerate() {
        assert_invariants(v, tone_sets[i], &ranges);
        assert_eq!(v.bass.midi_number, progression[i].bass.midi_number);
    }
    for pair in out.windows(2) {
        assert_eq!(
            parallel_motion_penalty(&pair[0], &pair[1]),
            0,
            "selected sequence contains forbidden parallels"
        );
    }
}

#[test]
fn realize_is_deterministic() {
    let progression = vec![
        chord(48, &[48, 52, 55]),
        chord(53, &[53, 57, 60]),
        chord(55, &[55, 59, 62]),
        chord(48, &[48, 52, 55]),
    ];
    let ranges = VoiceRanges::standard();
    let first = realize_figured_bass(&progression, &ranges).expect("should realize");
    let second = realize_figured_bass(&progression, &ranges).expect("should realize");
    assert_eq!(first, second);
}

#[test]
fn realize_of_empty_progression_is_empty() {
    let progression: Vec<ChordSpec> = Vec::new();
    let ranges = VoiceRanges::standard();
    let out = realize_figured_bass(&progression, &ranges).expect("empty input realizes");
    assert!(out.is_empty());
}

#[test]
fn unplaceable_chord_fails_with_its_index() {
    // Five distinct required pitch classes can never be covered by
    // four voices.
    let progression = vec![chord(48, &[48, 49, 50, 51, 52])];
    let ranges = VoiceRanges::standard();
    let err = realize_figured_bass(&progression, &ranges).expect_err("must fail");
    assert_eq!(err, RealizeError::NoValidVoicing(0));
}

#[test]
fn failure_names_the_later_chord_and_yields_no_output() {
    let progression = vec![chord(48, &[48, 52, 55]), chord(48, &[48, 49, 50, 51, 52])];
    let ranges = VoiceRanges::standard();
    let err = realize_figured_bass(&progression, &ranges).expect_err("must fail");
    assert_eq!(err, RealizeError::NoValidVoicing(1));
}

#[test]
fn chord_without_tones_has_no_voicing() {
    let progression = vec![chord(48, &[])];
    let ranges = VoiceRanges::standard();
    let err = realize_figured_bass(&progression, &ranges).expect_err("must fail");
    assert_eq!(err, RealizeError::NoValidVoicing(0));
}
