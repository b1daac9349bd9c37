//! Per-voice pitch ranges, passed explicitly into generation and scoring.

use vstd::prelude::*;

verus! {

/// An inclusive absolute pitch range for one voice.
#[derive(Clone, Copy, Debug, PartialEq, Eq, Structural)]
pub struct VoiceRange {
    pub min: u8,
    pub max: u8,
}

/// The four per-voice ranges, one configuration value for a whole
/// realization. Kept explicit rather than global so that alternative
/// voicing schemes can supply their own ranges.
#[derive(Clone, Copy, Debug, PartialEq, Eq, Structural)]
pub struct VoiceRanges {
    pub soprano: VoiceRange,
    pub alto: VoiceRange,
    pub tenor: VoiceRange,
    pub bass: VoiceRange,
}

/// The midpoint of a range, by integer average of its endpoints; the
/// comfort heuristic measures distance from it.
pub open spec fn range_mid(r: VoiceRange) -> int {
    (r.min + r.max) as int / 2
}

/// A range is well formed when its minimum does not exceed its maximum.
pub open spec fn range_wf(r: VoiceRange) -> bool {
    r.min <= r.max
}

/// All four ranges well formed.
pub open spec fn ranges_wf(rs: VoiceRanges) -> bool {
    range_wf(rs.soprano) && range_wf(rs.alto) && range_wf(rs.tenor) && range_wf(rs.bass)
}

impl VoiceRanges {
    /// The standard choral ranges: soprano 60..=79, alto 55..=72,
    /// tenor 48..=67, bass 40..=60.
    pub fn standard() -> (r: VoiceRanges)
        ensures
            r.soprano == (VoiceRange { min: 60, max: 79 }),
            r.alto == (VoiceRange { min: 55, max: 72 }),
            r.tenor == (VoiceRange { min: 48, max: 67 }),
            r.bass == (VoiceRange { min: 40, max: 60 }),
            ranges_wf(r),
    {
        VoiceRanges {
            soprano: VoiceRange { min: 60, max: 79 },
            alto: VoiceRange { min: 55, max: 72 },
            tenor: VoiceRange { min: 48, max: 67 },
            bass: VoiceRange { min: 40, max: 60 },
        }
    }
}

} // verus!
