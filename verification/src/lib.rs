//! Four-voice realization of figured-bass progressions.
//!
//! Given a sequence of chords (a bass pitch plus the required chord-tone
//! pitch classes), the library enumerates every structurally valid
//! soprano/alto/tenor/bass voicing of each chord, scores the candidates
//! with classical voice-leading heuristics, and greedily selects the best
//! voicing chord by chord, carrying the previous choice forward.

pub mod pitch;
pub mod ranges;
pub mod voicing;
pub mod generate;
pub mod score;
pub mod realize;
pub mod laws;

pub use pitch::Pitch;
pub use ranges::VoiceRange;
pub use ranges::VoiceRanges;
pub use voicing::ChordSpec;
pub use voicing::Voicing;
pub use realize::RealizeError;
