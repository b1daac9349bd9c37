//! Absolute pitches and pitch-class arithmetic.

use vstd::prelude::*;
use vstd::string::StringExecFns;

verus! {

/// One absolute pitch, counted in semitones on the standard note-number
/// scale where 60 is middle C.
#[derive(Clone, Copy, Debug, PartialEq, Eq, Structural)]
pub struct Pitch {
    pub midi_number: u8,
}

/// The pitch class of a note number: its identity modulo 12 semitones.
pub open spec fn pitch_class(m: u8) -> int {
    (m as int) % 12
}

/// The letter part of a pitch name, as characters.
pub open spec fn note_chars(c: int) -> Seq<char> {
    if c == 0 {
        seq!['C']
    } else if c == 1 {
        seq!['C', '#']
    } else if c == 2 {
        seq!['D']
    } else if c == 3 {
        seq!['D', '#']
    } else if c == 4 {
        seq!['E']
    } else if c == 5 {
        seq!['F']
    } else if c == 6 {
        seq!['F', '#']
    } else if c == 7 {
        seq!['G']
    } else if c == 8 {
        seq!['G', '#']
    } else if c == 9 {
        seq!['A']
    } else if c == 10 {
        seq!['A', '#']
    } else {
        seq!['B']
    }
}

/// The octave part of a pitch name, as characters. The argument is the
/// note number divided by 12; octave numbering starts at -1, so note
/// numbers 0 through 11 print as octave -1 and 60 prints as octave 4.
pub open spec fn octave_chars(o: int) -> Seq<char> {
    if o == 0 {
        seq!['-', '1']
    } else if o == 1 {
        seq!['0']
    } else if o == 2 {
        seq!['1']
    } else if o == 3 {
        seq!['2']
    } else if o == 4 {
        seq!['3']
    } else if o == 5 {
        seq!['4']
    } else if o == 6 {
        seq!['5']
    } else if o == 7 {
        seq!['6']
    } else if o == 8 {
        seq!['7']
    } else if o == 9 {
        seq!['8']
    } else {
        seq!['9']
    }
}

/// The display name of a note number: letter followed by octave.
pub open spec fn pitch_name_chars(m: u8) -> Seq<char> {
    note_chars(pitch_class(m)) + octave_chars(m as int / 12)
}

impl Pitch {
    /// Constructs a pitch from its absolute note number. No range is
    /// enforced here: range constraints belong to voicing generation.
    pub fn new(midi_number: u8) -> (r: Pitch)
        ensures
            r.midi_number == midi_number,
    {
        Pitch { midi_number }
    }

    /// The absolute semitone value.
    pub fn semitones(&self) -> (r: i16)
        ensures
            r == self.midi_number as i16,
    {
        self.midi_number as i16
    }

    /// The display name, octave included: note number 60 is "C4".
    /// Display only; the realization logic never reads names.
    pub fn name(&self) -> (r: String)
        requires
            self.midi_number <= 127,
        ensures
            r@ == pitch_name_chars(self.midi_number),
    {
        let c: u8 = self.midi_number % 12;
        let note: &str = if c == 0 {
            "C"
        } else if c == 1 {
            "C#"
        } else if c == 2 {
            "D"
        } else if c == 3 {
            "D#"
        } else if c == 4 {
            "E"
        } else if c == 5 {
            "F"
        } else if c == 6 {
            "F#"
        } else if c == 7 {
            "G"
        } else if c == 8 {
            "G#"
        } else if c == 9 {
            "A"
        } else if c == 10 {
            "A#"
        } else {
            "B"
        };
        proof {
            reveal_strlit("C");
            reveal_strlit("C#");
            reveal_strlit("D");
            reveal_strlit("D#");
            reveal_strlit("E");
            reveal_strlit("F");
            reveal_strlit("F#");
            reveal_strlit("G");
            reveal_strlit("G#");
            reveal_strlit("A");
            reveal_strlit("A#");
            reveal_strlit("B");
            assert(note@ == note_chars(pitch_class(self.midi_number)));
        }
        let o: u8 = self.midi_number / 12;
        let octave: &str = if o == 0 {
            "-1"
        } else if o == 1 {
            "0"
        } else if o == 2 {
            "1"
        } else if o == 3 {
            "2"
        } else if o == 4 {
            "3"
        } else if o == 5 {
            "4"
        } else if o == 6 {
            "5"
        } else if o == 7 {
            "6"
        } else if o == 8 {
            "7"
        } else if o == 9 {
            "8"
        } else {
            "9"
        };
        proof {
            reveal_strlit("-1");
            reveal_strlit("0");
            reveal_strlit("1");
            reveal_strlit("2");
            reveal_strlit("3");
            reveal_strlit("4");
            reveal_strlit("5");
            reveal_strlit("6");
            reveal_strlit("7");
            reveal_strlit("8");
            reveal_strlit("9");
            assert(octave@ == octave_chars(self.midi_number as int / 12));
        }
        let mut s: String = String::from_str(note);
        s.append(octave);
        s
    }
}

} // verus!
