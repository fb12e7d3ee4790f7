//! Letter-and-octave naming of MIDI note numbers.
//!
//! Note number 0 is C in octave -1, and each octave spans twelve consecutive
//! note numbers, so note 60 is C in octave 4.

use vstd::prelude::*;

verus! {

/// The letter representation for each step in the 12-tone, equal temperament,
/// chromatic scale.
#[derive(Copy, Clone, Debug, Hash, PartialEq, Eq)]
pub enum Letter { C, Csh, D, Dsh, E, F, Fsh, G, Gsh, A, Ash, B }

/// A musical pitch as a letter plus an octave number.
#[derive(Copy, Clone, Debug, Hash, PartialEq, Eq)]
pub struct LetterOctave(pub Letter, pub i32);

/// The letter whose position within the chromatic scale is `k`, where 0 is C,
/// 1 is C sharp, and so on up to 11 for B.
pub open spec fn spec_letter(k: int) -> Letter {
    if k == 0 { Letter::C }
    else if k == 1 { Letter::Csh }
    else if k == 2 { Letter::D }
    else if k == 3 { Letter::Dsh }
    else if k == 4 { Letter::E }
    else if k == 5 { Letter::F }
    else if k == 6 { Letter::Fsh }
    else if k == 7 { Letter::G }
    else if k == 8 { Letter::Gsh }
    else if k == 9 { Letter::A }
    else if k == 10 { Letter::Ash }
    else { Letter::B }
}

/// The letter and octave named by the given MIDI note number: the letter is
/// the note's position within its octave, and octave numbering starts with
/// octave -1 at note 0.
pub open spec fn spec_letter_octave(note: u8) -> LetterOctave {
    LetterOctave(spec_letter(note as int % 12), (note as int / 12 - 1) as i32)
}

impl LetterOctave {
    /// The letter and octave named by the given MIDI note number.
    pub fn from_note(note: u8) -> (r: Self)
        ensures
            r == spec_letter_octave(note),
    {
        let letter = match note % 12 {
            0 => Letter::C,
            1 => Letter::Csh,
            2 => Letter::D,
            3 => Letter::Dsh,
            4 => Letter::E,
            5 => Letter::F,
            6 => Letter::Fsh,
            7 => Letter::G,
            8 => Letter::Gsh,
            9 => Letter::A,
            10 => Letter::Ash,
            _ => Letter::B,
        };
        let octave: i32 = (note / 12) as i32 - 1;
        LetterOctave(letter, octave)
    }

    /// The letter of this pitch.
    pub fn letter(self) -> (r: Letter)
        ensures
            r == self.0,
    {
        self.0
    }

    /// The octave of this pitch.
    pub fn octave(self) -> (r: i32)
        ensures
            r == self.1,
    {
        self.1
    }
}

} // verus!
