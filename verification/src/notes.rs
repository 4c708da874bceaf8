//! Note-name and octave display helpers, for diagnostics only: the pitch
//! class and octave of a note number, and the fixed twelve-entry name table
//! starting at C.

use vstd::prelude::*;

verus! {

/// The pitch class of a note number: its residue modulo 12.
pub fn pitch_class(note: u8) -> (r: u8)
    ensures
        r == note % 12,
        r < 12,
{
    note % 12
}

/// The display octave of a note number: `note / 12 - 2`, so that the
/// reference note 60 (middle C) prints as octave 3.
pub fn octave(note: u8) -> (r: i8)
    ensures
        r == note as int / 12 - 2,
{
    (note / 12) as i8 - 2
}

/// The name of a pitch class, from the fixed table starting at C.
pub open spec fn spec_pitch_name(pc: u8) -> Seq<char> {
    if pc == 0 {
        "C"@
    } else if pc == 1 {
        "C#/Db"@
    } else if pc == 2 {
        "D"@
    } else if pc == 3 {
        "D#/Eb"@
    } else if pc == 4 {
        "E"@
    } else if pc == 5 {
        "F"@
    } else if pc == 6 {
        "F#/Gb"@
    } else if pc == 7 {
        "G"@
    } else if pc == 8 {
        "G#/Ab"@
    } else if pc == 9 {
        "A"@
    } else if pc == 10 {
        "A#/Bb"@
    } else {
        "B"@
    }
}

/// Looks a pitch class up in the fixed name table.
pub fn pitch_name(pc: u8) -> (r: &'static str)
    requires
        pc < 12,
    ensures
        r@ == spec_pitch_name(pc),
{
    if pc == 0 {
        "C"
    } else if pc == 1 {
        "C#/Db"
    } else if pc == 2 {
        "D"
    } else if pc == 3 {
        "D#/Eb"
    } else if pc == 4 {
        "E"
    } else if pc == 5 {
        "F"
    } else if pc == 6 {
        "F#/Gb"
    } else if pc == 7 {
        "G"
    } else if pc == 8 {
        "G#/Ab"
    } else if pc == 9 {
        "A"
    } else if pc == 10 {
        "A#/Bb"
    } else {
        "B"
    }
}

} // verus!
