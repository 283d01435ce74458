//! Exact pitch arithmetic for the voice engine.
//!
//! A pitch is an `i32` counted in units of 1/4096 of an equal-tempered
//! semitone, relative to note 69 (A4).  The raw 14-bit bend value 0..16384 is
//! centered at 8192 and spans two semitones in either direction, so the
//! signed bend offset `raw - 8192` in [-8192, 8191] is itself a pitch offset
//! in these units: one semitone is 4096 units, one octave 49152.  A voice's
//! frequency in Hz is `440 * 2^(pitch / 49152)`.

use vstd::prelude::*;

verus! {

/// Pitch units in one equal-tempered semitone.
pub const SEMITONE: i32 = 4096;

/// Pitch units in one octave (twelve semitones).
pub const OCTAVE: i32 = 49152;

/// Raw bend value that means "no bend" (center of the 14-bit range).
pub const BEND_CENTER: u16 = 8192;

/// The pitch a note sounds at with zero bend: `(note - 69) * 4096` units,
/// which is `440 * 2^((note - 69) / 12)` Hz.
pub open spec fn base_pitch_spec(note: int) -> int {
    (note - 69) * 4096
}

/// The pitch of a voice under a bend offset: the offset is already in pitch
/// units, so the bend simply shifts the base pitch.
pub open spec fn apply_bend_spec(base_pitch: int, bend_offset: int) -> int {
    base_pitch + bend_offset
}

/// The signed bend offset encoded by a raw 14-bit bend value.
pub open spec fn bend_offset_of_raw(raw: int) -> int {
    raw - 8192
}

/// Base pitch of a note, in pitch units.
pub fn base_pitch(note: u8) -> (p: i32)
    requires
        note < 128,
    ensures
        p == base_pitch_spec(note as int),
{
    (note as i32 - 69) * SEMITONE
}

/// Shift a base pitch by a bend offset.
pub fn apply_bend(base_pitch: i32, bend_offset: i16) -> (p: i32)
    requires
        -0x8000_0000 <= base_pitch + bend_offset < 0x8000_0000,
    ensures
        p == apply_bend_spec(base_pitch as int, bend_offset as int),
{
    base_pitch + bend_offset as i32
}

/// The reference points of the tuning: note 69 sounds at pitch 0 (440 Hz
/// exactly), note 57 one octave below (220 Hz) and note 81 one octave above
/// (880 Hz).
pub proof fn lemma_base_pitch_anchors()
    ensures
        base_pitch_spec(69) == 0,
        base_pitch_spec(57) == -(OCTAVE as int),
        base_pitch_spec(81) == OCTAVE as int,
{
}

} // verus!
