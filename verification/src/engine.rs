//! The voice engine: one sounding voice per held note, all shifted by a
//! global pitch-bend offset.
//!
//! The engine owns the voice table and the bend offset.  `note_on` creates or
//! replaces the voice for a note, `note_off` releases it (a no-op when the
//! note is silent), and `pitch_bend` moves every live voice to the new
//! offset.  Each operation reports the pitches the caller must render, in the
//! exact integer units of [`crate::pitch`]; turning a pitch into an audible
//! frequency, and owning the audio resources themselves, is the caller's
//! side of the boundary.

use vstd::prelude::*;

use crate::decoder::ClassifiedEvent;
use crate::pitch::{
    apply_bend, apply_bend_spec, base_pitch, base_pitch_spec, bend_offset_of_raw, SEMITONE,
};

verus! {

/// One sounding voice: the note that keys it and the pitch it sounds at with
/// zero bend, fixed when the voice is created.
#[derive(Clone, Copy, Debug, PartialEq, Eq, Structural)]
pub struct Voice {
    pub note: u8,
    pub base_pitch: i32,
}

/// The engine state: the voice table and the global bend offset.
pub struct VoiceEngine {
    voices: Vec<Voice>,
    bend: i16,
}

impl VoiceEngine {
    /// The voice table as a sequence.
    pub closed spec fn table(self) -> Seq<Voice> {
        self.voices@
    }

    /// The current global bend offset, in pitch units.
    pub closed spec fn bend_offset(self) -> int {
        self.bend as int
    }

    /// The set of notes that currently have a live voice.
    pub open spec fn live_notes(self) -> Set<int> {
        Set::new(
            |n: int|
                exists|i: int|
                    0 <= i < self.table().len() && (#[trigger] self.table()[i]).note == n,
        )
    }

    /// The number of live voices.
    pub open spec fn num_voices(self) -> int {
        self.table().len() as int
    }

    /// Well-formedness: at most one voice per note, every note and base
    /// pitch in range, the base pitch determined by the note, and the bend
    /// offset within the encodable range.
    pub open spec fn wf(self) -> bool {
        &&& forall|i: int, j: int|
            0 <= i < self.table().len() && 0 <= j < self.table().len() && i != j ==> (
            #[trigger] self.table()[i]).note != (#[trigger] self.table()[j]).note
        &&& forall|i: int|
            0 <= i < self.table().len() ==> (#[trigger] self.table()[i]).note < 128
        &&& forall|i: int|
            0 <= i < self.table().len() ==> (#[trigger] self.table()[i]).base_pitch
                == base_pitch_spec(self.table()[i].note as int)
        &&& -8192 <= self.bend_offset() <= 8191
    }

    /// A fresh engine: no voices, bend centered.
    pub fn new() -> (s: Self)
        ensures
            s.wf(),
            s.num_voices() == 0,
            s.bend_offset() == 0,
            s.live_notes() == Set::<int>::empty(),
    {
        let s = VoiceEngine { voices: Vec::new(), bend: 0 };
        proof {
            assert(s.live_notes() =~= Set::<int>::empty());
        }
        s
    }

    /// Index of the voice for `note`, if one is live.
    fn find_voice(&self, note: u8) -> (r: Option<usize>)
        ensures
            match r {
                Some(i) => i < self.table().len() && self.table()[i as int].note == note,
                None => forall|i: int|
                    0 <= i < self.table().len() ==> (#[trigger] self.table()[i]).note != note,
            },
    {
        let mut i: usize = 0;
        while i < self.voices.len()
            invariant
                i <= self.voices.len(),
                forall|j: int| 0 <= j < i ==> (#[trigger] self.voices@[j]).note != note,
            decreases self.voices.len() - i,
        {
            if self.voices[i].note == note {
                return Some(i);
            }
            i = i + 1;
        }
        None
    }
}

/// What `note_on` does: the note becomes live (replacing any prior voice for
/// it), every other voice and the bend offset are untouched, and the
/// returned pitch is the note's base pitch shifted by the bend in effect.
pub open spec fn note_on_post(pre: VoiceEngine, post: VoiceEngine, note: int, pitch: int) -> bool {
    &&& post.wf()
    &&& post.bend_offset() == pre.bend_offset()
    &&& post.live_notes() == pre.live_notes().insert(note)
    &&& post.num_voices() == pre.num_voices() + (if pre.live_notes().contains(note) {
        0int
    } else {
        1int
    })
    &&& pitch == apply_bend_spec(base_pitch_spec(note), pre.bend_offset())
}

/// What `note_off` does: the note is no longer live, everything else is
/// untouched, and `removed` reports whether a voice was actually released.
/// When the note was already silent the state is unchanged entirely.
pub open spec fn note_off_post(
    pre: VoiceEngine,
    post: VoiceEngine,
    note: int,
    removed: bool,
) -> bool {
    &&& post.wf()
    &&& post.bend_offset() == pre.bend_offset()
    &&& post.live_notes() == pre.live_notes().remove(note)
    &&& removed == pre.live_notes().contains(note)
    &&& post.num_voices() == pre.num_voices() - (if removed {
        1int
    } else {
        0int
    })
    &&& !removed ==> post == pre
}

impl VoiceEngine {
    /// Start (or restart) the voice for `note`.  The velocity is accepted
    /// for interface completeness and does not shape the voice.  Returns the
    /// pitch the new voice must sound at, which already reflects the bend in
    /// effect.
    pub fn note_on(&mut self, note: u8, velocity: u8) -> (pitch: i32)
        requires
            old(self).wf(),
            note < 128,
        ensures
            note_on_post(*old(self), *final(self), note as int, pitch as int),
    {
        let base = base_pitch(note);
        let pitch = apply_bend(base, self.bend);
        match self.find_voice(note) {
            Some(i) => {
                proof {
                    assert(old(self).live_notes().contains(note as int)) by {
                        assert((self.table()[i as int]).note == note);
                    }
                    assert(self.live_notes() =~= old(self).live_notes().insert(note as int));
                }
            },
            None => {
                self.voices.push(Voice { note, base_pitch: base });
                proof {
                    let pre = *old(self);
                    let len = pre.table().len() as int;
                    assert(self.table() == pre.table().push(Voice { note, base_pitch: base }));
                    assert forall|n: int| #[trigger]
                        self.live_notes().contains(n)
                            <==> pre.live_notes().insert(note as int).contains(n) by {
                        if self.live_notes().contains(n) {
                            let i = choose|i: int|
                                0 <= i < self.table().len() && (#[trigger] self.table()[i]).note
                                    == n;
                            if i < len {
                                assert((pre.table()[i]).note == n);
                            }
                        }
                        if pre.live_notes().contains(n) {
                            let i = choose|i: int|
                                0 <= i < pre.table().len() && (#[trigger] pre.table()[i]).note
                                    == n;
                            assert((self.table()[i]).note == n);
                        }
                        if n == note as int {
                            assert((self.table()[len]).note == n);
                        }
                    }
                    assert(self.live_notes() =~= pre.live_notes().insert(note as int));
                    assert(!pre.live_notes().contains(note as int));
                }
            },
        }
        pitch
    }

    /// Release the voice for `note`, if one is live; otherwise do nothing.
    /// Returns whether a voice was released.
    pub fn note_off(&mut self, note: u8) -> (removed: bool)
        requires
            old(self).wf(),
        ensures
            note_off_post(*old(self), *final(self), note as int, removed),
    {
        match self.find_voice(note) {
            Some(i) => {
                self.voices.remove(i);
                proof {
                    let pre = *old(self);
                    let iv = i as int;
                    assert(self.table() == pre.table().remove(iv));
                    assert(pre.live_notes().contains(note as int)) by {
                        assert((pre.table()[iv]).note == note);
                    }
                    assert forall|n: int| #[trigger]
                        self.live_notes().contains(n)
                            <==> pre.live_notes().remove(note as int).contains(n) by {
                        if self.live_notes().contains(n) {
                            let j = choose|j: int|
                                0 <= j < self.table().len() && (#[trigger] self.table()[j]).note
                                    == n;
                            if j < iv {
                                assert((pre.table()[j]).note == n);
                                assert((pre.table()[j]).note != (pre.table()[iv]).note);
                            } else {
                                assert((pre.table()[j + 1]).note == n);
                                assert((pre.table()[j + 1]).note != (pre.table()[iv]).note);
                            }
                        }
                        if pre.live_notes().remove(note as int).contains(n) {
                            let j = choose|j: int|
                                0 <= j < pre.table().len() && (#[trigger] pre.table()[j]).note
                                    == n;
                            assert(j != iv);
                            if j < iv {
                                assert((self.table()[j]).note == n);
                            } else {
                                assert((self.table()[j - 1]).note == n);
                            }
                        }
                    }
                    assert(self.live_notes() =~= pre.live_notes().remove(note as int));
                }
                true
            },
            None => {
                proof {
                    let pre = *old(self);
                    assert(!pre.live_notes().contains(note as int));
                    assert(pre.live_notes().remove(note as int) =~= pre.live_notes());
                }
                false
            },
        }
    }

    /// Move the global bend to the offset encoded by the raw 14-bit `value`
    /// and report, for every live voice in table order, the pitch it must be
    /// retuned to.  The voice table itself is unchanged.
    pub fn pitch_bend(&mut self, value: u16) -> (changes: Vec<(u8, i32)>)
        requires
            old(self).wf(),
            value < 16384,
        ensures
            pitch_bend_post(*old(self), *final(self), value as int, changes@),
    {
        self.bend = (value as i16) - 8192;
        let mut changes: Vec<(u8, i32)> = Vec::new();
        let mut i: usize = 0;
        while i < self.voices.len()
            invariant
                old(self).wf(),
                value < 16384,
                self.voices@ == old(self).voices@,
                self.bend as int == value - 8192,
                i <= self.voices.len(),
                changes@.len() == i,
                forall|j: int|
                    0 <= j < i ==> (#[trigger] changes@[j]).0 == self.voices@[j].note
                        && changes@[j].1 == apply_bend_spec(
                        base_pitch_spec(self.voices@[j].note as int),
                        bend_offset_of_raw(value as int),
                    ),
            decreases self.voices.len() - i,
        {
            let v = self.voices[i];
            proof {
                assert((old(self).table()[i as int]).note < 128);
                assert((old(self).table()[i as int]).base_pitch == base_pitch_spec(
                    old(self).table()[i as int].note as int,
                ));
                assert(v == old(self).table()[i as int]);
            }
            let p = apply_bend(v.base_pitch, self.bend);
            changes.push((v.note, p));
            i = i + 1;
        }
        proof {
            let pre = *old(self);
            assert forall|k: int| 0 <= k < self.table().len() implies (
            #[trigger] self.table()[k]).note < 128 && self.table()[k].base_pitch
                == base_pitch_spec(self.table()[k].note as int) by {
                assert(self.table()[k] == pre.table()[k]);
            }
            assert forall|k: int, l: int|
                0 <= k < self.table().len() && 0 <= l < self.table().len() && k
                    != l implies (#[trigger] self.table()[k]).note != (
            #[trigger] self.table()[l]).note by {
                assert(self.table()[k] == pre.table()[k]);
                assert(self.table()[l] == pre.table()[l]);
            }
        }
        changes
    }
}

/// What `pitch_bend` does: the bend offset becomes `value - 8192`, the voice
/// table is untouched, and the reported changes retune each live voice, in
/// table order, to its base pitch shifted by the new offset.
pub open spec fn pitch_bend_post(
    pre: VoiceEngine,
    post: VoiceEngine,
    value: int,
    changes: Seq<(u8, i32)>,
) -> bool {
    &&& post.wf()
    &&& post.table() == pre.table()
    &&& post.bend_offset() == bend_offset_of_raw(value)
    &&& changes.len() == post.table().len()
    &&& forall|i: int|
        0 <= i < changes.len() ==> (#[trigger] changes[i]).0 == post.table()[i].note
            && changes[i].1 == apply_bend_spec(
            base_pitch_spec(post.table()[i].note as int),
            bend_offset_of_raw(value),
        )
}

/// What the engine must do outside its own state in response to one event:
/// start a voice at a pitch, stop the voice of a note (reporting whether one
/// was live), retune every live voice, or nothing.
#[derive(Debug, PartialEq, Eq)]
pub enum EngineAction {
    StartVoice { note: u8, pitch: i32 },
    StopVoice { note: u8, was_live: bool },
    Retune { changes: Vec<(u8, i32)> },
    NoAction,
}

impl VoiceEngine {
    /// Apply one classified event: a note-on, note-off or pitch-bend event
    /// drives the corresponding operation, and every other kind — including
    /// the recognized-but-unacted ones — leaves the engine untouched.
    /// Returns the action the caller must render.
    pub fn apply_event(&mut self, ev: &ClassifiedEvent) -> (action: EngineAction)
        requires
            old(self).wf(),
            ev.in_range(),
        ensures
            final(self).wf(),
            match *ev {
                ClassifiedEvent::NoteOn { channel, note, velocity } => (action matches
                    EngineAction::StartVoice { note: n, pitch } && n == note && note_on_post(
                    *old(self),
                    *final(self),
                    note as int,
                    pitch as int,
                )),
                ClassifiedEvent::NoteOff { channel, note, velocity } => (action matches
                    EngineAction::StopVoice { note: n, was_live } && n == note && note_off_post(
                    *old(self),
                    *final(self),
                    note as int,
                    was_live,
                )),
                ClassifiedEvent::PitchBend { channel, value } => (action matches
                    EngineAction::Retune { changes } && pitch_bend_post(
                    *old(self),
                    *final(self),
                    value as int,
                    changes@,
                )),
                _ => action == EngineAction::NoAction && *final(self) == *old(self),
            },
    {
        match *ev {
            ClassifiedEvent::NoteOn { channel: _, note, velocity } => {
                let pitch = self.note_on(note, velocity);
                EngineAction::StartVoice { note, pitch }
            },
            ClassifiedEvent::NoteOff { channel: _, note, velocity: _ } => {
                let was_live = self.note_off(note);
                EngineAction::StopVoice { note, was_live }
            },
            ClassifiedEvent::PitchBend { channel: _, value } => {
                let changes = self.pitch_bend(value);
                EngineAction::Retune { changes }
            },
            _ => EngineAction::NoAction,
        }
    }

    /// The number of live voices.
    pub fn voice_count(&self) -> (n: usize)
        ensures
            n == self.num_voices(),
    {
        self.voices.len()
    }

    /// Whether `note` currently has a live voice.
    pub fn has_voice(&self, note: u8) -> (b: bool)
        ensures
            b == self.live_notes().contains(note as int),
    {
        match self.find_voice(note) {
            Some(i) => {
                proof {
                    assert((self.table()[i as int]).note == note);
                }
                true
            },
            None => false,
        }
    }

    /// The current bend offset, in pitch units.
    pub fn current_bend(&self) -> (b: i16)
        ensures
            b == self.bend_offset(),
    {
        self.bend
    }

    /// The base pitch of the live voice for `note`, or `None` when the note
    /// is silent.
    pub fn voice_base_pitch(&self, note: u8) -> (r: Option<i32>)
        requires
            self.wf(),
        ensures
            match r {
                Some(p) => self.live_notes().contains(note as int) && p == base_pitch_spec(
                    note as int,
                ),
                None => !self.live_notes().contains(note as int),
            },
    {
        match self.find_voice(note) {
            Some(i) => {
                let p = self.voices[i].base_pitch;
                proof {
                    assert((self.table()[i as int]).note == note);
                }
                Some(p)
            },
            None => None,
        }
    }

    /// The pitch a voice with the given base pitch sounds at under the
    /// current bend.
    pub fn effective_pitch(&self, base_pitch: i32) -> (p: i32)
        requires
            self.wf(),
            -0x8000_0000 <= base_pitch + self.bend_offset() < 0x8000_0000,
        ensures
            p == apply_bend_spec(base_pitch as int, self.bend_offset()),
    {
        apply_bend(base_pitch, self.bend)
    }
}

/// Releasing a note twice in a row is the same as releasing it once: the
/// second release finds no voice, reports nothing removed, and leaves the
/// state exactly as the first release left it.
pub proof fn lemma_note_off_idempotent(
    s0: VoiceEngine,
    s1: VoiceEngine,
    s2: VoiceEngine,
    note: u8,
    r1: bool,
    r2: bool,
)
    requires
        s0.wf(),
        note_off_post(s0, s1, note as int, r1),
        note_off_post(s1, s2, note as int, r2),
    ensures
        !r2,
        s2 == s1,
{
}

/// At most one voice per note: in any well-formed engine state two table
/// entries for the same note are the same entry.  Together with the
/// operations' contracts — each preserves well-formedness, and `note_on`
/// replaces the entry for an already-sounding note instead of adding a
/// second one — this holds after any sequence of calls on a fresh engine.
pub proof fn lemma_at_most_one_voice(s: VoiceEngine, i: int, j: int)
    requires
        s.wf(),
        0 <= i < s.table().len(),
        0 <= j < s.table().len(),
        s.table()[i].note == s.table()[j].note,
    ensures
        i == j,
{
}

/// Bend propagation: a bend to half of the maximum (raw 8192 + 4096) moves
/// every live voice exactly one semitone above its base pitch, and a
/// following bend back to center (raw 8192) restores every voice to its
/// exact base pitch, with the voice table untouched throughout.
pub proof fn lemma_bend_propagation(
    s0: VoiceEngine,
    s1: VoiceEngine,
    s2: VoiceEngine,
    c1: Seq<(u8, i32)>,
    c2: Seq<(u8, i32)>,
)
    requires
        s0.wf(),
        pitch_bend_post(s0, s1, 12288, c1),
        pitch_bend_post(s1, s2, 8192, c2),
    ensures
        s2.table() == s0.table(),
        c1.len() == s0.table().len(),
        c2.len() == s0.table().len(),
        forall|i: int|
            0 <= i < c1.len() ==> (#[trigger] c1[i]).1 == base_pitch_spec(
                s0.table()[i].note as int,
            ) + SEMITONE,
        forall|i: int|
            0 <= i < c2.len() ==> (#[trigger] c2[i]).1 == base_pitch_spec(
                s0.table()[i].note as int,
            ),
{
}

/// Bend before note: a voice created after a bend already sounds bent.  A
/// bend to raw `value` followed by `note_on` of note 69 yields a voice whose
/// initial pitch is `value - 8192` — exactly the bend offset above the 440
/// Hz base — and not the unbent base pitch unless the bend is centered.
pub proof fn lemma_bend_before_note(
    s0: VoiceEngine,
    s1: VoiceEngine,
    s2: VoiceEngine,
    value: u16,
    c: Seq<(u8, i32)>,
    pitch: int,
)
    requires
        s0.wf(),
        value < 16384,
        pitch_bend_post(s0, s1, value as int, c),
        note_on_post(s1, s2, 69, pitch),
    ensures
        pitch == value - 8192,
        value != 8192 ==> pitch != base_pitch_spec(69),
{
}

} // verus!
