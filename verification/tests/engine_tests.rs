use midisynth::decoder::{decode, ClassifiedEvent};
use midisynth::engine::{EngineAction, VoiceEngine};
use midisynth::pitch::base_pitch;

#[test]
fn fresh_engine_is_silent_and_centered() {
    let e = VoiceEngine::new();
    assert_eq!(e.voice_count(), 0);
    assert_eq!(e.current_bend(), 0);
    assert!(!e.has_voice(69));
}

#[test]
fn note_on_starts_a_voice_at_its_base_pitch() {
    let mut e = VoiceEngine::new();
    let p = e.note_on(69, 100);
    assert_eq!(p, 0);
    assert_eq!(e.voice_count(), 1);
    assert!(e.has_voice(69));
    assert_eq!(e.voice_base_pitch(69), Some(0));
    let p = e.note_on(60, 100);
    assert_eq!(p, base_pitch(60));
    assert_eq!(e.voice_count(), 2);
}

#[test]
fn note_off_is_idempotent() {
    let mut e = VoiceEngine::new();
    e.note_on(60, 100);
    assert_eq!(e.note_off(60), true);
    assert_eq!(e.voice_count(), 0);
    assert!(!e.has_voice(60));
    // A second release of the same note is a no-op, not an error.
    assert_eq!(e.note_off(60), false);
    assert_eq!(e.voice_count(), 0);
    assert!(!e.has_voice(60));
}

#[test]
fn redundant_note_off_on_silent_note_is_a_no_op() {
    let mut e = VoiceEngine::new();
    e.note_on(60, 100);
    assert_eq!(e.note_off(64), false);
    assert_eq!(e.voice_count(), 1);
    assert!(e.has_voice(60));
}

#[test]
fn note_on_replaces_rather_than_doubles() {
    let mut e = VoiceEngine::new();
    e.note_on(60, 10);
    e.note_on(60, 20);
    assert_eq!(e.voice_count(), 1);
    assert!(e.has_voice(60));
    assert_eq!(e.voice_base_pitch(60), Some(base_pitch(60)));
}

#[test]
fn bend_propagates_to_every_live_voice() {
    let mut e = VoiceEngine::new();
    e.note_on(60, 100);
    e.note_on(64, 100);
    // Raw 8192 + 4096 is half of the maximum upward bend: one semitone.
    let changes = e.pitch_bend(8192 + 4096);
    assert_eq!(changes.len(), 2);
    for &(note, pitch) in &changes {
        assert_eq!(pitch, base_pitch(note) + 4096);
    }
    // Back to center: every voice restored to its exact base pitch.
    let changes = e.pitch_bend(8192);
    assert_eq!(changes.len(), 2);
    for &(note, pitch) in &changes {
        assert_eq!(pitch, base_pitch(note));
    }
    assert_eq!(e.current_bend(), 0);
}

#[test]
fn bend_before_note_creates_a_bent_voice() {
    let mut e = VoiceEngine::new();
    let changes = e.pitch_bend(9000);
    assert_eq!(changes.len(), 0);
    // The new voice already reflects the bend in effect: 9000 - 8192 above
    // the 440 Hz base, not the unbent base pitch.
    let p = e.note_on(69, 100);
    assert_eq!(p, 9000 - 8192);
    assert_ne!(p, base_pitch(69));
}

#[test]
fn held_notes_scenario() {
    // note_on(60), note_on(64), max bend up, note_off(60), bend to center:
    // exactly note 64 remains, restored to its exact base pitch.
    let mut e = VoiceEngine::new();
    e.note_on(60, 100);
    e.note_on(64, 100);
    let changes = e.pitch_bend(16383);
    assert_eq!(changes.len(), 2);
    assert_eq!(e.current_bend(), 8191);
    assert_eq!(e.note_off(60), true);
    let changes = e.pitch_bend(8192);
    assert_eq!(changes.len(), 1);
    assert_eq!(changes[0].0, 64);
    assert_eq!(changes[0].1, base_pitch(64));
    assert_eq!(e.voice_count(), 1);
    assert!(e.has_voice(64));
    assert!(!e.has_voice(60));
    assert_eq!(e.voice_base_pitch(64), Some(base_pitch(64)));
    assert_eq!(e.effective_pitch(base_pitch(64)), base_pitch(64));
}

#[test]
fn apply_event_drives_the_engine() {
    let mut e = VoiceEngine::new();
    let a = e.apply_event(&ClassifiedEvent::NoteOn { channel: 0, note: 60, velocity: 100 });
    assert_eq!(a, EngineAction::StartVoice { note: 60, pitch: base_pitch(60) });
    assert_eq!(e.voice_count(), 1);

    let a = e.apply_event(&ClassifiedEvent::PitchBend { channel: 0, value: 12288 });
    assert_eq!(a, EngineAction::Retune { changes: vec![(60, base_pitch(60) + 4096)] });

    let a = e.apply_event(&ClassifiedEvent::NoteOff { channel: 0, note: 60, velocity: 0 });
    assert_eq!(a, EngineAction::StopVoice { note: 60, was_live: true });
    assert_eq!(e.voice_count(), 0);

    let a = e.apply_event(&ClassifiedEvent::NoteOff { channel: 0, note: 60, velocity: 0 });
    assert_eq!(a, EngineAction::StopVoice { note: 60, was_live: false });
}

#[test]
fn unacted_kinds_leave_the_engine_untouched() {
    let mut e = VoiceEngine::new();
    e.note_on(60, 100);
    let before = e.current_bend();
    for ev in [
        ClassifiedEvent::PolyPressure { channel: 0, note: 60, pressure: 10 },
        ClassifiedEvent::ControlChange { channel: 0, controller: 7, value: 100 },
        ClassifiedEvent::ProgramChange { channel: 0, program: 5 },
        ClassifiedEvent::ChannelPressure { channel: 0, pressure: 20 },
        ClassifiedEvent::Unknown,
    ] {
        let a = e.apply_event(&ev);
        assert_eq!(a, EngineAction::NoAction);
    }
    assert_eq!(e.voice_count(), 1);
    assert_eq!(e.current_bend(), before);
}

#[test]
fn decoded_messages_drive_the_engine() {
    // The full path from raw bytes to engine state, as the event callback
    // runs it: decode, check ranges, apply.
    let mut e = VoiceEngine::new();
    let messages: [&[u8]; 5] =
        [&[0x90, 60, 100], &[0x90, 64, 100], &[0xE0, 127, 127], &[0x80, 60, 0], &[0xE0, 0, 64]];
    for bytes in messages {
        if let Ok(Some(ev)) = decode(bytes) {
            assert!(ev.check_in_range());
            e.apply_event(&ev);
        } else {
            panic!("every message in this sequence classifies to an event");
        }
    }
    assert_eq!(e.voice_count(), 1);
    assert!(e.has_voice(64));
    assert!(!e.has_voice(60));
    assert_eq!(e.current_bend(), 0);
}
