use isokeys::keys::{Key, key_to_point};
use isokeys::notes::{octave, pitch_class, pitch_name};
use isokeys::points::{BasisVector, Point};
use isokeys::translator::{KeyAction, MidiMessage, Response, SkipReason, Translator};

#[test]
fn key_table_is_anchored_at_h() {
    assert_eq!(key_to_point(Key::H), Some(Point(0, 0)));
    assert_eq!(key_to_point(Key::J), Some(Point(1, 0)));
    assert_eq!(key_to_point(Key::Y), Some(Point(0, 1)));
    assert_eq!(key_to_point(Key::N), Some(Point(0, -1)));
    assert_eq!(key_to_point(Key::Z), Some(Point(-5, -1)));
    assert_eq!(key_to_point(Key::Equal), Some(Point(6, 2)));
}

#[test]
fn keys_without_musical_meaning_are_unmapped() {
    assert_eq!(key_to_point(Key::Space), None);
    assert_eq!(key_to_point(Key::Escape), None);
    assert_eq!(key_to_point(Key::Tab), None);
    assert_eq!(key_to_point(Key::F1), None);
}

#[test]
fn origin_key_sounds_the_reference_note() {
    // Canonical Tonnetz-style basis, no transpose: the key at (0, 0) plays
    // middle C.
    let mut t = Translator::new(BasisVector(4, -3), 0);
    let press = t.handle_event(Key::H, KeyAction::Press);
    assert_eq!(press, Response::Emit(MidiMessage::NoteOn { note: 60, velocity: 64 }));
    let release = t.handle_event(Key::H, KeyAction::Release);
    assert_eq!(release, Response::Emit(MidiMessage::NoteOff { note: 60, velocity: 0 }));
}

#[test]
fn transpose_shifts_the_computed_note() {
    // Basis (4, -3), transpose +2, key at (1, 0): the offset is
    // 4 * 0 + (-3 - 4) * 1 = -7, so the note is -7 + 60 + 2 = 55.
    let mut t = Translator::new(BasisVector(4, -3), 2);
    let press = t.handle_event(Key::J, KeyAction::Press);
    assert_eq!(press, Response::Emit(MidiMessage::NoteOn { note: 55, velocity: 64 }));
}

#[test]
fn duplicate_presses_yield_exactly_one_note_on() {
    let mut t = Translator::new(BasisVector(4, -3), 0);
    let first = t.handle_event(Key::H, KeyAction::Press);
    assert_eq!(first, Response::Emit(MidiMessage::NoteOn { note: 60, velocity: 64 }));
    let second = t.handle_event(Key::H, KeyAction::Press);
    assert_eq!(second, Response::Skip(SkipReason::AlreadySounding));
    // The key still sounds its original note and releases exactly once.
    assert_eq!(t.sounding_note(Key::H), Some(60));
    let release = t.handle_event(Key::H, KeyAction::Release);
    assert_eq!(release, Response::Emit(MidiMessage::NoteOff { note: 60, velocity: 0 }));
    assert_eq!(t.sounding_note(Key::H), None);
}

#[test]
fn repeats_of_a_sounding_key_emit_nothing() {
    let mut t = Translator::new(BasisVector(4, -3), 0);
    t.handle_event(Key::H, KeyAction::Press);
    for _ in 0..5 {
        let r = t.handle_event(Key::H, KeyAction::Repeat);
        assert_eq!(r, Response::Skip(SkipReason::RepeatSuppressed));
    }
    assert_eq!(t.sounding_note(Key::H), Some(60));
}

#[test]
fn sustain_key_never_touches_key_state() {
    let mut t = Translator::new(BasisVector(4, -3), 0);
    t.handle_event(Key::H, KeyAction::Press);
    let on = t.handle_event(Key::Space, KeyAction::Press);
    assert_eq!(on, Response::Emit(MidiMessage::ControlChange { controller: 64, value: 127 }));
    assert!(t.sustain_active());
    assert_eq!(t.sounding_note(Key::H), Some(60));
    assert_eq!(t.sounding_note(Key::Space), None);
    let off = t.handle_event(Key::Space, KeyAction::Release);
    assert_eq!(off, Response::Emit(MidiMessage::ControlChange { controller: 64, value: 0 }));
    assert!(!t.sustain_active());
    assert_eq!(t.sounding_note(Key::H), Some(60));
}

#[test]
fn keys_sound_and_release_independently() {
    let mut t = Translator::new(BasisVector(4, -3), 0);
    t.handle_event(Key::H, KeyAction::Press);
    t.handle_event(Key::J, KeyAction::Press);
    assert_eq!(t.sounding_note(Key::H), Some(60));
    assert_eq!(t.sounding_note(Key::J), Some(53));
    let r = t.handle_event(Key::H, KeyAction::Release);
    assert_eq!(r, Response::Emit(MidiMessage::NoteOff { note: 60, velocity: 0 }));
    assert_eq!(t.sounding_note(Key::H), None);
    assert_eq!(t.sounding_note(Key::J), Some(53));
}

#[test]
fn unmapped_keys_are_skipped_not_errors() {
    let mut t = Translator::new(BasisVector(4, -3), 0);
    let r = t.handle_event(Key::Tab, KeyAction::Press);
    assert_eq!(r, Response::Skip(SkipReason::UnmappedKey));
    assert_eq!(t.sounding_note(Key::Tab), None);
}

#[test]
fn releasing_an_idle_key_emits_nothing() {
    let mut t = Translator::new(BasisVector(4, -3), 0);
    let r = t.handle_event(Key::H, KeyAction::Release);
    assert_eq!(r, Response::Skip(SkipReason::NotSounding));
}

#[test]
fn out_of_range_notes_are_rejected_not_wrapped() {
    // Basis (4, -3) with transpose +100 puts the origin key at 160, beyond
    // the MIDI range; the event is rejected and the key stays idle.
    let mut t = Translator::new(BasisVector(4, -3), 100);
    let r = t.handle_event(Key::H, KeyAction::Press);
    assert_eq!(r, Response::Skip(SkipReason::OutOfRange));
    assert_eq!(t.sounding_note(Key::H), None);
}

#[test]
fn messages_encode_to_midi_byte_triples() {
    assert_eq!(MidiMessage::NoteOn { note: 60, velocity: 64 }.to_bytes(), (0x90, 60, 64));
    assert_eq!(MidiMessage::NoteOff { note: 60, velocity: 0 }.to_bytes(), (0x80, 60, 0));
    assert_eq!(
        MidiMessage::ControlChange { controller: 64, value: 127 }.to_bytes(),
        (0xB0, 64, 127)
    );
}

#[test]
fn note_names_follow_the_fixed_table() {
    assert_eq!(pitch_class(60), 0);
    assert_eq!(octave(60), 3);
    assert_eq!(pitch_name(0), "C");
    assert_eq!(pitch_class(55), 7);
    assert_eq!(octave(55), 2);
    assert_eq!(pitch_name(7), "G");
    assert_eq!(pitch_class(61), 1);
    assert_eq!(pitch_name(1), "C#/Db");
    assert_eq!(octave(0), -2);
}
