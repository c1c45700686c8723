use kawa::kawa::midi_input::{
    route_midi_message, MidiEvent, MidiInput, MidiRequest, MidiResponse, Sound,
};

fn note_on(note: u8, velocity: u8) -> Option<MidiEvent> {
    Some(MidiEvent::NoteOn { channel: 0, note, velocity })
}

fn note_off(note: u8) -> Option<MidiEvent> {
    Some(MidiEvent::NoteOff { channel: 3, note, velocity: 64 })
}

#[test]
fn routes_note_messages_on_any_channel() {
    assert_eq!(
        route_midi_message(MidiEvent::NoteOn { channel: 9, note: 60, velocity: 100 }),
        Some(MidiRequest::Note { on: true, note: 60, velocity: 100 })
    );
    assert_eq!(
        route_midi_message(MidiEvent::NoteOff { channel: 1, note: 61, velocity: 0 }),
        Some(MidiRequest::Note { on: false, note: 61, velocity: 0 })
    );
}

#[test]
fn channel_aftertouch_is_modulation_and_key_aftertouch_is_ignored() {
    assert_eq!(
        route_midi_message(MidiEvent::Aftertouch { channel: 0, note: None, value: 90 }),
        Some(MidiRequest::Modulation(90))
    );
    assert_eq!(route_midi_message(MidiEvent::Aftertouch { channel: 0, note: Some(5), value: 90 }), None);
    assert_eq!(route_midi_message(MidiEvent::ControlChange { channel: 0, controller: 1, value: 2 }), None);
    assert_eq!(route_midi_message(MidiEvent::ProgramChange { channel: 0, program: 2 }), None);
    assert_eq!(route_midi_message(MidiEvent::PitchBendChange { channel: 0, value: 8192 }), None);
    assert_eq!(route_midi_message(MidiEvent::Unknown), None);
}

#[test]
fn last_pressed_key_sounds_and_release_falls_back() {
    let mut input = MidiInput::new();
    assert_eq!(
        input.handle_midi_irq(note_on(60, 100)),
        Some(MidiResponse::Play(Sound::Play { retrigger: true, note: 60, velocity: 100 }))
    );
    assert_eq!(
        input.handle_midi_irq(note_on(64, 50)),
        Some(MidiResponse::Play(Sound::Play { retrigger: true, note: 64, velocity: 50 }))
    );
    assert_eq!(
        input.handle_midi_irq(note_off(64)),
        Some(MidiResponse::Play(Sound::Play { retrigger: true, note: 60, velocity: 100 }))
    );
    assert_eq!(input.handle_midi_irq(note_off(60)), Some(MidiResponse::Play(Sound::Stop)));
}

#[test]
fn releasing_a_key_that_is_not_held_keeps_the_top_key() {
    let mut input = MidiInput::new();
    input.handle_note(true, 40, 10);
    assert_eq!(input.handle_note(false, 41, 0), Sound::Play { retrigger: true, note: 40, velocity: 10 });
    assert_eq!(input.handle_note(false, 40, 0), Sound::Stop);
    assert_eq!(input.handle_note(false, 40, 0), Sound::Stop);
}

#[test]
fn a_key_pressed_twice_is_released_at_once() {
    let mut input = MidiInput::new();
    input.handle_note(true, 50, 1);
    input.handle_note(true, 52, 2);
    input.handle_note(true, 50, 3);
    assert_eq!(input.handle_note(false, 50, 0), Sound::Play { retrigger: true, note: 52, velocity: 2 });
}

#[test]
fn the_oldest_key_is_forgotten_after_five() {
    let mut input = MidiInput::new();
    for note in 1..=6u8 {
        input.handle_note(true, note, note);
    }
    // keys 2..=6 are remembered; releasing them one by one never falls back to key 1
    for note in (3..=6u8).rev() {
        assert_eq!(
            input.handle_note(false, note, 0),
            Sound::Play { retrigger: true, note: note - 1, velocity: note - 1 }
        );
    }
    assert_eq!(input.handle_note(false, 2, 0), Sound::Stop);
}

#[test]
fn no_message_changes_nothing() {
    let mut input = MidiInput::new();
    assert_eq!(input.handle_midi_irq(None), None);
    assert_eq!(input.set_modulation(33), 33);
    assert_eq!(
        input.handle_midi_irq(Some(MidiEvent::Aftertouch { channel: 2, note: None, value: 127 })),
        Some(MidiResponse::Modulation(127))
    );
    assert_eq!(input.handle_midi_irq(Some(MidiEvent::Unknown)), None);
}
