use sequencer::midi::{
    all_notes_off, choose_port, handle_midi_message, note_off, note_on, sounding, step_duration,
    step_events, step_notes_off, MidiEvent,
};
use sequencer::note::Note;
use sequencer::state::SharedState;

fn note(pitch: u8, velocity: u8, duration: u64) -> Note {
    Note { pitch, velocity, duration }
}

fn rest(duration: u64) -> Note {
    Note { pitch: 0, velocity: 0, duration }
}

#[test]
fn the_bytes_of_note_on_and_note_off() {
    assert_eq!(note_on(note(60, 100, 125), 0), [0x90, 60, 100, 0]);
    assert_eq!(note_on(note(127, 1, 5), 15), [0x90, 127, 1, 15]);
    assert_eq!(note_off(60, 0), [0x80, 60, 0, 0]);
    assert_eq!(note_off(127, 15), [0x80, 127, 0, 15]);
}

#[test]
fn a_single_voice_starts_and_ends() {
    assert_eq!(
        step_events((Some(note(60, 100, 125)), None), 2),
        vec![
            MidiEvent { at: 0, message: [0x90, 60, 100, 2] },
            MidiEvent { at: 125, message: [0x80, 60, 0, 2] },
        ]
    );
    assert_eq!(
        step_events((None, Some(note(72, 90, 250))), 9),
        vec![
            MidiEvent { at: 0, message: [0x90, 72, 90, 9] },
            MidiEvent { at: 250, message: [0x80, 72, 0, 9] },
        ]
    );
}

#[test]
fn two_voices_start_together_and_end_each_in_its_time() {
    assert_eq!(
        step_events((Some(note(60, 100, 125)), Some(note(72, 90, 250))), 1),
        vec![
            MidiEvent { at: 0, message: [0x90, 60, 100, 1] },
            MidiEvent { at: 0, message: [0x90, 72, 90, 1] },
            MidiEvent { at: 125, message: [0x80, 60, 0, 1] },
            MidiEvent { at: 250, message: [0x80, 72, 0, 1] },
        ]
    );
    assert_eq!(
        step_events((Some(note(60, 100, 500)), Some(note(72, 90, 250))), 1),
        vec![
            MidiEvent { at: 0, message: [0x90, 60, 100, 1] },
            MidiEvent { at: 0, message: [0x90, 72, 90, 1] },
            MidiEvent { at: 250, message: [0x80, 72, 0, 1] },
            MidiEvent { at: 500, message: [0x80, 60, 0, 1] },
        ]
    );
    assert_eq!(
        step_events((Some(note(60, 100, 125)), Some(note(72, 90, 125))), 1),
        vec![
            MidiEvent { at: 0, message: [0x90, 60, 100, 1] },
            MidiEvent { at: 0, message: [0x90, 72, 90, 1] },
            MidiEvent { at: 125, message: [0x80, 60, 0, 1] },
            MidiEvent { at: 125, message: [0x80, 72, 0, 1] },
        ]
    );
}

#[test]
fn a_rest_sends_no_bytes() {
    assert_eq!(step_events((Some(rest(125)), Some(rest(125))), 0), vec![]);
    assert_eq!(step_events((Some(rest(125)), None), 0), vec![]);
    assert_eq!(step_events((None, None), 0), vec![]);
    assert_eq!(
        step_events((Some(rest(500)), Some(note(72, 90, 250))), 4),
        vec![
            MidiEvent { at: 0, message: [0x90, 72, 90, 4] },
            MidiEvent { at: 250, message: [0x80, 72, 0, 4] },
        ]
    );
    assert_eq!(sounding(Some(rest(5))), None);
    assert_eq!(sounding(None), None);
    assert_eq!(sounding(Some(note(1, 0, 0))), Some(note(1, 0, 0)));
}

#[test]
fn a_step_lasts_as_long_as_its_longer_voice() {
    assert_eq!(step_duration((Some(note(60, 100, 125)), Some(note(72, 90, 250))), 120), 250);
    assert_eq!(step_duration((Some(note(60, 100, 500)), Some(note(72, 90, 250))), 120), 500);
    assert_eq!(step_duration((Some(note(60, 100, 125)), None), 120), 125);
    assert_eq!(step_duration((None, Some(note(72, 90, 250))), 120), 250);
    assert_eq!(step_duration((Some(rest(125)), Some(rest(125))), 90), 125);
    assert_eq!(step_duration((Some(rest(375)), Some(note(72, 90, 250))), 120), 375);
}

#[test]
fn a_step_without_voices_lasts_a_sixteenth() {
    assert_eq!(step_duration((None, None), 120), 125);
    assert_eq!(step_duration((None, None), 60), 250);
    assert_eq!(step_duration((None, None), 121), 123);
    assert_eq!(step_duration((None, None), 1), 15000);
}

#[test]
fn a_single_pulse_over_four_steps_played_for_a_second() {
    let pulse: Note = note(60, 100, 125);
    let silent: Note = rest(125);
    let steps = [(Some(pulse), None), (Some(silent), None), (Some(silent), None), (Some(silent), None)];
    let mut now: u64 = 0;
    let mut sent: Vec<(u64, [u8; 4])> = Vec::new();
    for round in 0..2 {
        for step in steps {
            for event in step_events(step, 0) {
                sent.push((now + event.at, event.message));
            }
            now += step_duration(step, 120);
        }
        assert_eq!(now, 500 * (round + 1));
    }
    assert_eq!(
        sent,
        vec![
            (0, [0x90, 60, 100, 0]),
            (125, [0x80, 60, 0, 0]),
            (500, [0x90, 60, 100, 0]),
            (625, [0x80, 60, 0, 0]),
        ]
    );
}

#[test]
fn the_sounding_voices_of_a_step_are_silenced() {
    assert_eq!(
        step_notes_off((Some(note(60, 100, 125)), Some(note(72, 90, 250))), 3),
        vec![[0x80, 60, 0, 3], [0x80, 72, 0, 3]]
    );
    assert_eq!(step_notes_off((Some(rest(125)), Some(note(72, 90, 250))), 3), vec![[0x80, 72, 0, 3]]);
    assert_eq!(step_notes_off((Some(note(60, 100, 125)), None), 3), vec![[0x80, 60, 0, 3]]);
    assert_eq!(step_notes_off((None, None), 3), Vec::<[u8; 4]>::new());
}

#[test]
fn all_notes_off_names_every_pitch() {
    let messages: Vec<[u8; 4]> = all_notes_off(5);
    assert_eq!(messages.len(), 128);
    for (pitch, message) in messages.iter().enumerate() {
        assert_eq!(*message, [0x80, pitch as u8, 0, 5]);
    }
}

#[test]
fn a_clock_message_is_counted() {
    let mut state: SharedState = SharedState::new(120);
    handle_midi_message(&[0xF8], &mut state);
    assert_eq!(state.clock_ticks, 1);
    for _ in 0..23 {
        handle_midi_message(&[0xF8], &mut state);
    }
    assert_eq!(state.clock_ticks, 0);
    assert_eq!(state.quarter_notes, 1);
    handle_midi_message(&[0xF8, 1, 2], &mut state);
    assert_eq!(state.clock_ticks, 1);
}

#[test]
fn other_messages_are_passed_over() {
    let first: SharedState = SharedState::new(120);
    let mut state: SharedState = first;
    handle_midi_message(&[0x90, 60, 100], &mut state);
    handle_midi_message(&[0xFA], &mut state);
    handle_midi_message(&[0x00, 0xF8], &mut state);
    handle_midi_message(&[], &mut state);
    assert_eq!(state, first);
}

fn names(list: &[&str]) -> Vec<String> {
    list.iter().map(|name| name.to_string()).collect()
}

#[test]
fn the_first_serial_bridge_is_chosen() {
    assert_eq!(choose_port(&names(&["Midi Through", "ttymidi:MIDI out", "ttymidi 2"])), Some(1));
    assert_eq!(choose_port(&names(&["ttymidi"])), Some(0));
    assert_eq!(choose_port(&names(&["a", "b", "my-ttymidi-port"])), Some(2));
}

#[test]
fn the_first_port_is_chosen_where_there_is_no_serial_bridge() {
    assert_eq!(choose_port(&names(&["Midi Through", "Synth"])), Some(0));
    assert_eq!(choose_port(&names(&["ttymid", "tty midi", "TTYMIDI"])), Some(0));
    assert_eq!(choose_port(&names(&[""])), Some(0));
}

#[test]
fn no_port_is_chosen_where_there_is_none() {
    assert_eq!(choose_port(&names(&[])), None);
}
