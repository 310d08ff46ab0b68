use sequencer::note::{MixedSequence, Note, NoteDuration, Sequence};

#[test]
fn test_pitch_to_note() {
    assert_eq!(Sequence::midi_to_note_name(21), "A0");
    assert_eq!(Sequence::midi_to_note_name(26), "D1");
    assert_eq!(Sequence::midi_to_note_name(27), "D#1 / Eb1");
    assert_eq!(Sequence::midi_to_note_name(33), "A1");
    assert_eq!(Sequence::midi_to_note_name(60), "C4");
    assert_eq!(Sequence::midi_to_note_name(69), "A4");
    assert_eq!(Sequence::midi_to_note_name(96), "C7");
    assert_eq!(Sequence::midi_to_note_name(127), "G9");
}

#[test]
fn note_names_at_the_ends_of_the_range() {
    assert_eq!(Sequence::midi_to_note_name(12), "C0");
    assert_eq!(Sequence::midi_to_note_name(23), "B0");
    assert_eq!(Sequence::midi_to_note_name(131), "B9");
    assert_eq!(Sequence::midi_to_note_name(132), "C10");
    assert_eq!(Sequence::midi_to_note_name(255), "D#20 / Eb20");
}

#[test]
fn every_raised_class_has_two_names() {
    assert_eq!(Sequence::midi_to_note_name(61), "C#4 / Db4");
    assert_eq!(Sequence::midi_to_note_name(63), "D#4 / Eb4");
    assert_eq!(Sequence::midi_to_note_name(66), "F#4 / Gb4");
    assert_eq!(Sequence::midi_to_note_name(68), "G#4 / Ab4");
    assert_eq!(Sequence::midi_to_note_name(70), "A#4 / Bb4");
    assert_eq!(Sequence::midi_to_note_name(62), "D4");
    assert_eq!(Sequence::midi_to_note_name(64), "E4");
    assert_eq!(Sequence::midi_to_note_name(65), "F4");
    assert_eq!(Sequence::midi_to_note_name(67), "G4");
    assert_eq!(Sequence::midi_to_note_name(71), "B4");
}

#[test]
fn sixteenths_of_each_note_length() {
    assert_eq!(NoteDuration::Sixteenth.sixteenths(), 1);
    assert_eq!(NoteDuration::Eighth.sixteenths(), 2);
    assert_eq!(NoteDuration::DottedEight.sixteenths(), 3);
    assert_eq!(NoteDuration::Quarter.sixteenths(), 4);
    assert_eq!(NoteDuration::DottedQuarter.sixteenths(), 6);
    assert_eq!(NoteDuration::Half.sixteenths(), 8);
    assert_eq!(NoteDuration::DottedHalf.sixteenths(), 12);
    assert_eq!(NoteDuration::Whole.sixteenths(), 16);
}

#[test]
fn durations_at_120_bpm() {
    assert_eq!(Note::new(60, 100, NoteDuration::Sixteenth, 120).duration, 125);
    assert_eq!(Note::new(60, 100, NoteDuration::Eighth, 120).duration, 250);
    assert_eq!(Note::new(60, 100, NoteDuration::DottedEight, 120).duration, 375);
    assert_eq!(Note::new(60, 100, NoteDuration::Quarter, 120).duration, 500);
    assert_eq!(Note::new(60, 100, NoteDuration::DottedQuarter, 120).duration, 750);
    assert_eq!(Note::new(60, 100, NoteDuration::Half, 120).duration, 1000);
    assert_eq!(Note::new(60, 100, NoteDuration::DottedHalf, 120).duration, 1500);
    assert_eq!(Note::new(60, 100, NoteDuration::Whole, 120).duration, 2000);
}

#[test]
fn durations_round_down_to_whole_milliseconds() {
    assert_eq!(Note::new(60, 100, NoteDuration::Sixteenth, 121).duration, 123);
    assert_eq!(Note::new(60, 100, NoteDuration::Quarter, 7).duration, 8571);
    assert_eq!(Note::new(60, 100, NoteDuration::Sixteenth, 1).duration, 15000);
    assert_eq!(Note::new(60, 100, NoteDuration::Whole, 1).duration, 240000);
    assert_eq!(Note::new(60, 100, NoteDuration::Sixteenth, 15001).duration, 0);
    assert_eq!(Note::new(60, 100, NoteDuration::Whole, u32::MAX).duration, 0);
}

#[test]
fn a_note_keeps_pitch_and_velocity() {
    let note: Note = Note::new(72, 99, NoteDuration::Quarter, 60);
    assert_eq!(note, Note { pitch: 72, velocity: 99, duration: 1000 });
    assert!(!note.is_rest());
}

#[test]
fn midi_data_bytes_end_at_127() {
    assert!(Note { pitch: 127, velocity: 127, duration: 0 }.is_valid());
    assert!(Note { pitch: 0, velocity: 0, duration: u64::MAX }.is_valid());
    assert!(!Note { pitch: 128, velocity: 100, duration: 0 }.is_valid());
    assert!(!Note { pitch: 60, velocity: 128, duration: 0 }.is_valid());
}

#[test]
fn a_rest_has_pitch_and_velocity_zero() {
    let rest: Note = Note::rest(NoteDuration::Sixteenth, 120);
    assert_eq!(rest, Note { pitch: 0, velocity: 0, duration: 125 });
    assert!(rest.is_rest());
}

#[test]
fn the_default_sequence_is_sixteen_rests() {
    let sequence: Sequence = Sequence::default();
    assert_eq!(sequence.len(), 16);
    assert_eq!(sequence.notes, vec![Note { pitch: 0, velocity: 0, duration: 125 }; 16]);
    assert_eq!(sequence.sounding_count(), 0);
}

#[test]
fn the_empty_sequence_has_no_notes() {
    let sequence: Sequence = Sequence::empty();
    assert_eq!(sequence.len(), 0);
    assert!(sequence.notes.is_empty());
    assert_eq!(sequence.sounding_count(), 0);
}

#[test]
fn repeat_makes_equal_notes() {
    let note: Note = Note::new(40, 100, NoteDuration::Eighth, 100);
    let sequence: Sequence = Sequence::repeat(note, 3);
    assert_eq!(sequence.notes, vec![note, note, note]);
    assert_eq!(sequence.sounding_count(), 3);
    assert_eq!(Sequence::repeat(note, 0).len(), 0);
}

#[test]
fn a_clone_holds_the_same_notes() {
    let mut sequence: Sequence = Sequence::empty();
    sequence.notes.push(Note::new(40, 100, NoteDuration::Eighth, 100));
    sequence.notes.push(Note::rest(NoteDuration::Eighth, 100));
    sequence.notes.push(Note::new(43, 90, NoteDuration::Quarter, 100));
    let copy: Sequence = sequence.clone();
    assert_eq!(copy.notes, sequence.notes);
    assert_eq!(copy.sounding_count(), 2);
}

#[test]
fn the_default_mix_is_sixteen_double_rests() {
    let mixed: MixedSequence = MixedSequence::default();
    let rest: Note = Note { pitch: 0, velocity: 0, duration: 125 };
    assert_eq!(mixed.len(), 16);
    assert_eq!(mixed.notes, vec![(Some(rest), Some(rest)); 16]);
}

#[test]
fn push_adds_a_step_at_the_end() {
    let mut mixed: MixedSequence = MixedSequence::new();
    assert_eq!(mixed.len(), 0);
    let note: Note = Note::new(50, 100, NoteDuration::Sixteenth, 120);
    mixed.push((Some(note), None));
    mixed.push((None, None));
    assert_eq!(mixed.notes, vec![(Some(note), None), (None, None)]);
}
