use sequencer::note::{Note, Sequence};
use sequencer::sequencers::common::Sequencer;
use sequencer::sequencers::euclidean::config::EuclideanSequencerConfig;
use sequencer::sequencers::euclidean::state::{EuclideanSequencerInput, EuclideanSequencerState};
use sequencer::sequencers::euclidean::{generate, EuclideanSequencer};
use sequencer::state::ActiveSequencer;

fn pattern(steps: usize, pulses: usize, phase: usize, pitch: u8) -> EuclideanSequencerState {
    EuclideanSequencerState { steps, pulses, phase, pitch }
}

fn sounding_places(sequence: &Sequence) -> Vec<usize> {
    let mut places: Vec<usize> = Vec::new();
    for (place, note) in sequence.notes.iter().enumerate() {
        if note.pitch != 0 {
            places.push(place);
        }
    }
    places
}

#[test]
fn five_pulses_over_sixteen_steps() {
    let sequence: Sequence = generate(&pattern(16, 5, 0, 60), 120);
    assert_eq!(sequence.len(), 16);
    assert_eq!(sounding_places(&sequence), vec![0, 3, 6, 9, 12]);
    for place in [0usize, 3, 6, 9, 12] {
        assert_eq!(sequence.notes[place], Note { pitch: 60, velocity: 100, duration: 125 });
    }
    for place in [1usize, 2, 4, 5, 7, 8, 10, 11, 13, 14, 15] {
        assert_eq!(sequence.notes[place], Note { pitch: 0, velocity: 0, duration: 125 });
    }
}

#[test]
fn one_pulse_over_four_steps() {
    let sequence: Sequence = generate(&pattern(4, 1, 0, 60), 120);
    let rest: Note = Note { pitch: 0, velocity: 0, duration: 125 };
    assert_eq!(
        sequence.notes,
        vec![Note { pitch: 60, velocity: 100, duration: 125 }, rest, rest, rest]
    );
}

#[test]
fn three_pulses_over_eight_steps() {
    let sequence: Sequence = generate(&pattern(8, 3, 0, 48), 90);
    assert_eq!(sounding_places(&sequence), vec![0, 2, 5]);
    assert_eq!(sequence.notes[2], Note { pitch: 48, velocity: 100, duration: 166 });
    assert_eq!(sequence.notes[1], Note { pitch: 0, velocity: 0, duration: 166 });
}

#[test]
fn no_pulse_gives_a_single_rest() {
    let sequence: Sequence = generate(&pattern(16, 0, 0, 60), 120);
    assert_eq!(sequence.notes, vec![Note { pitch: 0, velocity: 0, duration: 125 }]);
    let short: Sequence = generate(&pattern(1, 0, 0, 20), 60);
    assert_eq!(short.notes, vec![Note { pitch: 0, velocity: 0, duration: 250 }]);
}

#[test]
fn every_step_a_pulse() {
    let sequence: Sequence = generate(&pattern(7, 7, 3, 108), 120);
    assert_eq!(sequence.notes, vec![Note { pitch: 108, velocity: 100, duration: 125 }; 7]);
}

#[test]
fn phase_turns_the_pattern() {
    assert_eq!(sounding_places(&generate(&pattern(16, 5, 2, 60), 120)), vec![2, 5, 8, 11, 14]);
    assert_eq!(sounding_places(&generate(&pattern(16, 5, 15, 60), 120)), vec![2, 5, 8, 11, 15]);
    assert_eq!(sounding_places(&generate(&pattern(4, 1, 3, 60), 120)), vec![3]);
    assert_eq!(sounding_places(&generate(&pattern(8, 3, 4, 60), 120)), vec![1, 4, 6]);
}

#[test]
fn length_and_pulse_count_for_every_valid_pattern() {
    for steps in 1usize..=16 {
        for pulses in 0usize..=steps {
            for phase in 0usize..steps {
                let sequence: Sequence = generate(&pattern(steps, pulses, phase, 64), 133);
                if pulses == 0 {
                    assert_eq!(sequence.len(), 1);
                    assert_eq!(sequence.notes[0].pitch, 0);
                } else {
                    assert_eq!(sequence.len(), steps);
                    assert_eq!(sequence.sounding_count(), pulses);
                }
            }
        }
    }
}

#[test]
fn a_new_pattern_is_the_default_one() {
    let state: EuclideanSequencerState = EuclideanSequencerState::new();
    assert_eq!(state, pattern(16, 0, 0, 60));
    assert_eq!(EuclideanSequencerState::default(), state);
    assert!(state.is_valid());
}

#[test]
fn validity_is_told() {
    assert!(pattern(1, 0, 0, 20).is_valid());
    assert!(pattern(16, 16, 15, 108).is_valid());
    assert!(!pattern(0, 0, 0, 60).is_valid());
    assert!(!pattern(17, 0, 0, 60).is_valid());
    assert!(!pattern(4, 5, 0, 60).is_valid());
    assert!(!pattern(4, 1, 4, 60).is_valid());
    assert!(!pattern(4, 1, 0, 19).is_valid());
    assert!(!pattern(4, 1, 0, 109).is_valid());
}

#[test]
fn steps_stop_at_sixteen_and_at_one() {
    let mut state: EuclideanSequencerState = pattern(15, 3, 0, 60);
    state.increase_steps();
    assert_eq!(state, pattern(16, 3, 0, 60));
    state.increase_steps();
    assert_eq!(state, pattern(16, 3, 0, 60));
    state.increase_steps();
    assert_eq!(state, pattern(16, 3, 0, 60));
    let mut short: EuclideanSequencerState = pattern(2, 0, 0, 60);
    short.decrease_steps();
    assert_eq!(short, pattern(1, 0, 0, 60));
    short.decrease_steps();
    assert_eq!(short, pattern(1, 0, 0, 60));
}

#[test]
fn fewer_steps_take_pulses_and_phase_along() {
    let mut full: EuclideanSequencerState = pattern(8, 8, 0, 60);
    full.decrease_steps();
    assert_eq!(full, pattern(7, 7, 0, 60));
    let mut turned: EuclideanSequencerState = pattern(8, 2, 7, 60);
    turned.decrease_steps();
    assert_eq!(turned, pattern(7, 2, 0, 60));
    let mut both: EuclideanSequencerState = pattern(2, 2, 1, 60);
    both.decrease_steps();
    assert_eq!(both, pattern(1, 1, 0, 60));
    let mut neither: EuclideanSequencerState = pattern(8, 3, 6, 60);
    neither.decrease_steps();
    assert_eq!(neither, pattern(7, 3, 6, 60));
}

#[test]
fn pulses_stop_at_the_steps_and_at_none() {
    let mut state: EuclideanSequencerState = pattern(4, 3, 0, 60);
    state.increase_pulses();
    assert_eq!(state, pattern(4, 4, 0, 60));
    state.increase_pulses();
    assert_eq!(state, pattern(4, 4, 0, 60));
    let mut low: EuclideanSequencerState = pattern(4, 1, 0, 60);
    low.decrease_pulses();
    assert_eq!(low, pattern(4, 0, 0, 60));
    low.decrease_pulses();
    assert_eq!(low, pattern(4, 0, 0, 60));
}

#[test]
fn phase_goes_round_the_steps() {
    let mut state: EuclideanSequencerState = pattern(4, 1, 2, 60);
    state.increase_phase();
    assert_eq!(state.phase, 3);
    state.increase_phase();
    assert_eq!(state.phase, 0);
    state.decrease_phase();
    assert_eq!(state.phase, 3);
    state.decrease_phase();
    assert_eq!(state.phase, 2);
    let mut single: EuclideanSequencerState = pattern(1, 1, 0, 60);
    single.increase_phase();
    assert_eq!(single.phase, 0);
    single.decrease_phase();
    assert_eq!(single.phase, 0);
}

#[test]
fn pitch_stays_between_20_and_108() {
    let mut state: EuclideanSequencerState = pattern(4, 1, 0, 60);
    state.change_pitch(1);
    assert_eq!(state.pitch, 61);
    state.change_pitch(-12);
    assert_eq!(state.pitch, 49);
    state.change_pitch(127);
    assert_eq!(state.pitch, 108);
    state.change_pitch(1);
    assert_eq!(state.pitch, 108);
    state.change_pitch(-128);
    assert_eq!(state.pitch, 20);
    state.change_pitch(-1);
    assert_eq!(state.pitch, 20);
    state.change_pitch(12);
    assert_eq!(state.pitch, 32);
    let mut high: EuclideanSequencerState = pattern(4, 1, 0, 100);
    high.change_pitch(12);
    assert_eq!(high.pitch, 108);
    let mut low: EuclideanSequencerState = pattern(4, 1, 0, 25);
    low.change_pitch(-12);
    assert_eq!(low.pitch, 20);
}

#[test]
fn every_input_makes_its_edit() {
    let start: EuclideanSequencerState = pattern(8, 4, 2, 60);
    let cases: Vec<(EuclideanSequencerInput, EuclideanSequencerState)> = vec![
        (EuclideanSequencerInput::IncreaseSteps, pattern(9, 4, 2, 60)),
        (EuclideanSequencerInput::DecreaseSteps, pattern(7, 4, 2, 60)),
        (EuclideanSequencerInput::IncreasePulses, pattern(8, 5, 2, 60)),
        (EuclideanSequencerInput::DecreasePulses, pattern(8, 3, 2, 60)),
        (EuclideanSequencerInput::IncreasePhase, pattern(8, 4, 3, 60)),
        (EuclideanSequencerInput::DecreasePhase, pattern(8, 4, 1, 60)),
        (EuclideanSequencerInput::IncreasePitch, pattern(8, 4, 2, 61)),
        (EuclideanSequencerInput::DecreasePitch, pattern(8, 4, 2, 59)),
        (EuclideanSequencerInput::IncreaseOctave, pattern(8, 4, 2, 72)),
        (EuclideanSequencerInput::DecreaseOctave, pattern(8, 4, 2, 48)),
    ];
    for (input, expected) in cases {
        let mut state: EuclideanSequencerState = start;
        state.apply(input);
        assert_eq!(state, expected);
        assert!(state.is_valid());
    }
}

#[test]
fn a_configuration_is_edited_like_a_pattern() {
    let mut config: EuclideanSequencerConfig = EuclideanSequencerConfig::new();
    assert_eq!(config, EuclideanSequencerConfig { steps: 16, pulses: 0, phase: 0, pitch: 60 });
    assert_eq!(EuclideanSequencerConfig::default(), config);
    assert!(config.is_valid());
    config.increase_steps();
    assert_eq!(config.steps, 16);
    config.decrease_steps();
    assert_eq!(config.steps, 15);
    config.increase_pulses();
    config.increase_pulses();
    assert_eq!(config.pulses, 2);
    config.decrease_pulses();
    assert_eq!(config.pulses, 1);
    config.decrease_pulses();
    config.decrease_pulses();
    assert_eq!(config.pulses, 0);
    config.decrease_phase();
    assert_eq!(config.phase, 14);
    config.increase_phase();
    config.increase_phase();
    assert_eq!(config.phase, 1);
    config.change_pitch(-50);
    assert_eq!(config.pitch, 20);
    config.apply(EuclideanSequencerInput::IncreaseOctave);
    assert_eq!(config.pitch, 32);
    assert_eq!(config.state(), pattern(15, 0, 1, 32));
    assert_eq!(EuclideanSequencerConfig::from_state(pattern(3, 2, 1, 40)).state(), pattern(3, 2, 1, 40));
}

#[test]
fn a_configuration_keeps_pulses_within_steps() {
    let mut config: EuclideanSequencerConfig =
        EuclideanSequencerConfig { steps: 3, pulses: 3, phase: 2, pitch: 60 };
    config.increase_pulses();
    assert_eq!(config.pulses, 3);
    config.decrease_steps();
    assert_eq!(config, EuclideanSequencerConfig { steps: 2, pulses: 2, phase: 0, pitch: 60 });
}

#[test]
fn a_generator_speaks_when_its_parameters_change() {
    let mut left: EuclideanSequencer = EuclideanSequencer::new(ActiveSequencer::Left);
    assert_eq!(left.cached_state, EuclideanSequencerState::new());
    assert!(left.observe(EuclideanSequencerState::new(), 120).is_none());
    let update = left.observe(pattern(4, 1, 0, 60), 120);
    let (on_left, on_right) = update.expect("changed parameters give a sequence");
    assert!(on_right.is_none());
    assert_eq!(sounding_places(&on_left.expect("the left slot speaks on the left")), vec![0]);
    assert_eq!(left.cached_state, pattern(4, 1, 0, 60));
    assert!(left.observe(pattern(4, 1, 0, 60), 120).is_none());
    assert!(left.observe(pattern(4, 1, 0, 60), 90).is_none());

    let mut right: EuclideanSequencer = EuclideanSequencer::new(ActiveSequencer::Right);
    let update = right.observe(pattern(8, 3, 0, 72), 120);
    let (on_left, on_right) = update.expect("changed parameters give a sequence");
    assert!(on_left.is_none());
    let sequence: Sequence = on_right.expect("the right slot speaks on the right");
    assert_eq!(sounding_places(&sequence), vec![0, 2, 5]);
    assert_eq!(sequence.notes[0].pitch, 72);
    assert_eq!(right.sequencer_slot, ActiveSequencer::Right);
}

#[test]
fn a_generator_turns_its_cached_parameters_into_notes() {
    let mut sequencer: EuclideanSequencer = EuclideanSequencer::new(ActiveSequencer::Left);
    assert_eq!(
        sequencer.generate_sequence(120).notes,
        vec![Note { pitch: 0, velocity: 0, duration: 125 }]
    );
    sequencer.cached_state = pattern(2, 1, 1, 30);
    assert_eq!(
        sequencer.generate_sequence(60).notes,
        vec![
            Note { pitch: 0, velocity: 0, duration: 250 },
            Note { pitch: 30, velocity: 100, duration: 250 }
        ]
    );
}
