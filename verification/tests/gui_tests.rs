use sequencer::gui::{Command, Event, Gui, Message};
use sequencer::sequencers::euclidean::gui::{Cell, Gui as EuclideanGui, Message as EuclideanMessage};
use sequencer::sequencers::euclidean::state::EuclideanSequencerState;
use sequencer::sequencers::mixer::gui::{Gui as MixerGui, Message as MixerMessage};
use sequencer::sequencers::mixer::state::MixerState;
use sequencer::state::{ActiveSequencer, SharedState};

fn state_with(left: EuclideanSequencerState, index: usize) -> SharedState {
    SharedState { left_state: left, current_note_index: index, ..SharedState::new(120) }
}

#[test]
fn a_new_slot_display_shows_the_defaults() {
    let gui: EuclideanGui = EuclideanGui::new(ActiveSequencer::Right);
    assert_eq!(gui.state, SharedState::new(120));
    assert_eq!(gui.slot, ActiveSequencer::Right);
    assert!(!gui.is_active());
    assert!(EuclideanGui::new(ActiveSequencer::Left).is_active());
    assert_eq!(gui.note_info(), "C4");
}

#[test]
fn the_cells_of_five_pulses_over_sixteen_steps() {
    let mut gui: EuclideanGui = EuclideanGui::new(ActiveSequencer::Left);
    gui.update(EuclideanMessage::FromApp(state_with(
        EuclideanSequencerState { steps: 16, pulses: 5, phase: 0, pitch: 61 },
        6,
    )));
    let mut expected: Vec<Cell> = vec![Cell::Idle; 16];
    for place in [0usize, 3, 9, 12] {
        expected[place] = Cell::Pulse;
    }
    expected[6] = Cell::Playhead;
    assert_eq!(gui.cells(), expected);
    assert_eq!(gui.cell(6), Cell::Playhead);
    assert_eq!(gui.cell(3), Cell::Pulse);
    assert_eq!(gui.cell(4), Cell::Idle);
    assert_eq!(gui.note_info(), "C#4 / Db4");
}

#[test]
fn the_cells_of_a_short_turned_pattern() {
    let mut gui: EuclideanGui = EuclideanGui::new(ActiveSequencer::Left);
    gui.update(EuclideanMessage::FromApp(state_with(
        EuclideanSequencerState { steps: 6, pulses: 2, phase: 1, pitch: 60 },
        16,
    )));
    let mut expected: Vec<Cell> = vec![Cell::Unused; 16];
    expected[0] = Cell::Idle;
    expected[1] = Cell::Pulse;
    expected[2] = Cell::Idle;
    expected[3] = Cell::Idle;
    expected[4] = Cell::Playhead;
    expected[5] = Cell::Idle;
    assert_eq!(gui.cells(), expected);
}

#[test]
fn the_cells_of_a_pattern_without_pulses() {
    let gui: EuclideanGui = EuclideanGui::new(ActiveSequencer::Left);
    let mut expected: Vec<Cell> = vec![Cell::Idle; 16];
    expected[0] = Cell::Playhead;
    assert_eq!(gui.cells(), expected);
}

#[test]
fn each_slot_display_shows_its_own_slot() {
    let state: SharedState = SharedState {
        right_state: EuclideanSequencerState { steps: 4, pulses: 4, phase: 0, pitch: 33 },
        active_sequencer: ActiveSequencer::Right,
        current_note_index: 2,
        ..SharedState::new(120)
    };
    let mut left: EuclideanGui = EuclideanGui::new(ActiveSequencer::Left);
    let mut right: EuclideanGui = EuclideanGui::new(ActiveSequencer::Right);
    left.update(EuclideanMessage::FromApp(state));
    right.update(EuclideanMessage::FromApp(state));
    assert!(!left.is_active());
    assert!(right.is_active());
    assert_eq!(left.cell(2), Cell::Playhead);
    assert_eq!(left.cell(0), Cell::Idle);
    assert_eq!(right.cell(2), Cell::Playhead);
    assert_eq!(right.cell(0), Cell::Pulse);
    assert_eq!(right.cell(3), Cell::Pulse);
    assert_eq!(right.cell(4), Cell::Unused);
    assert_eq!(left.note_info(), "C4");
    assert_eq!(right.note_info(), "A1");
}

#[test]
fn the_mixer_display_follows_state_and_slider() {
    let mut gui: MixerGui = MixerGui::new();
    assert_eq!(gui.state, MixerState { ratio: 50 });
    assert_eq!(MixerGui::default(), gui);
    gui.update(MixerMessage::FromApp(MixerState { ratio: 35 }));
    assert_eq!(gui.state.ratio, 35);
    gui.update(MixerMessage::RatioChanged(80));
    assert_eq!(gui.state.ratio, 80);
    gui.update(MixerMessage::RatioChanged(100));
    assert_eq!(gui.state.ratio, 100);
    gui.update(MixerMessage::RatioChanged(101));
    assert_eq!(gui.state.ratio, 100);
    gui.update(MixerMessage::RatioChanged(0));
    assert_eq!(gui.state.ratio, 0);
}

fn new_window() -> Gui {
    Gui::new(EuclideanGui::new(ActiveSequencer::Left), EuclideanGui::new(ActiveSequencer::Right))
}

#[test]
fn a_new_window_has_heard_nothing() {
    let gui: Gui = new_window();
    assert!(gui.cached_state.is_none());
    assert_eq!(gui.mixer_ratio, 50);
    assert_eq!(gui.midi_out_ports, vec![String::new()]);
    assert!(gui.selected_midi_port.is_none());
    assert_eq!(gui.sequencer_left.slot, ActiveSequencer::Left);
    assert_eq!(gui.sequencer_right.slot, ActiveSequencer::Right);
}

#[test]
fn a_changed_state_reaches_both_slot_displays() {
    let mut gui: Gui = new_window();
    let state: SharedState = SharedState {
        mixer_state: MixerState { ratio: 70 },
        current_note_index: 3,
        ..SharedState::new(99)
    };
    let command: Command = gui.update(Message::ReceivedEvent(Event::StateChanged(state)));
    assert_eq!(command, Command::Nothing);
    assert_eq!(gui.cached_state, Some(state));
    assert_eq!(gui.sequencer_left.state, state);
    assert_eq!(gui.sequencer_right.state, state);
    assert_eq!(gui.sequencer_left.slot, ActiveSequencer::Left);
    assert_eq!(gui.sequencer_right.slot, ActiveSequencer::Right);
    assert_eq!(gui.mixer_ratio, 70);
}

#[test]
fn the_ports_are_asked_for_loaded_picked_and_set() {
    let mut gui: Gui = new_window();
    assert_eq!(gui.update(Message::RefreshMidiPorts), Command::GetPorts);
    let ports: Vec<String> = vec!["one".to_string(), "two".to_string()];
    assert_eq!(gui.update(Message::MidiPortsLoaded(Ok(ports.clone()))), Command::Nothing);
    assert_eq!(gui.midi_out_ports, ports);
    assert_eq!(gui.update(Message::MidiPortsLoaded(Err("gone".to_string()))), Command::Nothing);
    assert_eq!(gui.midi_out_ports, ports);
    assert_eq!(
        gui.update(Message::MidiPortSelected("two".to_string())),
        Command::SetPort("two".to_string())
    );
    assert!(gui.selected_midi_port.is_none());
    assert_eq!(gui.update(Message::MidiPortSet("two".to_string())), Command::Nothing);
    assert_eq!(gui.selected_midi_port, Some("two".to_string()));
}

#[test]
fn other_messages_change_nothing_in_the_window() {
    let mut gui: Gui = new_window();
    assert_eq!(gui.update(Message::ReceivedEvent(Event::Connected)), Command::Nothing);
    assert_eq!(gui.update(Message::ReceivedEvent(Event::Disconnected)), Command::Nothing);
    assert_eq!(gui.update(Message::ErrorOccurred("no".to_string())), Command::Nothing);
    let told: EuclideanMessage = EuclideanMessage::FromApp(SharedState::new(77));
    assert_eq!(gui.update(Message::LeftSequencer(told)), Command::Nothing);
    assert_eq!(gui.update(Message::RightSequencer(told)), Command::Nothing);
    assert!(gui.cached_state.is_none());
    assert_eq!(gui.sequencer_left.state, SharedState::new(120));
    assert_eq!(gui.mixer_ratio, 50);
    assert_eq!(gui.update(Message::MixerRatioChanged(20)), Command::Nothing);
    assert_eq!(gui.mixer_ratio, 20);
}
