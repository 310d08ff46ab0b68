//! What the main window keeps and how it answers what it is told. Drawing
//! is not done here; this is the part that decides.

use vstd::prelude::*;
use crate::sequencers::euclidean::gui::Gui as EuclideanGui;
use crate::sequencers::euclidean::gui::Message as EuclideanGuiMessage;
use crate::sequencers::mixer::state::DEFAULT_RATIO;
use crate::state::SharedState;

verus! {

/// What reaches the window from the rest of the program.
#[derive(Clone, Copy, Debug, PartialEq, Eq, Structural)]
pub enum Event {
    /// The way from the program to the window is open.
    Connected,
    /// The way from the program to the window is closed.
    Disconnected,
    /// The shared state has changed and now stands like this.
    StateChanged(SharedState),
}

/// What the window is told.
#[derive(Debug)]
pub enum Message {
    ReceivedEvent(Event),
    LeftSequencer(EuclideanGuiMessage),
    RightSequencer(EuclideanGuiMessage),
    /// The ratio slider was moved to this ratio, in hundredths.
    MixerRatioChanged(u8),
    RefreshMidiPorts,
    /// The MIDI output ports that there are, or why they could not be had.
    MidiPortsLoaded(Result<Vec<String>, String>),
    /// The user picked this port.
    MidiPortSelected(String),
    /// The MIDI output is now connected to this port.
    MidiPortSet(String),
    ErrorOccurred(String),
}

/// What the window asks of the MIDI output in answer to a message.
#[derive(Debug, PartialEq, Eq)]
pub enum Command {
    /// Nothing.
    Nothing,
    /// Say which ports there are.
    GetPorts,
    /// Connect to this port.
    SetPort(String),
}

/// What the main window keeps.
#[derive(Debug)]
pub struct Gui {
    pub cached_state: Option<SharedState>,
    pub sequencer_left: EuclideanGui,
    pub sequencer_right: EuclideanGui,
    /// In hundredths.
    pub mixer_ratio: u8,
    pub midi_out_ports: Vec<String>,
    pub selected_midi_port: Option<String>,
}

impl Gui {
    /// A window that has heard nothing yet: it shows the two given slot
    /// displays, the ratio 0.5, one port without a name, and no port
    /// picked.
    pub fn new(sequencer_left: EuclideanGui, sequencer_right: EuclideanGui) -> (gui: Self)
        ensures
            gui.cached_state is None,
            gui.sequencer_left == sequencer_left,
            gui.sequencer_right == sequencer_right,
            gui.mixer_ratio == DEFAULT_RATIO,
            gui.midi_out_ports@.len() == 1,
            gui.midi_out_ports@[0]@ == Seq::<char>::empty(),
            gui.selected_midi_port is None,
    {
        let mut midi_out_ports: Vec<String> = Vec::new();
        midi_out_ports.push(String::new());
        Gui {
            cached_state: None,
            sequencer_left,
            sequencer_right,
            mixer_ratio: DEFAULT_RATIO,
            midi_out_ports,
            selected_midi_port: None,
        }
    }

    /// Takes in what the message brings and says what to ask of the MIDI
    /// output. A new state goes to both slot displays and sets the ratio
    /// shown; a moved slider sets the ratio shown; a list of ports takes the
    /// place of the one kept; a port that the output has connected to
    /// becomes the picked one. Asking for the ports and picking one are
    /// handed on to the MIDI output. Everything else changes nothing.
    pub fn update(&mut self, message: Message) -> (command: Command)
        ensures
            match message {
                Message::ReceivedEvent(Event::StateChanged(state)) => {
                    &&& command is Nothing
                    &&& *final(self) == (Gui {
                        cached_state: Some(state),
                        sequencer_left: EuclideanGui {
                            state,
                            slot: old(self).sequencer_left.slot,
                        },
                        sequencer_right: EuclideanGui {
                            state,
                            slot: old(self).sequencer_right.slot,
                        },
                        mixer_ratio: state.mixer_state.ratio,
                        ..*old(self)
                    })
                },
                Message::MixerRatioChanged(ratio) => {
                    &&& command is Nothing
                    &&& *final(self) == (Gui { mixer_ratio: ratio, ..*old(self) })
                },
                Message::RefreshMidiPorts => {
                    &&& command is GetPorts
                    &&& *final(self) == *old(self)
                },
                Message::MidiPortsLoaded(Ok(ports)) => {
                    &&& command is Nothing
                    &&& *final(self) == (Gui { midi_out_ports: ports, ..*old(self) })
                },
                Message::MidiPortSelected(port) => {
                    &&& command == Command::SetPort(port)
                    &&& *final(self) == *old(self)
                },
                Message::MidiPortSet(port) => {
                    &&& command is Nothing
                    &&& *final(self) == (Gui { selected_midi_port: Some(port), ..*old(self) })
                },
                _ => {
                    &&& command is Nothing
                    &&& *final(self) == *old(self)
                },
            },
    {
        match message {
            Message::ReceivedEvent(event) => match event {
                Event::Connected => {},
                Event::Disconnected => {},
                Event::StateChanged(state) => {
                    self.cached_state = Some(state);
                    self.sequencer_left.update(EuclideanGuiMessage::FromApp(state));
                    self.sequencer_right.update(EuclideanGuiMessage::FromApp(state));
                    self.mixer_ratio = state.mixer_state.ratio;
                },
            },
            Message::LeftSequencer(_) => {},
            Message::RightSequencer(_) => {},
            Message::MixerRatioChanged(ratio) => {
                self.mixer_ratio = ratio;
            },
            Message::RefreshMidiPorts => {
                return Command::GetPorts;
            },
            Message::MidiPortsLoaded(result) => match result {
                Ok(ports) => {
                    self.midi_out_ports = ports;
                },
                Err(_) => {},
            },
            Message::MidiPortSelected(port) => {
                return Command::SetPort(port);
            },
            Message::ErrorOccurred(_) => {},
            Message::MidiPortSet(port) => {
                self.selected_midi_port = Some(port);
            },
        }
        Command::Nothing
    }
}

} // verus!
