//! What the display of one generator slot shows: a grid of sixteen cells,
//! one per possible step, and the name of the pitch.

use vstd::prelude::*;
use crate::note::Sequence;
use crate::sequencers::euclidean::state::{EuclideanSequencerState, MAX_STEPS};
use crate::sequencers::euclidean::{beat_locations, is_among, spec_is_beat};
use crate::state::{SequencerSlot, SharedState, DEFAULT_BPM};

verus! {

/// What the display is told.
#[derive(Clone, Copy, Debug, PartialEq, Eq, Structural)]
pub enum Message {
    /// The shared state as it now stands.
    FromApp(SharedState),
}

/// How one cell of the grid is shown.
#[derive(Clone, Copy, Debug, PartialEq, Eq, Structural)]
pub enum Cell {
    /// The playhead stands here.
    Playhead,
    /// A pulse falls here.
    Pulse,
    /// The pattern is shorter than this.
    Unused,
    /// A step without a pulse.
    Idle,
}

/// The display of one slot: the state it was last told and the slot it
/// shows.
#[derive(Clone, Copy, Debug, PartialEq, Eq, Structural)]
pub struct Gui {
    pub state: SharedState,
    pub slot: SequencerSlot,
}

impl Gui {
    /// The display of `slot`, showing the state that a sequencer starts with.
    pub fn new(slot: SequencerSlot) -> (gui: Self)
        ensures
            gui.state == SharedState::spec_new(DEFAULT_BPM),
            gui.slot == slot,
    {
        Gui { state: SharedState::new(DEFAULT_BPM), slot }
    }

    /// Takes in the state that the message brings.
    pub fn update(&mut self, message: Message)
        ensures
            final(self).slot == old(self).slot,
            message matches Message::FromApp(state) && final(self).state == state,
    {
        match message {
            Message::FromApp(new_state) => {
                self.state = new_state;
            },
        }
    }

    /// The parameters of the slot that is shown.
    pub open spec fn spec_shown(self) -> EuclideanSequencerState {
        self.state.spec_slot_state(self.slot)
    }

    /// How cell `index` is shown. The playhead, counted round the steps of
    /// the pattern, goes before a pulse, a pulse before a cell past the end
    /// of the pattern.
    pub open spec fn spec_cell(self, index: int) -> Cell {
        let shown = self.spec_shown();
        if index == self.state.current_note_index % shown.steps {
            Cell::Playhead
        } else if spec_is_beat(shown, index) {
            Cell::Pulse
        } else if index >= shown.steps {
            Cell::Unused
        } else {
            Cell::Idle
        }
    }

    /// Whether the slot that is shown is the one that edits reach.
    pub fn is_active(&self) -> (active: bool)
        ensures
            active == (self.state.active_sequencer == self.slot),
    {
        self.state.active_sequencer == self.slot
    }

    /// How cell `index` of the grid is shown.
    pub fn cell(&self, index: usize) -> (cell: Cell)
        requires
            self.state.wf(),
        ensures
            cell == self.spec_cell(index as int),
    {
        let shown = self.state.slot_state(self.slot);
        let on_beat = if shown.pulses == 0 {
            false
        } else {
            let locations = beat_locations(&shown);
            let found = is_among(&locations, index);
            proof {
                if found {
                    let k = choose|k: int| 0 <= k < locations@.len() && locations@[k] == index;
                    assert(crate::sequencers::euclidean::spec_beat_location(shown, k) == index);
                } else if spec_is_beat(shown, index as int) {
                    let k = choose|k: int|
                        0 <= k < shown.pulses
                            && crate::sequencers::euclidean::spec_beat_location(shown, k)
                            == index;
                    assert(locations@[k] == index);
                }
            }
            found
        };
        if index == self.state.current_note_index % shown.steps {
            Cell::Playhead
        } else if on_beat {
            Cell::Pulse
        } else if index >= shown.steps {
            Cell::Unused
        } else {
            Cell::Idle
        }
    }

    /// The sixteen cells of the grid, row by row.
    pub fn cells(&self) -> (cells: Vec<Cell>)
        requires
            self.state.wf(),
        ensures
            cells@.len() == MAX_STEPS,
            forall|index: int| 0 <= index < MAX_STEPS ==> cells@[index] == self.spec_cell(index),
    {
        let mut cells: Vec<Cell> = Vec::new();
        let mut index: usize = 0;
        while index < MAX_STEPS
            invariant
                self.state.wf(),
                index <= MAX_STEPS,
                cells@.len() == index,
                forall|i: int| 0 <= i < index ==> cells@[i] == self.spec_cell(i),
            decreases MAX_STEPS - index,
        {
            cells.push(self.cell(index));
            index += 1;
        }
        cells
    }

    /// The name of the pitch of the slot that is shown.
    pub fn note_info(&self) -> (name: String)
        requires
            self.state.wf(),
        ensures
            name@ == crate::note::spec_note_name(self.spec_shown().pitch),
    {
        Sequence::midi_to_note_name(self.state.slot_state(self.slot).pitch)
    }
}

} // verus!
