//! What the display of the mixer shows: the ratio, as a slider.

use vstd::prelude::*;
use crate::sequencers::mixer::state::{MixerState, MAX_RATIO};

verus! {

/// What the display is told.
#[derive(Clone, Copy, Debug, PartialEq, Eq, Structural)]
pub enum Message {
    /// The mixer's parameters as they now stand.
    FromApp(MixerState),
    /// The slider was moved to this ratio, in hundredths.
    RatioChanged(u8),
}

/// The display of the mixer: the parameters that it shows.
#[derive(Clone, Copy, Debug, PartialEq, Eq, Structural)]
pub struct Gui {
    pub state: MixerState,
}

impl Gui {
    /// The display of a mixer at ratio 0.5.
    pub fn new() -> (gui: Self)
        ensures
            gui.state == MixerState::spec_new(),
    {
        Gui { state: MixerState::new() }
    }

    /// What the display shows after `message`: the parameters that it
    /// brought, or the ratio that the slider was moved to, and 1.0 where
    /// that is higher.
    pub open spec fn spec_update(self, message: Message) -> Self {
        match message {
            Message::FromApp(state) => Gui { state },
            Message::RatioChanged(ratio) => Gui {
                state: MixerState {
                    ratio: if ratio > MAX_RATIO {
                        MAX_RATIO
                    } else {
                        ratio
                    },
                },
            },
        }
    }

    /// Takes in what the message brings.
    pub fn update(&mut self, message: Message)
        ensures
            *final(self) == old(self).spec_update(message),
    {
        match message {
            Message::FromApp(new_state) => {
                self.state = new_state;
            },
            Message::RatioChanged(ratio) => {
                self.state.ratio = if ratio > MAX_RATIO {
                    MAX_RATIO
                } else {
                    ratio
                };
            },
        }
    }
}

impl Default for Gui {
    fn default() -> (gui: Self)
        ensures
            gui.state == MixerState::spec_new(),
    {
        Self::new()
    }
}

} // verus!
