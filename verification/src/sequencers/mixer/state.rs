//! The mixer's one parameter and the edits that a control surface makes to
//! it.

use vstd::prelude::*;
use crate::sequencers::euclidean::state::spec_clamp;

verus! {

/// The ratio that favours neither voice, in hundredths.
pub const DEFAULT_RATIO: u8 = 50;

/// The highest ratio, in hundredths.
pub const MAX_RATIO: u8 = 100;

/// How far one edit moves the ratio, in hundredths.
pub const RATIO_STEP: u8 = 5;

/// An edit of the mixer.
#[derive(Clone, Copy, Debug, PartialEq, Eq, Structural)]
pub enum MixerInput {
    IncreaseRatio,
    DecreaseRatio,
}

/// The balance between the two voices, in hundredths: `0` stands for 0.0 and
/// `100` for 1.0.
#[derive(Clone, Copy, Debug, PartialEq, Eq, Structural)]
pub struct MixerState {
    pub ratio: u8,
}

impl MixerState {
    /// The ratio lies between 0.0 and 1.0.
    pub open spec fn wf(self) -> bool {
        self.ratio <= MAX_RATIO
    }

    /// Whether the ratio lies between 0.0 and 1.0.
    pub fn is_valid(&self) -> (valid: bool)
        ensures
            valid == self.wf(),
    {
        self.ratio <= MAX_RATIO
    }

    /// The mixer that a sequencer starts with.
    pub open spec fn spec_new() -> Self {
        MixerState { ratio: DEFAULT_RATIO }
    }

    /// The ratio 0.5.
    pub fn new() -> (state: Self)
        ensures
            state == Self::spec_new(),
            state.wf(),
    {
        MixerState { ratio: DEFAULT_RATIO }
    }

    /// The ratio raised by 0.05, up to 1.0.
    pub open spec fn spec_increase_ratio(self) -> Self {
        MixerState { ratio: spec_clamp(self.ratio + RATIO_STEP, 0, MAX_RATIO as int) as u8 }
    }

    /// The ratio lowered by 0.05, down to 0.0.
    pub open spec fn spec_decrease_ratio(self) -> Self {
        MixerState { ratio: spec_clamp(self.ratio - RATIO_STEP, 0, MAX_RATIO as int) as u8 }
    }

    /// The mixer after `input`.
    pub open spec fn spec_apply(self, input: MixerInput) -> Self {
        match input {
            MixerInput::IncreaseRatio => self.spec_increase_ratio(),
            MixerInput::DecreaseRatio => self.spec_decrease_ratio(),
        }
    }

    /// Raises the ratio by 0.05, up to 1.0.
    pub fn increase_ratio(&mut self)
        ensures
            *final(self) == old(self).spec_increase_ratio(),
            final(self).wf(),
    {
        if self.ratio > MAX_RATIO - RATIO_STEP {
            self.ratio = MAX_RATIO;
        } else {
            self.ratio += RATIO_STEP;
        }
    }

    /// Lowers the ratio by 0.05, down to 0.0.
    pub fn decrease_ratio(&mut self)
        ensures
            *final(self) == old(self).spec_decrease_ratio(),
            final(self).wf(),
    {
        if self.ratio < RATIO_STEP {
            self.ratio = 0;
        } else if self.ratio - RATIO_STEP > MAX_RATIO {
            self.ratio = MAX_RATIO;
        } else {
            self.ratio -= RATIO_STEP;
        }
    }

    /// Makes the edit that `input` names.
    pub fn apply(&mut self, input: MixerInput)
        ensures
            *final(self) == old(self).spec_apply(input),
            final(self).wf(),
    {
        match input {
            MixerInput::IncreaseRatio => self.increase_ratio(),
            MixerInput::DecreaseRatio => self.decrease_ratio(),
        }
    }
}

impl Default for MixerState {
    fn default() -> (state: Self)
        ensures
            state == Self::spec_new(),
    {
        Self::new()
    }
}

} // verus!
