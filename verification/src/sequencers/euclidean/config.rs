//! The parameters of one Euclidean pattern in the form in which they are
//! handed from one task to another as a whole.

use vstd::prelude::*;
use crate::sequencers::euclidean::state::{EuclideanSequencerInput, EuclideanSequencerState};

verus! {

/// What a pattern is set to. It holds what an `EuclideanSequencerState`
/// holds, within the same bounds, and is edited in the same way.
#[derive(Clone, Copy, Debug, PartialEq, Eq, Structural)]
pub struct EuclideanSequencerConfig {
    pub steps: usize,
    pub pulses: usize,
    pub phase: usize,
    pub pitch: u8,
}

impl EuclideanSequencerConfig {
    /// The pattern that the configuration describes.
    pub open spec fn spec_state(self) -> EuclideanSequencerState {
        EuclideanSequencerState {
            steps: self.steps,
            pulses: self.pulses,
            phase: self.phase,
            pitch: self.pitch,
        }
    }

    /// The bounds that hold of every configuration between two edits.
    pub open spec fn wf(self) -> bool {
        self.spec_state().wf()
    }

    /// Whether the configuration is within its bounds.
    pub fn is_valid(&self) -> (valid: bool)
        ensures
            valid == self.wf(),
    {
        self.state().is_valid()
    }

    /// Sixteen steps, no pulse, no shift, middle C.
    pub fn new() -> (config: Self)
        ensures
            config.spec_state() == EuclideanSequencerState::spec_new(),
            config.wf(),
    {
        EuclideanSequencerConfig { steps: 16, pulses: 0, phase: 0, pitch: 60 }
    }

    /// The pattern that the configuration describes.
    #[verifier::when_used_as_spec(spec_state)]
    pub fn state(self) -> (state: EuclideanSequencerState)
        ensures
            state == self.spec_state(),
    {
        EuclideanSequencerState {
            steps: self.steps,
            pulses: self.pulses,
            phase: self.phase,
            pitch: self.pitch,
        }
    }

    /// The configuration that describes `state`.
    pub fn from_state(state: EuclideanSequencerState) -> (config: Self)
        ensures
            config.spec_state() == state,
    {
        EuclideanSequencerConfig {
            steps: state.steps,
            pulses: state.pulses,
            phase: state.phase,
            pitch: state.pitch,
        }
    }

    /// Makes the edit that `input` names.
    pub fn apply(&mut self, input: EuclideanSequencerInput)
        requires
            old(self).wf(),
        ensures
            final(self).spec_state() == old(self).spec_state().spec_apply(input),
            final(self).wf(),
    {
        let mut state = self.state();
        state.apply(input);
        *self = Self::from_state(state);
    }

    /// One step more, up to sixteen.
    pub fn increase_steps(&mut self)
        ensures
            final(self).spec_state() == old(self).spec_state().spec_increase_steps(),
            old(self).wf() ==> final(self).wf(),
    {
        let mut state = self.state();
        state.increase_steps();
        *self = Self::from_state(state);
    }

    /// One step fewer, down to one; pulses and phase follow so that both
    /// still fit.
    pub fn decrease_steps(&mut self)
        ensures
            final(self).spec_state() == old(self).spec_state().spec_decrease_steps(),
            old(self).wf() ==> final(self).wf(),
    {
        let mut state = self.state();
        state.decrease_steps();
        *self = Self::from_state(state);
    }

    /// One pulse more, up to the number of steps.
    pub fn increase_pulses(&mut self)
        ensures
            final(self).spec_state() == old(self).spec_state().spec_increase_pulses(),
            old(self).wf() ==> final(self).wf(),
    {
        let mut state = self.state();
        state.increase_pulses();
        *self = Self::from_state(state);
    }

    /// One pulse fewer, down to none.
    pub fn decrease_pulses(&mut self)
        ensures
            final(self).spec_state() == old(self).spec_state().spec_decrease_pulses(),
            old(self).wf() ==> final(self).wf(),
    {
        let mut state = self.state();
        state.decrease_pulses();
        *self = Self::from_state(state);
    }

    /// Turns the pattern one step further, round the number of steps.
    pub fn increase_phase(&mut self)
        requires
            old(self).wf(),
        ensures
            final(self).spec_state() == old(self).spec_state().spec_increase_phase(),
            final(self).wf(),
    {
        self.apply(EuclideanSequencerInput::IncreasePhase);
    }

    /// Turns the pattern one step back, round the number of steps.
    pub fn decrease_phase(&mut self)
        requires
            old(self).wf(),
        ensures
            final(self).spec_state() == old(self).spec_state().spec_decrease_phase(),
            final(self).wf(),
    {
        self.apply(EuclideanSequencerInput::DecreasePhase);
    }

    /// Moves the pitch by `amount` semitones and keeps it in `20..=108`.
    pub fn change_pitch(&mut self, amount: i8)
        ensures
            final(self).spec_state() == old(self).spec_state().spec_change_pitch(amount as int),
            old(self).wf() ==> final(self).wf(),
    {
        let mut state = self.state();
        state.change_pitch(amount);
        *self = Self::from_state(state);
    }
}

impl Default for EuclideanSequencerConfig {
    fn default() -> (config: Self)
        ensures
            config.spec_state() == EuclideanSequencerState::spec_new(),
    {
        Self::new()
    }
}

} // verus!
