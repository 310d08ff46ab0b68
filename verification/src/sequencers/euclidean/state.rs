//! Parameters of one Euclidean pattern and the edits that a control surface
//! makes to them.

use vstd::prelude::*;

verus! {

/// Most steps a pattern can have.
pub const MAX_STEPS: usize = 16;

/// Lowest pitch a pattern can be set to.
pub const MIN_PITCH: u8 = 20;

/// Highest pitch a pattern can be set to.
pub const MAX_PITCH: u8 = 108;

/// An edit of one pattern.
#[derive(Clone, Copy, Debug, PartialEq, Eq, Structural)]
pub enum EuclideanSequencerInput {
    IncreaseSteps,
    DecreaseSteps,
    IncreasePulses,
    DecreasePulses,
    IncreasePhase,
    DecreasePhase,
    IncreasePitch,
    DecreasePitch,
    IncreaseOctave,
    DecreaseOctave,
}

/// `pulses` sounding notes spread over `steps` steps, turned by `phase` steps,
/// all at `pitch`.
#[derive(Clone, Copy, Debug, PartialEq, Eq, Structural)]
pub struct EuclideanSequencerState {
    pub steps: usize,
    pub pulses: usize,
    pub phase: usize,
    pub pitch: u8,
}

/// `value` moved into `lo..=hi`.
pub open spec fn spec_clamp(value: int, lo: int, hi: int) -> int {
    if value < lo {
        lo
    } else if value > hi {
        hi
    } else {
        value
    }
}

impl EuclideanSequencerState {
    /// The bounds that hold of every pattern between two edits.
    pub open spec fn wf(self) -> bool {
        &&& 1 <= self.steps <= MAX_STEPS
        &&& self.pulses <= self.steps
        &&& self.phase < self.steps
        &&& MIN_PITCH <= self.pitch <= MAX_PITCH
    }

    /// Whether the pattern is within its bounds.
    pub fn is_valid(&self) -> (valid: bool)
        ensures
            valid == self.wf(),
    {
        1 <= self.steps && self.steps <= MAX_STEPS && self.pulses <= self.steps && self.phase
            < self.steps && MIN_PITCH <= self.pitch && self.pitch <= MAX_PITCH
    }

    /// The pattern that every slot starts with.
    pub open spec fn spec_new() -> Self {
        EuclideanSequencerState { steps: 16, pulses: 0, phase: 0, pitch: 60 }
    }

    /// Sixteen steps, no pulse, no shift, middle C.
    pub fn new() -> (state: Self)
        ensures
            state == Self::spec_new(),
            state.wf(),
    {
        EuclideanSequencerState { steps: 16, pulses: 0, phase: 0, pitch: 60 }
    }

    /// One step more, up to sixteen.
    pub open spec fn spec_increase_steps(self) -> Self {
        if self.steps < MAX_STEPS {
            EuclideanSequencerState { steps: (self.steps + 1) as usize, ..self }
        } else {
            self
        }
    }

    /// One step fewer, down to one. Pulses that no longer fit are dropped and
    /// a phase that reaches the new length wraps to zero.
    pub open spec fn spec_decrease_steps(self) -> Self {
        if self.steps > 1 {
            let steps = (self.steps - 1) as usize;
            EuclideanSequencerState {
                steps,
                pulses: if self.pulses > steps {
                    steps
                } else {
                    self.pulses
                },
                phase: (self.phase % steps) as usize,
                pitch: self.pitch,
            }
        } else {
            self
        }
    }

    /// One pulse more, up to the number of steps.
    pub open spec fn spec_increase_pulses(self) -> Self {
        if self.pulses < self.steps {
            EuclideanSequencerState { pulses: (self.pulses + 1) as usize, ..self }
        } else {
            self
        }
    }

    /// One pulse fewer, down to none.
    pub open spec fn spec_decrease_pulses(self) -> Self {
        if self.pulses > 0 {
            EuclideanSequencerState { pulses: (self.pulses - 1) as usize, ..self }
        } else {
            self
        }
    }

    /// The pattern turned one step further, round the number of steps.
    pub open spec fn spec_increase_phase(self) -> Self {
        EuclideanSequencerState { phase: ((self.phase + 1) % (self.steps as int)) as usize, ..self }
    }

    /// The pattern turned one step back, round the number of steps.
    pub open spec fn spec_decrease_phase(self) -> Self {
        EuclideanSequencerState {
            phase: ((self.phase + self.steps - 1) % (self.steps as int)) as usize,
            ..self
        }
    }

    /// The pitch moved by `amount` semitones and kept in `20..=108`.
    pub open spec fn spec_change_pitch(self, amount: int) -> Self {
        EuclideanSequencerState {
            pitch: spec_clamp(self.pitch + amount, MIN_PITCH as int, MAX_PITCH as int) as u8,
            ..self
        }
    }

    /// The pattern after `input`.
    pub open spec fn spec_apply(self, input: EuclideanSequencerInput) -> Self {
        match input {
            EuclideanSequencerInput::IncreaseSteps => self.spec_increase_steps(),
            EuclideanSequencerInput::DecreaseSteps => self.spec_decrease_steps(),
            EuclideanSequencerInput::IncreasePulses => self.spec_increase_pulses(),
            EuclideanSequencerInput::DecreasePulses => self.spec_decrease_pulses(),
            EuclideanSequencerInput::IncreasePhase => self.spec_increase_phase(),
            EuclideanSequencerInput::DecreasePhase => self.spec_decrease_phase(),
            EuclideanSequencerInput::IncreasePitch => self.spec_change_pitch(1),
            EuclideanSequencerInput::DecreasePitch => self.spec_change_pitch(-1),
            EuclideanSequencerInput::IncreaseOctave => self.spec_change_pitch(12),
            EuclideanSequencerInput::DecreaseOctave => self.spec_change_pitch(-12),
        }
    }

    /// One step more, up to sixteen.
    pub fn increase_steps(&mut self)
        ensures
            *final(self) == old(self).spec_increase_steps(),
            old(self).wf() ==> final(self).wf(),
    {
        if self.steps < MAX_STEPS {
            self.steps += 1;
        }
    }

    /// One step fewer, down to one; pulses and phase follow so that both
    /// still fit.
    pub fn decrease_steps(&mut self)
        ensures
            *final(self) == old(self).spec_decrease_steps(),
            old(self).wf() ==> final(self).wf(),
    {
        if self.steps > 1 {
            self.steps -= 1;
            if self.pulses > self.steps {
                self.pulses = self.steps;
            }
            self.phase = self.phase % self.steps;
        }
    }

    /// One pulse more, up to the number of steps.
    pub fn increase_pulses(&mut self)
        ensures
            *final(self) == old(self).spec_increase_pulses(),
            old(self).wf() ==> final(self).wf(),
    {
        if self.pulses < self.steps {
            self.pulses += 1;
        }
    }

    /// One pulse fewer, down to none.
    pub fn decrease_pulses(&mut self)
        ensures
            *final(self) == old(self).spec_decrease_pulses(),
            old(self).wf() ==> final(self).wf(),
    {
        if self.pulses > 0 {
            self.pulses -= 1;
        }
    }

    /// Turns the pattern one step further, round the number of steps.
    pub fn increase_phase(&mut self)
        requires
            old(self).wf(),
        ensures
            *final(self) == old(self).spec_increase_phase(),
            final(self).wf(),
    {
        self.phase = (self.phase + 1) % self.steps;
    }

    /// Turns the pattern one step back, round the number of steps.
    pub fn decrease_phase(&mut self)
        requires
            old(self).wf(),
        ensures
            *final(self) == old(self).spec_decrease_phase(),
            final(self).wf(),
    {
        self.phase = (self.phase + self.steps - 1) % self.steps;
    }

    /// Moves the pitch by `amount` semitones and keeps it in `20..=108`.
    pub fn change_pitch(&mut self, amount: i8)
        ensures
            *final(self) == old(self).spec_change_pitch(amount as int),
            old(self).wf() ==> final(self).wf(),
    {
        let moved: i16 = self.pitch as i16 + amount as i16;
        if moved < MIN_PITCH as i16 {
            self.pitch = MIN_PITCH;
        } else if moved > MAX_PITCH as i16 {
            self.pitch = MAX_PITCH;
        } else {
            self.pitch = moved as u8;
        }
    }

    /// Makes the edit that `input` names.
    pub fn apply(&mut self, input: EuclideanSequencerInput)
        requires
            old(self).wf(),
        ensures
            *final(self) == old(self).spec_apply(input),
            final(self).wf(),
    {
        match input {
            EuclideanSequencerInput::IncreaseSteps => self.increase_steps(),
            EuclideanSequencerInput::DecreaseSteps => self.decrease_steps(),
            EuclideanSequencerInput::IncreasePulses => self.increase_pulses(),
            EuclideanSequencerInput::DecreasePulses => self.decrease_pulses(),
            EuclideanSequencerInput::IncreasePhase => self.increase_phase(),
            EuclideanSequencerInput::DecreasePhase => self.decrease_phase(),
            EuclideanSequencerInput::IncreasePitch => self.change_pitch(1),
            EuclideanSequencerInput::DecreasePitch => self.change_pitch(-1),
            EuclideanSequencerInput::IncreaseOctave => self.change_pitch(12),
            EuclideanSequencerInput::DecreaseOctave => self.change_pitch(-12),
        }
    }
}

impl Default for EuclideanSequencerState {
    fn default() -> (state: Self)
        ensures
            state == Self::spec_new(),
    {
        Self::new()
    }
}

} // verus!
