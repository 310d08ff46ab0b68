//! The one value that every part of the sequencer reads and the control
//! surface edits.

use vstd::prelude::*;
use crate::sequencers::euclidean::state::{EuclideanSequencerInput, EuclideanSequencerState};
use crate::sequencers::mixer::state::{MixerInput, MixerState};

verus! {

/// What a MIDI channel counts up to before it starts again at 0.
pub const MIDI_CHANNELS: u8 = 16;

/// MIDI clock ticks in one quarter note.
pub const TICKS_PER_QUARTER: u32 = 24;

/// The tempo that a sequencer starts with, in beats per minute.
pub const DEFAULT_BPM: u32 = 120;

/// One of the two generator slots that feed the mixer.
#[derive(Clone, Copy, Debug, PartialEq, Eq, Structural)]
pub enum ActiveSequencer {
    Left,
    Right,
}

/// A generator's place at the mixer.
pub type SequencerSlot = ActiveSequencer;

impl ActiveSequencer {
    /// The slot that this one is not.
    pub open spec fn spec_other(self) -> Self {
        match self {
            ActiveSequencer::Left => ActiveSequencer::Right,
            ActiveSequencer::Right => ActiveSequencer::Left,
        }
    }

    /// The slot that this one is not.
    #[verifier::when_used_as_spec(spec_other)]
    pub fn other(self) -> (slot: Self)
        ensures
            slot == self.spec_other(),
    {
        match self {
            ActiveSequencer::Left => ActiveSequencer::Right,
            ActiveSequencer::Right => ActiveSequencer::Left,
        }
    }
}

impl Default for ActiveSequencer {
    fn default() -> (slot: Self)
        ensures
            slot == ActiveSequencer::Left,
    {
        ActiveSequencer::Left
    }
}

/// Transport, mixer and the parameters of both generator slots.
#[derive(Clone, Copy, Debug, PartialEq, Eq, Structural)]
pub struct SharedState {
    pub playing: bool,
    /// Whole beats per minute, at least 1.
    pub bpm: u32,
    pub midi_channel: u8,
    pub active_sequencer: ActiveSequencer,
    /// Where the playhead stands, for display.
    pub current_note_index: usize,
    pub left_state: EuclideanSequencerState,
    pub right_state: EuclideanSequencerState,
    pub mixer_state: MixerState,
    /// MIDI clock ticks since the last full quarter note.
    pub clock_ticks: u32,
    /// Full quarter notes that the MIDI clock has counted, round the end of
    /// `u32`.
    pub quarter_notes: u32,
}

impl SharedState {
    /// The bounds that hold of the state between two edits.
    pub open spec fn wf(self) -> bool {
        &&& self.bpm >= 1
        &&& self.midi_channel < MIDI_CHANNELS
        &&& self.left_state.wf()
        &&& self.right_state.wf()
        &&& self.mixer_state.wf()
        &&& self.clock_ticks < TICKS_PER_QUARTER
    }

    /// Whether the state is within its bounds.
    pub fn is_valid(&self) -> (valid: bool)
        ensures
            valid == self.wf(),
    {
        self.bpm >= 1 && self.midi_channel < MIDI_CHANNELS && self.left_state.is_valid()
            && self.right_state.is_valid() && self.mixer_state.is_valid() && self.clock_ticks
            < TICKS_PER_QUARTER
    }

    /// The state that a sequencer starts with at `bpm` beats per minute.
    pub open spec fn spec_new(bpm: u32) -> Self {
        SharedState {
            playing: false,
            bpm,
            midi_channel: 0,
            active_sequencer: ActiveSequencer::Left,
            current_note_index: 0,
            left_state: EuclideanSequencerState::spec_new(),
            right_state: EuclideanSequencerState::spec_new(),
            mixer_state: MixerState::spec_new(),
            clock_ticks: 0,
            quarter_notes: 0,
        }
    }

    /// A stopped sequencer at `bpm` beats per minute: channel 0, left slot
    /// active, both patterns without pulses, ratio 0.5.
    pub fn new(bpm: u32) -> (state: Self)
        requires
            bpm >= 1,
        ensures
            state == Self::spec_new(bpm),
            state.wf(),
    {
        SharedState {
            playing: false,
            bpm,
            midi_channel: 0,
            active_sequencer: ActiveSequencer::Left,
            current_note_index: 0,
            left_state: EuclideanSequencerState::new(),
            right_state: EuclideanSequencerState::new(),
            mixer_state: MixerState::new(),
            clock_ticks: 0,
            quarter_notes: 0,
        }
    }

    /// The parameters of the active slot.
    pub open spec fn spec_active_state(self) -> EuclideanSequencerState {
        match self.active_sequencer {
            ActiveSequencer::Left => self.left_state,
            ActiveSequencer::Right => self.right_state,
        }
    }

    /// The state with `state` in the active slot.
    pub open spec fn spec_with_active_state(self, state: EuclideanSequencerState) -> Self {
        match self.active_sequencer {
            ActiveSequencer::Left => SharedState { left_state: state, ..self },
            ActiveSequencer::Right => SharedState { right_state: state, ..self },
        }
    }

    /// The parameters of `slot`.
    pub open spec fn spec_slot_state(self, slot: SequencerSlot) -> EuclideanSequencerState {
        match slot {
            ActiveSequencer::Left => self.left_state,
            ActiveSequencer::Right => self.right_state,
        }
    }

    /// Playback started where it was stopped and stopped where it ran.
    pub open spec fn spec_toggle_playing(self) -> Self {
        SharedState { playing: !self.playing, ..self }
    }

    /// One beat per minute more, as far as `u32` goes.
    pub open spec fn spec_increase_bpm(self) -> Self {
        SharedState {
            bpm: if self.bpm < u32::MAX {
                (self.bpm + 1) as u32
            } else {
                self.bpm
            },
            ..self
        }
    }

    /// One beat per minute fewer, down to 1.
    pub open spec fn spec_decrease_bpm(self) -> Self {
        SharedState {
            bpm: if self.bpm > 1 {
                (self.bpm - 1) as u32
            } else {
                self.bpm
            },
            ..self
        }
    }

    /// The tempo set to `bpm` beats per minute, and to 1 where `bpm` is 0.
    pub open spec fn spec_set_bpm(self, bpm: u32) -> Self {
        SharedState {
            bpm: if bpm >= 1 {
                bpm
            } else {
                1
            },
            ..self
        }
    }

    /// The next MIDI channel; after channel 15 comes channel 0.
    pub open spec fn spec_change_midi_channel(self) -> Self {
        SharedState {
            midi_channel: ((self.midi_channel + 1) % (MIDI_CHANNELS as int)) as u8,
            ..self
        }
    }

    /// The other slot made the one that pattern edits reach.
    pub open spec fn spec_switch_active_sequencer(self) -> Self {
        SharedState { active_sequencer: self.active_sequencer.spec_other(), ..self }
    }

    /// The state after `input` has edited the active slot.
    pub open spec fn spec_edit_active(self, input: EuclideanSequencerInput) -> Self {
        self.spec_with_active_state(self.spec_active_state().spec_apply(input))
    }

    /// The state after `input` has edited the mixer.
    pub open spec fn spec_edit_mixer(self, input: MixerInput) -> Self {
        SharedState { mixer_state: self.mixer_state.spec_apply(input), ..self }
    }

    /// The playhead noted at `index`.
    pub open spec fn spec_set_current_note_index(self, index: usize) -> Self {
        SharedState { current_note_index: index, ..self }
    }

    /// The state after one tick of the MIDI clock: the twenty-fourth tick
    /// makes a quarter note and starts the ticks again.
    pub open spec fn spec_clock_tick(self) -> Self {
        if self.clock_ticks + 1 >= TICKS_PER_QUARTER {
            SharedState {
                clock_ticks: 0,
                quarter_notes: if self.quarter_notes < u32::MAX {
                    (self.quarter_notes + 1) as u32
                } else {
                    0
                },
                ..self
            }
        } else {
            SharedState { clock_ticks: (self.clock_ticks + 1) as u32, ..self }
        }
    }

    /// The state after `input` has edited the active slot `count` times.
    pub open spec fn spec_edit_active_times(
        self,
        input: EuclideanSequencerInput,
        count: nat,
    ) -> Self
        decreases count,
    {
        if count == 0 {
            self
        } else {
            self.spec_edit_active_times(input, (count - 1) as nat).spec_edit_active(input)
        }
    }

    /// The state after `count` changes of the MIDI channel.
    pub open spec fn spec_change_midi_channel_times(self, count: nat) -> Self
        decreases count,
    {
        if count == 0 {
            self
        } else {
            self.spec_change_midi_channel_times((count - 1) as nat).spec_change_midi_channel()
        }
    }

    /// Starts playback where it is stopped and stops it where it runs.
    pub fn toggle_playing(&mut self)
        ensures
            *final(self) == old(self).spec_toggle_playing(),
            old(self).wf() ==> final(self).wf(),
    {
        self.playing = !self.playing;
    }

    /// One beat per minute more, as far as `u32` goes.
    pub fn increase_bpm(&mut self)
        ensures
            *final(self) == old(self).spec_increase_bpm(),
            old(self).wf() ==> final(self).wf(),
    {
        if self.bpm < u32::MAX {
            self.bpm += 1;
        }
    }

    /// One beat per minute fewer, down to 1.
    pub fn decrease_bpm(&mut self)
        ensures
            *final(self) == old(self).spec_decrease_bpm(),
            old(self).wf() ==> final(self).wf(),
    {
        if self.bpm > 1 {
            self.bpm -= 1;
        }
    }

    /// Sets the tempo to `bpm` beats per minute, and to 1 where `bpm` is 0.
    pub fn set_bpm(&mut self, bpm: u32)
        ensures
            *final(self) == old(self).spec_set_bpm(bpm),
            old(self).wf() ==> final(self).wf(),
    {
        self.bpm = if bpm >= 1 {
            bpm
        } else {
            1
        };
    }

    /// Moves to the next MIDI channel; after channel 15 comes channel 0.
    pub fn change_midi_channel(&mut self)
        ensures
            *final(self) == old(self).spec_change_midi_channel(),
            old(self).wf() ==> final(self).wf(),
    {
        self.midi_channel = ((self.midi_channel as u16 + 1) % (MIDI_CHANNELS as u16)) as u8;
    }

    /// Makes the other slot the one that pattern edits reach.
    pub fn switch_active_sequencer(&mut self)
        ensures
            *final(self) == old(self).spec_switch_active_sequencer(),
            old(self).wf() ==> final(self).wf(),
    {
        self.active_sequencer = self.active_sequencer.other();
    }

    /// Edits the pattern of the active slot and leaves the other slot alone.
    pub fn edit_active(&mut self, input: EuclideanSequencerInput)
        requires
            old(self).spec_active_state().wf(),
        ensures
            *final(self) == old(self).spec_edit_active(input),
            old(self).wf() ==> final(self).wf(),
    {
        match self.active_sequencer {
            ActiveSequencer::Left => self.left_state.apply(input),
            ActiveSequencer::Right => self.right_state.apply(input),
        }
    }

    /// One step more in the active slot, up to sixteen.
    pub fn increase_steps(&mut self)
        ensures
            *final(self) == old(self).spec_edit_active(EuclideanSequencerInput::IncreaseSteps),
            old(self).wf() ==> final(self).wf(),
    {
        match self.active_sequencer {
            ActiveSequencer::Left => self.left_state.increase_steps(),
            ActiveSequencer::Right => self.right_state.increase_steps(),
        }
    }

    /// One step fewer in the active slot, down to one; its pulses and phase
    /// follow so that both still fit.
    pub fn decrease_steps(&mut self)
        ensures
            *final(self) == old(self).spec_edit_active(EuclideanSequencerInput::DecreaseSteps),
            old(self).wf() ==> final(self).wf(),
    {
        match self.active_sequencer {
            ActiveSequencer::Left => self.left_state.decrease_steps(),
            ActiveSequencer::Right => self.right_state.decrease_steps(),
        }
    }

    /// One pulse more in the active slot, up to its number of steps.
    pub fn increase_pulses(&mut self)
        ensures
            *final(self) == old(self).spec_edit_active(EuclideanSequencerInput::IncreasePulses),
            old(self).wf() ==> final(self).wf(),
    {
        match self.active_sequencer {
            ActiveSequencer::Left => self.left_state.increase_pulses(),
            ActiveSequencer::Right => self.right_state.increase_pulses(),
        }
    }

    /// One pulse fewer in the active slot, down to none.
    pub fn decrease_pulses(&mut self)
        ensures
            *final(self) == old(self).spec_edit_active(EuclideanSequencerInput::DecreasePulses),
            old(self).wf() ==> final(self).wf(),
    {
        match self.active_sequencer {
            ActiveSequencer::Left => self.left_state.decrease_pulses(),
            ActiveSequencer::Right => self.right_state.decrease_pulses(),
        }
    }

    /// Turns the pattern of the active slot one step further.
    pub fn increase_phase(&mut self)
        requires
            old(self).spec_active_state().wf(),
        ensures
            *final(self) == old(self).spec_edit_active(EuclideanSequencerInput::IncreasePhase),
            old(self).wf() ==> final(self).wf(),
    {
        self.edit_active(EuclideanSequencerInput::IncreasePhase);
    }

    /// Turns the pattern of the active slot one step back.
    pub fn decrease_phase(&mut self)
        requires
            old(self).spec_active_state().wf(),
        ensures
            *final(self) == old(self).spec_edit_active(EuclideanSequencerInput::DecreasePhase),
            old(self).wf() ==> final(self).wf(),
    {
        self.edit_active(EuclideanSequencerInput::DecreasePhase);
    }

    /// Moves the pitch of the active slot by `amount` semitones, within
    /// `20..=108`.
    pub fn change_pitch(&mut self, amount: i8)
        ensures
            *final(self) == old(self).spec_with_active_state(
                old(self).spec_active_state().spec_change_pitch(amount as int),
            ),
            old(self).wf() ==> final(self).wf(),
    {
        match self.active_sequencer {
            ActiveSequencer::Left => self.left_state.change_pitch(amount),
            ActiveSequencer::Right => self.right_state.change_pitch(amount),
        }
    }

    /// Edits the mixer.
    pub fn edit_mixer(&mut self, input: MixerInput)
        ensures
            *final(self) == old(self).spec_edit_mixer(input),
            old(self).wf() ==> final(self).wf(),
    {
        self.mixer_state.apply(input);
    }

    /// Notes where the playhead stands.
    pub fn set_current_note_index(&mut self, index: usize)
        ensures
            *final(self) == old(self).spec_set_current_note_index(index),
            old(self).wf() ==> final(self).wf(),
    {
        self.current_note_index = index;
    }

    /// Counts one tick of the MIDI clock.
    pub fn clock_tick(&mut self)
        ensures
            *final(self) == old(self).spec_clock_tick(),
            old(self).wf() ==> final(self).wf(),
    {
        if self.clock_ticks >= TICKS_PER_QUARTER - 1 {
            self.clock_ticks = 0;
            self.quarter_notes = self.quarter_notes.wrapping_add(1);
        } else {
            self.clock_ticks += 1;
        }
    }

    /// The parameters of `slot`.
    pub fn slot_state(&self, slot: SequencerSlot) -> (state: EuclideanSequencerState)
        ensures
            state == self.spec_slot_state(slot),
    {
        match slot {
            ActiveSequencer::Left => self.left_state,
            ActiveSequencer::Right => self.right_state,
        }
    }
}

impl Default for SharedState {
    fn default() -> (state: Self)
        ensures
            state == Self::spec_new(DEFAULT_BPM),
    {
        Self::new(DEFAULT_BPM)
    }
}

/// An edit at a bound changes nothing: one more step at sixteen steps, one
/// step fewer at one, one more pulse where every step has one, one pulse
/// fewer where there is none, and a pitch or ratio pushed further out at its
/// end.
pub proof fn lemma_edits_at_bounds(state: SharedState)
    requires
        state.wf(),
    ensures
        state.spec_active_state().steps == 16 ==> state.spec_edit_active(
            EuclideanSequencerInput::IncreaseSteps,
        ) == state,
        state.spec_active_state().steps == 1 ==> state.spec_edit_active(
            EuclideanSequencerInput::DecreaseSteps,
        ) == state,
        state.spec_active_state().pulses == state.spec_active_state().steps
            ==> state.spec_edit_active(EuclideanSequencerInput::IncreasePulses) == state,
        state.spec_active_state().pulses == 0 ==> state.spec_edit_active(
            EuclideanSequencerInput::DecreasePulses,
        ) == state,
        state.spec_active_state().pitch == 108 ==> state.spec_edit_active(
            EuclideanSequencerInput::IncreasePitch,
        ) == state && state.spec_edit_active(EuclideanSequencerInput::IncreaseOctave) == state,
        state.spec_active_state().pitch == 20 ==> state.spec_edit_active(
            EuclideanSequencerInput::DecreasePitch,
        ) == state && state.spec_edit_active(EuclideanSequencerInput::DecreaseOctave) == state,
        state.mixer_state.ratio == 100 ==> state.spec_edit_mixer(MixerInput::IncreaseRatio)
            == state,
        state.mixer_state.ratio == 0 ==> state.spec_edit_mixer(MixerInput::DecreaseRatio)
            == state,
        state.bpm == 1 ==> state.spec_decrease_bpm() == state,
{
}

/// An edit that changes nothing when it is made once changes nothing however
/// often it is made.
pub proof fn lemma_edit_repeats(state: SharedState, input: EuclideanSequencerInput, count: nat)
    requires
        state.spec_edit_active(input) == state,
    ensures
        state.spec_edit_active_times(input, count) == state,
    decreases count,
{
    if count > 0 {
        lemma_edit_repeats(state, input, (count - 1) as nat);
    }
}

/// Every pattern edit leaves both slots within their bounds; pulses never
/// outnumber steps, also where steps are taken away from under them.
pub proof fn lemma_edit_keeps_bounds(state: SharedState, input: EuclideanSequencerInput)
    requires
        state.wf(),
    ensures
        state.spec_edit_active(input).wf(),
        state.spec_edit_active(input).left_state.pulses <= state.spec_edit_active(
            input,
        ).left_state.steps,
        state.spec_edit_active(input).right_state.pulses <= state.spec_edit_active(
            input,
        ).right_state.steps,
{
}

/// Switching the active slot twice leads back to where one was.
pub proof fn lemma_switch_twice(state: SharedState)
    ensures
        state.spec_switch_active_sequencer().spec_switch_active_sequencer() == state,
{
}

/// Changing the MIDI channel `count` times moves it `count` places round the
/// sixteen channels and touches nothing else.
pub proof fn lemma_change_midi_channel_times(state: SharedState, count: nat)
    requires
        state.wf(),
    ensures
        state.spec_change_midi_channel_times(count) == (SharedState {
            midi_channel: ((state.midi_channel + count) % 16) as u8,
            ..state
        }),
    decreases count,
{
    if count > 0 {
        lemma_change_midi_channel_times(state, (count - 1) as nat);
    }
}

/// Changing the MIDI channel sixteen times leads back to where one was.
pub proof fn lemma_sixteen_channel_changes(state: SharedState)
    requires
        state.wf(),
    ensures
        state.spec_change_midi_channel_times(16) == state,
{
    lemma_change_midi_channel_times(state, 16);
}

} // verus!
