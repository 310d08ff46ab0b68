//! The Euclidean generator: pulses spread as evenly as whole steps allow.

pub mod config;
pub mod gui;
pub mod state;

use vstd::prelude::*;
use vstd::arithmetic::div_mod::{lemma_div_is_ordered, lemma_div_plus_one, lemma_small_mod,
    lemma_mod_sub_multiples_vanish};
use vstd::relations::injective_on;
use vstd::set_lib::{lemma_int_range, lemma_map_size, set_int_range};
use crate::note::{lemma_sounding_count_is_places, spec_duration_ms, spec_sounding_count,
    spec_sounding_places, Note, NoteDuration, Sequence, NOTE_VELOCITY};
use crate::sequencers::common::Sequencer;
use crate::sequencers::euclidean::state::EuclideanSequencerState;
use crate::state::SequencerSlot;

verus! {

/// The step on which pulse number `k` of the pattern falls: pulse `k` of
/// `pulses` stands at `k * steps / pulses`, and the whole pattern is turned
/// `phase` steps further, round the end.
pub open spec fn spec_beat_location(state: EuclideanSequencerState, k: int) -> int {
    (k * state.steps / (state.pulses as int) + state.phase) % (state.steps as int)
}

/// Whether a pulse of the pattern falls on step `i`.
pub open spec fn spec_is_beat(state: EuclideanSequencerState, i: int) -> bool {
    exists|k: int| 0 <= k < state.pulses && #[trigger] spec_beat_location(state, k) == i
}

/// The sounding sixteenth that a pulse of the pattern plays.
pub open spec fn spec_pulse_note(state: EuclideanSequencerState, bpm: u32) -> Note {
    Note {
        pitch: state.pitch,
        velocity: NOTE_VELOCITY,
        duration: spec_duration_ms(NoteDuration::Sixteenth, bpm) as u64,
    }
}

/// The note on step `i` of the pattern: the pulse note where a pulse falls, a
/// rest elsewhere.
pub open spec fn spec_note_at(state: EuclideanSequencerState, bpm: u32, i: int) -> Note {
    if spec_is_beat(state, i) {
        spec_pulse_note(state, bpm)
    } else {
        Note::spec_rest(NoteDuration::Sixteenth, bpm)
    }
}

/// The sequence of a pattern: one sixteenth per step, or a single sixteenth
/// rest where the pattern has no pulse at all.
pub open spec fn spec_generate(state: EuclideanSequencerState, bpm: u32) -> Seq<Note> {
    if state.pulses == 0 {
        seq![Note::spec_rest(NoteDuration::Sixteenth, bpm)]
    } else {
        Seq::new(state.steps as nat, |i: int| spec_note_at(state, bpm, i))
    }
}

proof fn lemma_unshifted_in_range(steps: int, pulses: int, k: int)
    requires
        0 < pulses <= steps,
        0 <= k < pulses,
    ensures
        0 <= k * steps / pulses < steps,
{
    assert(0 <= k * steps / pulses < steps) by (nonlinear_arith)
        requires
            0 < pulses <= steps,
            0 <= k < pulses,
    ;
}

proof fn lemma_unshifted_increasing(steps: int, pulses: int, j: int, k: int)
    requires
        0 < pulses <= steps,
        0 <= j < k,
    ensures
        j * steps / pulses < k * steps / pulses,
{
    assert(j * steps + pulses <= k * steps) by (nonlinear_arith)
        requires
            0 < pulses <= steps,
            0 <= j < k,
    ;
    lemma_div_plus_one(j * steps, pulses);
    lemma_div_is_ordered(pulses + j * steps, k * steps, pulses);
}

proof fn lemma_turned(steps: int, a: int, phase: int)
    requires
        0 <= a < steps,
        0 <= phase < steps,
    ensures
        (a + phase) % steps == if a + phase < steps {
            a + phase
        } else {
            a + phase - steps
        },
{
    if a + phase < steps {
        lemma_small_mod((a + phase) as nat, steps as nat);
    } else {
        lemma_mod_sub_multiples_vanish(a + phase, steps);
        lemma_small_mod((a + phase - steps) as nat, steps as nat);
    }
}

/// Every pulse of a valid pattern falls on a step of the pattern.
pub proof fn lemma_beat_location_in_range(state: EuclideanSequencerState, k: int)
    requires
        state.wf(),
        0 <= k < state.pulses,
    ensures
        0 <= spec_beat_location(state, k) < state.steps,
{
    lemma_unshifted_in_range(state.steps as int, state.pulses as int, k);
    lemma_turned(
        state.steps as int,
        k * state.steps / (state.pulses as int),
        state.phase as int,
    );
}

/// No two pulses of a valid pattern fall on the same step.
pub proof fn lemma_beat_locations_differ(state: EuclideanSequencerState, j: int, k: int)
    requires
        state.wf(),
        0 <= j < state.pulses,
        0 <= k < state.pulses,
        j != k,
    ensures
        spec_beat_location(state, j) != spec_beat_location(state, k),
{
    let steps = state.steps as int;
    let pulses = state.pulses as int;
    lemma_unshifted_in_range(steps, pulses, j);
    lemma_unshifted_in_range(steps, pulses, k);
    if j < k {
        lemma_unshifted_increasing(steps, pulses, j, k);
    } else {
        lemma_unshifted_increasing(steps, pulses, k, j);
    }
    lemma_turned(steps, j * steps / pulses, state.phase as int);
    lemma_turned(steps, k * steps / pulses, state.phase as int);
}

/// The larger of two numbers.
pub open spec fn spec_max(a: int, b: int) -> int {
    if a >= b {
        a
    } else {
        b
    }
}

/// A generated sequence has one note per step, and never fewer than one.
/// The one exception is a pattern without pulses and with more than one
/// step: its sequence is a single rest, whatever its number of steps.
pub proof fn lemma_generated_length(state: EuclideanSequencerState, bpm: u32)
    requires
        state.wf(),
    ensures
        state.pulses > 0 || state.steps == 1 ==> spec_generate(state, bpm).len() == spec_max(
            1,
            state.steps as int,
        ),
        state.pulses == 0 ==> spec_generate(state, bpm).len() == 1 && spec_generate(
            state,
            bpm,
        )[0].pitch == 0,
{
}

/// Every note of a generated sequence is a sixteenth at the given tempo and
/// holds MIDI data bytes.
pub proof fn lemma_generated_notes(state: EuclideanSequencerState, bpm: u32)
    requires
        state.wf(),
        bpm >= 1,
    ensures
        forall|i: int|
            0 <= i < spec_generate(state, bpm).len() ==> (#[trigger] spec_generate(
                state,
                bpm,
            )[i]).wf() && spec_generate(state, bpm)[i].duration == spec_duration_ms(
                NoteDuration::Sixteenth,
                bpm,
            ),
{
}

/// In the sequence of a valid pattern with at least one pulse, exactly
/// `pulses` notes sound.
pub proof fn lemma_generated_pulses(state: EuclideanSequencerState, bpm: u32)
    requires
        state.wf(),
        state.pulses > 0,
    ensures
        spec_sounding_count(spec_generate(state, bpm)) == state.pulses,
{
    let notes = spec_generate(state, bpm);
    let pulses = set_int_range(0, state.pulses as int);
    let location = |k: int| spec_beat_location(state, k);
    lemma_sounding_count_is_places(notes);
    lemma_int_range(0, state.pulses as int);
    assert(injective_on(location, pulses)) by {
        assert forall|j: int, k: int|
            pulses.contains(j) && pulses.contains(k) && #[trigger] location(j) == #[trigger] location(
                k,
            ) implies j == k by {
            if j != k {
                lemma_beat_locations_differ(state, j, k);
            }
        }
    }
    assert(pulses.map(location) =~= spec_sounding_places(notes)) by {
        assert forall|i: int| pulses.map(location).contains(i) implies spec_sounding_places(
            notes,
        ).contains(i) by {
            let k = choose|k: int| pulses.contains(k) && i == location(k);
            lemma_beat_location_in_range(state, k);
            assert(spec_beat_location(state, k) == i);
            assert(spec_is_beat(state, i));
        }
        assert forall|i: int| spec_sounding_places(notes).contains(i) implies pulses.map(
            location,
        ).contains(i) by {
            assert(spec_is_beat(state, i));
            let k = choose|k: int| 0 <= k < state.pulses && spec_beat_location(state, k) == i;
            assert(pulses.contains(k) && i == location(k));
        }
    }
    lemma_map_size(pulses, spec_sounding_places(notes), location);
}

/// The steps on which the pulses of the pattern fall, pulse by pulse.
fn beat_locations(state: &EuclideanSequencerState) -> (locations: Vec<usize>)
    requires
        state.wf(),
        state.pulses > 0,
    ensures
        locations@.len() == state.pulses,
        forall|k: int| 0 <= k < state.pulses ==> locations@[k] == spec_beat_location(*state, k),
{
    let mut locations: Vec<usize> = Vec::new();
    let mut k: usize = 0;
    while k < state.pulses
        invariant
            state.wf(),
            state.pulses > 0,
            k <= state.pulses,
            locations@.len() == k,
            forall|j: int| 0 <= j < k ==> locations@[j] == spec_beat_location(*state, j),
        decreases state.pulses - k,
    {
        proof {
            lemma_unshifted_in_range(state.steps as int, state.pulses as int, k as int);
            assert(k * state.steps <= 256) by (nonlinear_arith)
                requires
                    k < 16,
                    state.steps <= 16,
            ;
        }
        let location: usize = (k * state.steps / state.pulses + state.phase) % state.steps;
        locations.push(location);
        k += 1;
    }
    locations
}

/// Whether `step` is among `locations`.
fn is_among(locations: &Vec<usize>, step: usize) -> (found: bool)
    ensures
        found == exists|k: int| 0 <= k < locations@.len() && #[trigger] locations@[k] == step,
{
    let mut k: usize = 0;
    while k < locations.len()
        invariant
            k <= locations.len(),
            forall|j: int| 0 <= j < k ==> #[trigger] locations@[j] != step,
        decreases locations.len() - k,
    {
        if locations[k] == step {
            return true;
        }
        k += 1;
    }
    false
}

/// The sequence of `state` at `bpm` beats per minute.
pub fn generate(state: &EuclideanSequencerState, bpm: u32) -> (sequence: Sequence)
    requires
        state.wf(),
        bpm >= 1,
    ensures
        sequence@ == spec_generate(*state, bpm),
        state.pulses > 0 ==> sequence@.len() == state.steps && spec_sounding_count(sequence@)
            == state.pulses,
        state.pulses == 0 ==> sequence@.len() == 1 && sequence@[0].pitch == 0,
        forall|i: int| 0 <= i < sequence@.len() ==> (#[trigger] sequence@[i]).wf(),
{
    proof {
        lemma_generated_length(*state, bpm);
        lemma_generated_notes(*state, bpm);
        if state.pulses > 0 {
            lemma_generated_pulses(*state, bpm);
        }
    }
    let rest = Note::rest(NoteDuration::Sixteenth, bpm);
    if state.pulses == 0 {
        let single = Sequence::repeat(rest, 1);
        assert(single@ =~= spec_generate(*state, bpm));
        return single;
    }
    let pulse = Note::new(state.pitch, NOTE_VELOCITY, NoteDuration::Sixteenth, bpm);
    let locations = beat_locations(state);
    let mut sequence = Sequence::empty();
    let mut i: usize = 0;
    while i < state.steps
        invariant
            state.wf(),
            state.pulses > 0,
            i <= state.steps,
            rest == Note::spec_rest(NoteDuration::Sixteenth, bpm),
            pulse == spec_pulse_note(*state, bpm),
            locations@.len() == state.pulses,
            forall|k: int|
                0 <= k < state.pulses ==> locations@[k] == spec_beat_location(*state, k),
            sequence@.len() == i,
            forall|j: int| 0 <= j < i ==> sequence@[j] == spec_note_at(*state, bpm, j),
        decreases state.steps - i,
    {
        let on_beat = is_among(&locations, i);
        proof {
            if on_beat {
                let k = choose|k: int| 0 <= k < locations@.len() && locations@[k] == i;
                assert(spec_beat_location(*state, k) == i);
            } else if spec_is_beat(*state, i as int) {
                let k = choose|k: int|
                    0 <= k < state.pulses && spec_beat_location(*state, k) == i;
                assert(locations@[k] == i);
            }
            assert(on_beat == spec_is_beat(*state, i as int));
        }
        sequence.notes.push(
            if on_beat {
                pulse
            } else {
                rest
            },
        );
        i += 1;
    }
    assert(sequence@ =~= spec_generate(*state, bpm));
    sequence
}

/// The generator of one slot: it keeps the parameters that it last turned
/// into a sequence.
#[derive(Clone, Copy, Debug, PartialEq, Eq, Structural)]
pub struct EuclideanSequencer {
    pub sequencer_slot: SequencerSlot,
    pub cached_state: EuclideanSequencerState,
}

impl EuclideanSequencer {
    /// The generator of `sequencer_slot`, with the parameters that every slot
    /// starts with as the cached ones.
    pub fn new(sequencer_slot: SequencerSlot) -> (sequencer: Self)
        ensures
            sequencer.sequencer_slot == sequencer_slot,
            sequencer.cached_state == EuclideanSequencerState::spec_new(),
    {
        EuclideanSequencer { sequencer_slot, cached_state: EuclideanSequencerState::new() }
    }

    /// Looks at the parameters of the slot as they now stand. Where they
    /// differ from the cached ones they are cached and turned into a
    /// sequence, which comes back on the side of the slot: on the left for
    /// the left slot, on the right for the right one. Where they are the
    /// same nothing comes back.
    pub fn observe(&mut self, state: EuclideanSequencerState, bpm: u32) -> (update: Option<
        (Option<Sequence>, Option<Sequence>),
    >)
        requires
            state.wf(),
            bpm >= 1,
        ensures
            final(self).sequencer_slot == old(self).sequencer_slot,
            final(self).cached_state == state,
            update is Some <==> state != old(self).cached_state,
            update matches Some(sides) ==> match old(self).sequencer_slot {
                SequencerSlot::Left => sides.1 is None && (sides.0 matches Some(sequence)
                    && sequence@ == spec_generate(state, bpm)),
                SequencerSlot::Right => sides.0 is None && (sides.1 matches Some(sequence)
                    && sequence@ == spec_generate(state, bpm)),
            },
    {
        if state == self.cached_state {
            return None;
        }
        self.cached_state = state;
        let sequence = self.generate_sequence(bpm);
        match self.sequencer_slot {
            SequencerSlot::Left => Some((Some(sequence), None)),
            SequencerSlot::Right => Some((None, Some(sequence))),
        }
    }
}

impl Sequencer for EuclideanSequencer {
    open spec fn spec_can_generate(&self) -> bool {
        self.cached_state.wf()
    }

    open spec fn spec_generates(&self, bpm: u32, notes: Seq<Note>) -> bool {
        notes == spec_generate(self.cached_state, bpm)
    }

    /// The sequence of the cached parameters at `bpm` beats per minute.
    fn generate_sequence(&self, bpm: u32) -> (sequence: Sequence) {
        generate(&self.cached_state, bpm)
    }
}

} // verus!
