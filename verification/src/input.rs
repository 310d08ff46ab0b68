//! What a control surface can ask for, and which key asks for what.

use vstd::prelude::*;
use crate::sequencers::euclidean::state::EuclideanSequencerInput;
use crate::sequencers::mixer::state::MixerInput;
use crate::state::SharedState;

verus! {

/// An edit of the shared state.
#[derive(Clone, Copy, Debug, PartialEq, Eq, Structural)]
pub enum Input {
    Bpm(u32),
    TogglePlayback,
    ChangeMidiChannel,
    IncreaseBpm,
    DecreaseBpm,
    SwitchActiveSequencer,
    Euclidean(EuclideanSequencerInput),
    Mixer(MixerInput),
}

/// A key of the keyboard, as far as the sequencer tells keys apart.
#[derive(Clone, Copy, Debug, PartialEq, Eq, Structural)]
pub enum Key {
    Space,
    Tab,
    Up,
    Down,
    Left,
    Right,
    A,
    C,
    D,
    F,
    R,
    S,
    W,
    Other,
}

/// The edit that a key asks for, if it asks for one.
pub open spec fn spec_key_input(key: Key) -> Option<Input> {
    match key {
        Key::Space => Some(Input::TogglePlayback),
        Key::C => Some(Input::ChangeMidiChannel),
        Key::R => Some(Input::Mixer(MixerInput::IncreaseRatio)),
        Key::F => Some(Input::Mixer(MixerInput::DecreaseRatio)),
        Key::Up => Some(Input::Euclidean(EuclideanSequencerInput::IncreaseSteps)),
        Key::Down => Some(Input::Euclidean(EuclideanSequencerInput::DecreaseSteps)),
        Key::Right => Some(Input::Euclidean(EuclideanSequencerInput::IncreasePulses)),
        Key::Left => Some(Input::Euclidean(EuclideanSequencerInput::DecreasePulses)),
        Key::W => Some(Input::Euclidean(EuclideanSequencerInput::IncreasePitch)),
        Key::S => Some(Input::Euclidean(EuclideanSequencerInput::DecreasePitch)),
        Key::D => Some(Input::Euclidean(EuclideanSequencerInput::IncreaseOctave)),
        Key::A => Some(Input::Euclidean(EuclideanSequencerInput::DecreaseOctave)),
        Key::Tab => Some(Input::SwitchActiveSequencer),
        Key::Other => None,
    }
}

/// The edit that a key asks for, if it asks for one.
pub fn key_input(key: Key) -> (input: Option<Input>)
    ensures
        input == spec_key_input(key),
{
    match key {
        Key::Space => Some(Input::TogglePlayback),
        Key::C => Some(Input::ChangeMidiChannel),
        Key::R => Some(Input::Mixer(MixerInput::IncreaseRatio)),
        Key::F => Some(Input::Mixer(MixerInput::DecreaseRatio)),
        Key::Up => Some(Input::Euclidean(EuclideanSequencerInput::IncreaseSteps)),
        Key::Down => Some(Input::Euclidean(EuclideanSequencerInput::DecreaseSteps)),
        Key::Right => Some(Input::Euclidean(EuclideanSequencerInput::IncreasePulses)),
        Key::Left => Some(Input::Euclidean(EuclideanSequencerInput::DecreasePulses)),
        Key::W => Some(Input::Euclidean(EuclideanSequencerInput::IncreasePitch)),
        Key::S => Some(Input::Euclidean(EuclideanSequencerInput::DecreasePitch)),
        Key::D => Some(Input::Euclidean(EuclideanSequencerInput::IncreaseOctave)),
        Key::A => Some(Input::Euclidean(EuclideanSequencerInput::DecreaseOctave)),
        Key::Tab => Some(Input::SwitchActiveSequencer),
        Key::Other => None,
    }
}

/// The state after `input`.
pub open spec fn spec_apply(state: SharedState, input: Input) -> SharedState {
    match input {
        Input::Bpm(bpm) => state.spec_set_bpm(bpm),
        Input::TogglePlayback => state.spec_toggle_playing(),
        Input::ChangeMidiChannel => state.spec_change_midi_channel(),
        Input::IncreaseBpm => state.spec_increase_bpm(),
        Input::DecreaseBpm => state.spec_decrease_bpm(),
        Input::SwitchActiveSequencer => state.spec_switch_active_sequencer(),
        Input::Euclidean(edit) => state.spec_edit_active(edit),
        Input::Mixer(edit) => state.spec_edit_mixer(edit),
    }
}

/// The state after the key has been pressed: a key that asks for nothing
/// leaves it as it is.
pub open spec fn spec_press(state: SharedState, key: Key) -> SharedState {
    match spec_key_input(key) {
        Some(input) => spec_apply(state, input),
        None => state,
    }
}

/// The keys of `keys` that are not in `last_keys`, in the order of `keys`:
/// those that went down since `last_keys` was read.
pub open spec fn spec_newly_pressed(keys: Seq<Key>, last_keys: Seq<Key>) -> Seq<Key> {
    keys.filter(|key: Key| !last_keys.contains(key))
}

/// The state after the keys have been pressed one after the other.
pub open spec fn spec_press_all(state: SharedState, keys: Seq<Key>) -> SharedState
    decreases keys.len(),
{
    if keys.len() == 0 {
        state
    } else {
        spec_press(spec_press_all(state, keys.drop_last()), keys.last())
    }
}

/// Every edit leaves the state within its bounds.
pub proof fn lemma_apply_keeps_bounds(state: SharedState, input: Input)
    requires
        state.wf(),
    ensures
        spec_apply(state, input).wf(),
        spec_apply(state, input).left_state.pulses <= spec_apply(state, input).left_state.steps,
        spec_apply(state, input).right_state.pulses <= spec_apply(
            state,
            input,
        ).right_state.steps,
{
}

/// Makes the edit that `input` names.
pub fn apply(state: &mut SharedState, input: Input)
    requires
        old(state).wf(),
    ensures
        *final(state) == spec_apply(*old(state), input),
        final(state).wf(),
{
    match input {
        Input::Bpm(bpm) => state.set_bpm(bpm),
        Input::TogglePlayback => state.toggle_playing(),
        Input::ChangeMidiChannel => state.change_midi_channel(),
        Input::IncreaseBpm => state.increase_bpm(),
        Input::DecreaseBpm => state.decrease_bpm(),
        Input::SwitchActiveSequencer => state.switch_active_sequencer(),
        Input::Euclidean(edit) => state.edit_active(edit),
        Input::Mixer(edit) => state.edit_mixer(edit),
    }
}

/// Whether `key` is among `keys`.
pub fn is_pressed(keys: &Vec<Key>, key: Key) -> (pressed: bool)
    ensures
        pressed == keys@.contains(key),
{
    let mut i: usize = 0;
    while i < keys.len()
        invariant
            i <= keys.len(),
            forall|j: int| 0 <= j < i ==> keys@[j] != key,
        decreases keys.len() - i,
    {
        if keys[i] == key {
            return true;
        }
        i += 1;
    }
    false
}

/// The keys that went down since `last_keys` was read.
pub fn newly_pressed(keys: &Vec<Key>, last_keys: &Vec<Key>) -> (pressed: Vec<Key>)
    ensures
        pressed@ == spec_newly_pressed(keys@, last_keys@),
{
    let mut pressed: Vec<Key> = Vec::new();
    let mut i: usize = 0;
    proof {
        assert(keys@.take(0) =~= Seq::<Key>::empty());
    }
    while i < keys.len()
        invariant
            i <= keys.len(),
            pressed@ == spec_newly_pressed(keys@.take(i as int), last_keys@),
        decreases keys.len() - i,
    {
        proof {
            assert(keys@.take(i + 1).drop_last() == keys@.take(i as int));
            reveal(Seq::filter);
        }
        if !is_pressed(last_keys, keys[i]) {
            pressed.push(keys[i]);
        }
        i += 1;
    }
    proof {
        assert(keys@.take(i as int) == keys@);
    }
    pressed
}

/// Makes the edits of the keys that went down since `last_keys` was read, in
/// the order of `keys`. Says whether any key went down, which calls for a
/// fresh snapshot to whoever displays the state.
pub fn handle_keys(state: &mut SharedState, keys: &Vec<Key>, last_keys: &Vec<Key>) -> (pressed:
    bool)
    requires
        old(state).wf(),
    ensures
        *final(state) == spec_press_all(*old(state), spec_newly_pressed(keys@, last_keys@)),
        final(state).wf(),
        pressed == (spec_newly_pressed(keys@, last_keys@).len() > 0),
{
    let diff = newly_pressed(keys, last_keys);
    let mut i: usize = 0;
    proof {
        assert(diff@.take(0) =~= Seq::<Key>::empty());
    }
    while i < diff.len()
        invariant
            i <= diff.len(),
            state.wf(),
            *state == spec_press_all(*old(state), diff@.take(i as int)),
        decreases diff.len() - i,
    {
        proof {
            assert(diff@.take(i + 1).drop_last() == diff@.take(i as int));
        }
        match key_input(diff[i]) {
            Some(input) => apply(state, input),
            None => {},
        }
        i += 1;
    }
    proof {
        assert(diff@.take(i as int) == diff@);
    }
    diff.len() > 0
}

} // verus!
