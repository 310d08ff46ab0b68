//! The bytes that leave for the MIDI output, when they leave within a step,
//! and the clock that comes in from the MIDI input.

use vstd::prelude::*;
use crate::note::{spec_duration_ms, Note, NoteDuration, Step};
use crate::state::SharedState;

verus! {

/// Status byte of a note-on message.
pub const NOTE_ON_MSG: u8 = 0x90;

/// Status byte of a note-off message.
pub const NOTE_OFF_MSG: u8 = 0x80;

/// Status byte of a timing-clock message.
pub const CLOCK_MSG: u8 = 0xF8;

/// Highest pitch that MIDI knows.
pub const MAX_MIDI_PITCH: u8 = 127;

/// The four bytes of one message to the output: status, pitch, velocity,
/// channel.
pub type MidiMessage = [u8; 4];

/// One message and the time at which it leaves, in milliseconds from the
/// start of its step.
#[derive(Clone, Copy, Debug, PartialEq, Eq)]
pub struct MidiEvent {
    pub at: u64,
    pub message: MidiMessage,
}

/// The bytes that start `note` on `channel`.
pub open spec fn spec_note_on(note: Note, channel: u8) -> Seq<u8> {
    seq![NOTE_ON_MSG, note.pitch, note.velocity, channel]
}

/// The bytes that end `pitch` on `channel`: a note-off with velocity 0.
pub open spec fn spec_note_off(pitch: u8, channel: u8) -> Seq<u8> {
    seq![NOTE_OFF_MSG, pitch, 0u8, channel]
}

/// Whether `event` starts `note` on `channel` at the start of the step.
pub open spec fn spec_is_on(event: MidiEvent, note: Note, channel: u8) -> bool {
    event.at == 0 && event.message@ == spec_note_on(note, channel)
}

/// Whether `event` ends `note` on `channel` when its duration is over.
pub open spec fn spec_is_off(event: MidiEvent, note: Note, channel: u8) -> bool {
    event.at == note.duration && event.message@ == spec_note_off(note.pitch, channel)
}

/// The voice as far as it sends bytes: a voice that is absent or rests sends
/// none.
pub open spec fn spec_sounding(voice: Option<Note>) -> Option<Note> {
    match voice {
        Some(note) => if note.pitch == 0 {
            None
        } else {
            Some(note)
        },
        None => None,
    }
}

/// Whether `events` is what one step sends on `channel`: each sounding voice
/// starts at once, the left one first, and ends after its own duration, the
/// shorter one first and the left one first where both last the same.
pub open spec fn spec_is_step_events(events: Seq<MidiEvent>, step: Step, channel: u8) -> bool {
    match (spec_sounding(step.0), spec_sounding(step.1)) {
        (Some(left), Some(right)) => {
            &&& events.len() == 4
            &&& spec_is_on(events[0], left, channel)
            &&& spec_is_on(events[1], right, channel)
            &&& if left.duration <= right.duration {
                spec_is_off(events[2], left, channel) && spec_is_off(events[3], right, channel)
            } else {
                spec_is_off(events[2], right, channel) && spec_is_off(events[3], left, channel)
            }
        },
        (Some(left), None) => {
            &&& events.len() == 2
            &&& spec_is_on(events[0], left, channel)
            &&& spec_is_off(events[1], left, channel)
        },
        (None, Some(right)) => {
            &&& events.len() == 2
            &&& spec_is_on(events[0], right, channel)
            &&& spec_is_off(events[1], right, channel)
        },
        (None, None) => events.len() == 0,
    }
}

/// The time that a step takes, in milliseconds: as long as its longer voice,
/// rests counted, and a sixteenth at `bpm` beats per minute where it has no
/// voice at all.
pub open spec fn spec_step_duration(step: Step, bpm: u32) -> int {
    match step {
        (Some(left), Some(right)) => if left.duration >= right.duration {
            left.duration as int
        } else {
            right.duration as int
        },
        (Some(left), None) => left.duration as int,
        (None, Some(right)) => right.duration as int,
        (None, None) => spec_duration_ms(NoteDuration::Sixteenth, bpm),
    }
}

/// What a step sends leaves in the order of its times, and none of it later
/// than the step lasts.
pub proof fn lemma_step_events_in_time(events: Seq<MidiEvent>, step: Step, channel: u8, bpm: u32)
    requires
        spec_is_step_events(events, step, channel),
    ensures
        forall|i: int, j: int| 0 <= i <= j < events.len() ==> events[i].at <= events[j].at,
        forall|i: int| 0 <= i < events.len() ==> events[i].at <= spec_step_duration(step, bpm),
{
}

/// The bytes that start `note` on `channel`.
pub fn note_on(note: Note, channel: u8) -> (message: MidiMessage)
    ensures
        message@ == spec_note_on(note, channel),
{
    let message = [NOTE_ON_MSG, note.pitch, note.velocity, channel];
    assert(message@ =~= spec_note_on(note, channel));
    message
}

/// The bytes that end `pitch` on `channel`.
pub fn note_off(pitch: u8, channel: u8) -> (message: MidiMessage)
    ensures
        message@ == spec_note_off(pitch, channel),
{
    let message = [NOTE_OFF_MSG, pitch, 0, channel];
    assert(message@ =~= spec_note_off(pitch, channel));
    message
}

/// The voice as far as it sends bytes.
pub fn sounding(voice: Option<Note>) -> (note: Option<Note>)
    ensures
        note == spec_sounding(voice),
{
    match voice {
        Some(note) => if note.pitch == 0 {
            None
        } else {
            Some(note)
        },
        None => None,
    }
}

/// What `notes` sends on `channel`, in the order in which it leaves.
pub fn step_events(notes: Step, channel: u8) -> (events: Vec<MidiEvent>)
    ensures
        spec_is_step_events(events@, notes, channel),
{
    let mut events: Vec<MidiEvent> = Vec::new();
    match (sounding(notes.0), sounding(notes.1)) {
        (Some(left), Some(right)) => {
            events.push(MidiEvent { at: 0, message: note_on(left, channel) });
            events.push(MidiEvent { at: 0, message: note_on(right, channel) });
            let left_off = MidiEvent { at: left.duration, message: note_off(left.pitch, channel) };
            let right_off = MidiEvent {
                at: right.duration,
                message: note_off(right.pitch, channel),
            };
            if left.duration <= right.duration {
                events.push(left_off);
                events.push(right_off);
            } else {
                events.push(right_off);
                events.push(left_off);
            }
        },
        (Some(left), None) => {
            events.push(MidiEvent { at: 0, message: note_on(left, channel) });
            events.push(MidiEvent { at: left.duration, message: note_off(left.pitch, channel) });
        },
        (None, Some(right)) => {
            events.push(MidiEvent { at: 0, message: note_on(right, channel) });
            events.push(MidiEvent { at: right.duration, message: note_off(right.pitch, channel) });
        },
        (None, None) => {},
    }
    events
}

/// The time that `notes` takes at `bpm` beats per minute, in milliseconds.
pub fn step_duration(notes: Step, bpm: u32) -> (duration: u64)
    requires
        bpm >= 1,
    ensures
        duration == spec_step_duration(notes, bpm),
{
    match notes {
        (Some(left), Some(right)) => if left.duration >= right.duration {
            left.duration
        } else {
            right.duration
        },
        (Some(left), None) => left.duration,
        (None, Some(right)) => right.duration,
        (None, None) => Note::rest(NoteDuration::Sixteenth, bpm).duration,
    }
}

/// The note-off messages that silence what `notes` may have left sounding on
/// `channel`: one for each sounding voice, the left one first.
pub fn step_notes_off(notes: Step, channel: u8) -> (messages: Vec<MidiMessage>)
    ensures
        messages@.len() == (if spec_sounding(notes.0) is Some {
            1int
        } else {
            0int
        }) + (if spec_sounding(notes.1) is Some {
            1int
        } else {
            0int
        }),
        spec_sounding(notes.0) matches Some(left) ==> messages@[0]@ == spec_note_off(
            left.pitch,
            channel,
        ),
        spec_sounding(notes.1) matches Some(right) ==> messages@[messages@.len() - 1]@
            == spec_note_off(right.pitch, channel),
{
    let mut messages: Vec<MidiMessage> = Vec::new();
    match sounding(notes.0) {
        Some(left) => messages.push(note_off(left.pitch, channel)),
        None => {},
    }
    match sounding(notes.1) {
        Some(right) => messages.push(note_off(right.pitch, channel)),
        None => {},
    }
    messages
}

/// A note-off on `channel` for every pitch from 0 to 127, in rising order.
pub fn all_notes_off(channel: u8) -> (messages: Vec<MidiMessage>)
    ensures
        messages@.len() == 128,
        forall|pitch: int|
            0 <= pitch < 128 ==> (#[trigger] messages@[pitch])@ == spec_note_off(
                pitch as u8,
                channel,
            ),
{
    let mut messages: Vec<MidiMessage> = Vec::new();
    let mut pitch: u8 = 0;
    while pitch <= MAX_MIDI_PITCH
        invariant
            pitch <= MAX_MIDI_PITCH + 1,
            messages@.len() == pitch,
            forall|p: int|
                0 <= p < pitch ==> (#[trigger] messages@[p])@ == spec_note_off(p as u8, channel),
        decreases MAX_MIDI_PITCH + 1 - pitch,
    {
        messages.push(note_off(pitch, channel));
        pitch += 1;
    }
    messages
}

/// Whether `message` is a tick of the MIDI clock.
pub open spec fn spec_is_clock(message: Seq<u8>) -> bool {
    message.len() > 0 && message[0] == CLOCK_MSG
}

/// Takes in one message from the MIDI input: a tick of the clock is counted,
/// anything else is passed over.
pub fn handle_midi_message(message: &[u8], state: &mut SharedState)
    ensures
        *final(state) == if spec_is_clock(message@) {
            old(state).spec_clock_tick()
        } else {
            *old(state)
        },
        old(state).wf() ==> final(state).wf(),
{
    if message.len() > 0 && message[0] == CLOCK_MSG {
        state.clock_tick();
    }
}

/// The part of a port's name that marks a serial MIDI bridge, which is
/// taken before any other port.
pub open spec fn spec_preferred_mark() -> Seq<char> {
    "ttymidi"@
}

/// Whether `needle` stands in `text` from place `at` on.
pub open spec fn spec_occurs_at(text: Seq<char>, needle: Seq<char>, at: int) -> bool {
    0 <= at && at + needle.len() <= text.len() && text.subrange(at, at + needle.len()) == needle
}

/// Whether `needle` stands somewhere in `text`.
pub open spec fn spec_occurs_in(text: Seq<char>, needle: Seq<char>) -> bool {
    exists|at: int| #[trigger] spec_occurs_at(text, needle, at)
}

/// Calls `str::contains` with a string as the pattern. It says whether the
/// pattern stands somewhere in the text.
#[verifier::external_body]
fn contains_text(text: &str, needle: &str) -> (found: bool)
    ensures
        found == spec_occurs_in(text@, needle@),
{
    text.contains(needle)
}

/// Whether the port of this name is taken before others.
pub open spec fn spec_is_preferred(name: Seq<char>) -> bool {
    spec_occurs_in(name, spec_preferred_mark())
}

/// The port to connect to, by its place among the names of the ports that
/// there are: the first preferred one, else the first of all, and none where
/// there is no port.
pub fn choose_port(names: &Vec<String>) -> (choice: Option<usize>)
    ensures
        choice is None <==> names@.len() == 0,
        choice matches Some(index) ==> {
            &&& index < names@.len()
            &&& forall|i: int| 0 <= i < index ==> !spec_is_preferred(#[trigger] names@[i]@)
            &&& spec_is_preferred(names@[index as int]@) || (index == 0 && forall|i: int|
                0 <= i < names@.len() ==> !spec_is_preferred(#[trigger] names@[i]@))
        },
{
    let mut i: usize = 0;
    while i < names.len()
        invariant
            i <= names.len(),
            forall|j: int| 0 <= j < i ==> !spec_is_preferred(#[trigger] names@[j]@),
        decreases names.len() - i,
    {
        if contains_text(names[i].as_str(), "ttymidi") {
            return Some(i);
        }
        i += 1;
    }
    if names.len() == 0 {
        None
    } else {
        Some(0)
    }
}

} // verus!
