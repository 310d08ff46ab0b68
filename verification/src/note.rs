//! Notes, note lengths and the sequences built from them.
//!
//! Durations are whole milliseconds. Tempo is whole beats per minute.

use vstd::prelude::*;
use vstd::string::*;

verus! {

/// A musical note length.
#[derive(Clone, Copy, Debug, PartialEq, Eq, Structural)]
pub enum NoteDuration {
    Sixteenth,
    Eighth,
    DottedEight,
    Quarter,
    DottedQuarter,
    Half,
    DottedHalf,
    Whole,
}

impl NoteDuration {
    /// Length of the note counted in sixteenth notes.
    pub open spec fn spec_sixteenths(self) -> int {
        match self {
            NoteDuration::Sixteenth => 1,
            NoteDuration::Eighth => 2,
            NoteDuration::DottedEight => 3,
            NoteDuration::Quarter => 4,
            NoteDuration::DottedQuarter => 6,
            NoteDuration::Half => 8,
            NoteDuration::DottedHalf => 12,
            NoteDuration::Whole => 16,
        }
    }

    /// Length of the note counted in sixteenth notes.
    pub fn sixteenths(self) -> (n: u64)
        ensures
            n == self.spec_sixteenths(),
    {
        match self {
            NoteDuration::Sixteenth => 1,
            NoteDuration::Eighth => 2,
            NoteDuration::DottedEight => 3,
            NoteDuration::Quarter => 4,
            NoteDuration::DottedQuarter => 6,
            NoteDuration::Half => 8,
            NoteDuration::DottedHalf => 12,
            NoteDuration::Whole => 16,
        }
    }
}

/// Milliseconds that a note of the given length lasts at `bpm` quarter notes
/// per minute, rounded down: a quarter note lasts `60000 / bpm`, a sixteenth
/// a fourth of that.
pub open spec fn spec_duration_ms(note_duration: NoteDuration, bpm: u32) -> int {
    15000 * note_duration.spec_sixteenths() / (bpm as int)
}

/// Velocity given to every sounding note that a generator emits.
pub const NOTE_VELOCITY: u8 = 100;

/// A MIDI note. Pitch 0 is a rest: it takes its time and makes no sound.
#[derive(Clone, Copy, Debug, PartialEq, Eq, Structural)]
pub struct Note {
    pub pitch: u8,
    pub velocity: u8,
    /// Whole milliseconds.
    pub duration: u64,
}

impl Note {
    /// Pitch and velocity are MIDI data bytes: neither is above 127.
    pub open spec fn wf(self) -> bool {
        self.pitch <= 127 && self.velocity <= 127
    }

    /// Whether pitch and velocity are MIDI data bytes.
    pub fn is_valid(self) -> (valid: bool)
        ensures
            valid == self.wf(),
    {
        self.pitch <= 127 && self.velocity <= 127
    }

    /// A note of the given pitch, velocity and length at `bpm` beats per
    /// minute.
    pub fn new(pitch: u8, velocity: u8, note_duration: NoteDuration, bpm: u32) -> (note: Note)
        requires
            bpm >= 1,
        ensures
            note.pitch == pitch,
            note.velocity == velocity,
            note.duration == spec_duration_ms(note_duration, bpm),
    {
        let sixteenths: u64 = note_duration.sixteenths();
        Note { pitch, velocity, duration: 15000u64 * sixteenths / (bpm as u64) }
    }

    /// The silent note of the given length.
    pub open spec fn spec_rest(note_duration: NoteDuration, bpm: u32) -> Note {
        Note { pitch: 0, velocity: 0, duration: spec_duration_ms(note_duration, bpm) as u64 }
    }

    /// The silent note of the given length.
    pub fn rest(note_duration: NoteDuration, bpm: u32) -> (note: Note)
        requires
            bpm >= 1,
        ensures
            note == Note::spec_rest(note_duration, bpm),
    {
        Note::new(0, 0, note_duration, bpm)
    }

    /// Whether the note is silent.
    pub open spec fn spec_is_rest(self) -> bool {
        self.pitch == 0
    }

    /// Whether the note is silent.
    #[verifier::when_used_as_spec(spec_is_rest)]
    pub fn is_rest(self) -> (b: bool)
        ensures
            b == self.spec_is_rest(),
    {
        self.pitch == 0
    }
}

/// The notes that one generator emits, in playing order.
#[derive(Debug)]
pub struct Sequence {
    pub notes: Vec<Note>,
}

impl View for Sequence {
    type V = Seq<Note>;

    open spec fn view(&self) -> Seq<Note> {
        self.notes@
    }
}

/// Sixteen sixteenth rests at 120 beats per minute: what is played before any
/// generator has spoken.
pub open spec fn spec_default_notes() -> Seq<Note> {
    Seq::new(16, |i: int| Note::spec_rest(NoteDuration::Sixteenth, 120))
}

/// How many notes of `notes` are no rests.
pub open spec fn spec_sounding_count(notes: Seq<Note>) -> nat
    decreases notes.len(),
{
    if notes.len() == 0 {
        0
    } else {
        spec_sounding_count(notes.drop_last()) + if notes.last().pitch != 0 {
            1nat
        } else {
            0nat
        }
    }
}

/// The places of `notes` at which a note sounds.
pub open spec fn spec_sounding_places(notes: Seq<Note>) -> Set<int> {
    Set::new(|i: int| 0 <= i < notes.len() && notes[i].pitch != 0)
}

/// The sounding notes of a sequence are as many as the places at which they
/// stand.
pub proof fn lemma_sounding_count_is_places(notes: Seq<Note>)
    ensures
        spec_sounding_places(notes).finite(),
        spec_sounding_count(notes) == spec_sounding_places(notes).len(),
    decreases notes.len(),
{
    if notes.len() == 0 {
        assert(spec_sounding_places(notes) =~= Set::<int>::empty());
    } else {
        let front = notes.drop_last();
        let last = notes.len() - 1;
        lemma_sounding_count_is_places(front);
        if notes.last().pitch != 0 {
            assert(spec_sounding_places(notes) =~= spec_sounding_places(front).insert(last));
        } else {
            assert(spec_sounding_places(notes) =~= spec_sounding_places(front));
        }
    }
}

impl Sequence {
    /// The sequence without notes.
    pub fn empty() -> (sequence: Sequence)
        ensures
            sequence@ == Seq::<Note>::empty(),
    {
        Sequence { notes: Vec::new() }
    }

    /// A sequence that holds `count` times the same note.
    pub fn repeat(note: Note, count: usize) -> (sequence: Sequence)
        ensures
            sequence@ == Seq::new(count as nat, |i: int| note),
    {
        let mut notes: Vec<Note> = Vec::new();
        let mut i: usize = 0;
        while i < count
            invariant
                i <= count,
                notes@ == Seq::new(i as nat, |j: int| note),
            decreases count - i,
        {
            notes.push(note);
            i += 1;
        }
        Sequence { notes }
    }

    /// The number of notes.
    pub fn len(&self) -> (n: usize)
        ensures
            n == self@.len(),
    {
        self.notes.len()
    }

    /// How many notes of the sequence sound.
    pub fn sounding_count(&self) -> (count: usize)
        ensures
            count == spec_sounding_count(self@),
    {
        let mut count: usize = 0;
        let mut i: usize = 0;
        while i < self.notes.len()
            invariant
                i <= self.notes.len(),
                count <= i,
                count == spec_sounding_count(self.notes@.take(i as int)),
            decreases self.notes.len() - i,
        {
            assert(self.notes@.take(i + 1).drop_last() == self.notes@.take(i as int));
            if self.notes[i].pitch != 0 {
                count += 1;
            }
            i += 1;
        }
        assert(self.notes@.take(i as int) == self.notes@);
        count
    }
}

impl Clone for Sequence {
    fn clone(&self) -> (copy: Sequence)
        ensures
            copy@ == self@,
    {
        let mut notes: Vec<Note> = Vec::new();
        let mut i: usize = 0;
        while i < self.notes.len()
            invariant
                i <= self.notes.len(),
                notes@ == self.notes@.take(i as int),
            decreases self.notes.len() - i,
        {
            notes.push(self.notes[i]);
            i += 1;
        }
        Sequence { notes }
    }
}

impl Default for Sequence {
    fn default() -> (sequence: Sequence)
        ensures
            sequence@ == spec_default_notes(),
    {
        Sequence::repeat(Note::rest(NoteDuration::Sixteenth, 120), 16)
    }
}

/// The decimal digit `d`.
pub open spec fn spec_digit(d: int) -> char {
    if d == 0 {
        '0'
    } else if d == 1 {
        '1'
    } else if d == 2 {
        '2'
    } else if d == 3 {
        '3'
    } else if d == 4 {
        '4'
    } else if d == 5 {
        '5'
    } else if d == 6 {
        '6'
    } else if d == 7 {
        '7'
    } else if d == 8 {
        '8'
    } else {
        '9'
    }
}

/// A number below 100 in decimal, without leading zero.
pub open spec fn spec_decimal(n: int) -> Seq<char> {
    if n < 10 {
        seq![spec_digit(n)]
    } else {
        seq![spec_digit(n / 10), spec_digit(n % 10)]
    }
}

/// The octave of a pitch: pitches 12 to 23 make octave 0.
pub open spec fn spec_octave(pitch: u8) -> int {
    (pitch - 12) / 12
}

/// The place of a pitch in its octave, counted in semitones from C.
pub open spec fn spec_pitch_class(pitch: u8) -> int {
    (pitch - 12) % 12
}

/// The name of a pitch class, raised notes written with a sharp.
pub open spec fn spec_sharp_name(class: int) -> Seq<char> {
    if class == 0 {
        seq!['C']
    } else if class == 1 {
        seq!['C', '#']
    } else if class == 2 {
        seq!['D']
    } else if class == 3 {
        seq!['D', '#']
    } else if class == 4 {
        seq!['E']
    } else if class == 5 {
        seq!['F']
    } else if class == 6 {
        seq!['F', '#']
    } else if class == 7 {
        seq!['G']
    } else if class == 8 {
        seq!['G', '#']
    } else if class == 9 {
        seq!['A']
    } else if class == 10 {
        seq!['A', '#']
    } else {
        seq!['B']
    }
}

/// The second name of a raised pitch class, written with a flat; the seven
/// plain classes have none.
pub open spec fn spec_flat_name(class: int) -> Option<Seq<char>> {
    if class == 1 {
        Some(seq!['D', 'b'])
    } else if class == 3 {
        Some(seq!['E', 'b'])
    } else if class == 6 {
        Some(seq!['G', 'b'])
    } else if class == 8 {
        Some(seq!['A', 'b'])
    } else if class == 10 {
        Some(seq!['B', 'b'])
    } else {
        None
    }
}

/// The name of a pitch: the name of its class and its octave, as in `A4`,
/// and for a raised class both spellings, as in `D#1 / Eb1`.
pub open spec fn spec_note_name(pitch: u8) -> Seq<char> {
    let octave = spec_decimal(spec_octave(pitch));
    let class = spec_pitch_class(pitch);
    match spec_flat_name(class) {
        Some(flat) => spec_sharp_name(class) + octave + seq![' ', '/', ' '] + flat + octave,
        None => spec_sharp_name(class) + octave,
    }
}

fn digit_text(d: u8) -> (text: &'static str)
    requires
        d < 10,
    ensures
        text@ == seq![spec_digit(d as int)],
{
    proof {
        reveal_strlit("0");
        reveal_strlit("1");
        reveal_strlit("2");
        reveal_strlit("3");
        reveal_strlit("4");
        reveal_strlit("5");
        reveal_strlit("6");
        reveal_strlit("7");
        reveal_strlit("8");
        reveal_strlit("9");
    }
    let text = if d == 0 {
        "0"
    } else if d == 1 {
        "1"
    } else if d == 2 {
        "2"
    } else if d == 3 {
        "3"
    } else if d == 4 {
        "4"
    } else if d == 5 {
        "5"
    } else if d == 6 {
        "6"
    } else if d == 7 {
        "7"
    } else if d == 8 {
        "8"
    } else {
        "9"
    };
    assert(text@ =~= seq![spec_digit(d as int)]);
    text
}

fn append_decimal(text: &mut String, n: u8)
    requires
        n < 100,
    ensures
        final(text)@ == old(text)@ + spec_decimal(n as int),
{
    if n < 10 {
        text.append(digit_text(n));
        assert(text@ =~= old(text)@ + spec_decimal(n as int));
    } else {
        text.append(digit_text(n / 10));
        text.append(digit_text(n % 10));
        assert(text@ =~= old(text)@ + spec_decimal(n as int));
    }
}

fn sharp_name(class: u8) -> (name: &'static str)
    requires
        class < 12,
    ensures
        name@ == spec_sharp_name(class as int),
{
    proof {
        reveal_strlit("C");
        reveal_strlit("C#");
        reveal_strlit("D");
        reveal_strlit("D#");
        reveal_strlit("E");
        reveal_strlit("F");
        reveal_strlit("F#");
        reveal_strlit("G");
        reveal_strlit("G#");
        reveal_strlit("A");
        reveal_strlit("A#");
        reveal_strlit("B");
    }
    let name = if class == 0 {
        "C"
    } else if class == 1 {
        "C#"
    } else if class == 2 {
        "D"
    } else if class == 3 {
        "D#"
    } else if class == 4 {
        "E"
    } else if class == 5 {
        "F"
    } else if class == 6 {
        "F#"
    } else if class == 7 {
        "G"
    } else if class == 8 {
        "G#"
    } else if class == 9 {
        "A"
    } else if class == 10 {
        "A#"
    } else {
        "B"
    };
    assert(name@ =~= spec_sharp_name(class as int));
    name
}

fn flat_name(class: u8) -> (name: Option<&'static str>)
    requires
        class < 12,
    ensures
        match name {
            Some(flat) => spec_flat_name(class as int) == Some(flat@),
            None => spec_flat_name(class as int) is None,
        },
{
    proof {
        reveal_strlit("Db");
        reveal_strlit("Eb");
        reveal_strlit("Gb");
        reveal_strlit("Ab");
        reveal_strlit("Bb");
    }
    let name = if class == 1 {
        Some("Db")
    } else if class == 3 {
        Some("Eb")
    } else if class == 6 {
        Some("Gb")
    } else if class == 8 {
        Some("Ab")
    } else if class == 10 {
        Some("Bb")
    } else {
        None
    };
    if let Some(flat) = name {
        assert(flat@ =~= spec_flat_name(class as int)->0);
    }
    name
}

impl Sequence {
    /// The name of a pitch from 12 up, the lowest C that has an octave
    /// number.
    pub fn midi_to_note_name(pitch: u8) -> (name: String)
        requires
            pitch >= 12,
        ensures
            name@ == spec_note_name(pitch),
    {
        let octave: u8 = (pitch - 12) / 12;
        let class: u8 = (pitch - 12) % 12;
        let mut name = String::from_str(sharp_name(class));
        append_decimal(&mut name, octave);
        match flat_name(class) {
            Some(flat) => {
                proof {
                    reveal_strlit(" / ");
                    assert(" / "@ =~= seq![' ', '/', ' ']);
                }
                name.append(" / ");
                name.append(flat);
                append_decimal(&mut name, octave);
            },
            None => {},
        }
        name
    }
}

/// One playhead position of a mix: the left voice and the right voice, each
/// present or not.
pub type Step = (Option<Note>, Option<Note>);

/// What the mixer hands to playback: one step per playhead position.
#[derive(Debug)]
pub struct MixedSequence {
    pub notes: Vec<Step>,
}

impl View for MixedSequence {
    type V = Seq<Step>;

    open spec fn view(&self) -> Seq<Step> {
        self.notes@
    }
}

/// Sixteen steps that hold a sixteenth rest at 120 beats per minute in both
/// voices.
pub open spec fn spec_default_steps() -> Seq<Step> {
    Seq::new(
        16,
        |i: int|
            (
                Some(Note::spec_rest(NoteDuration::Sixteenth, 120)),
                Some(Note::spec_rest(NoteDuration::Sixteenth, 120)),
            ),
    )
}

impl MixedSequence {
    /// The mix without steps.
    pub fn new() -> (mixed: MixedSequence)
        ensures
            mixed@ == Seq::<Step>::empty(),
    {
        MixedSequence { notes: Vec::new() }
    }

    /// Adds one step at the end.
    pub fn push(&mut self, note: Step)
        ensures
            final(self)@ == old(self)@.push(note),
    {
        self.notes.push(note);
    }

    /// The number of steps.
    pub fn len(&self) -> (n: usize)
        ensures
            n == self@.len(),
    {
        self.notes.len()
    }
}

impl Default for MixedSequence {
    fn default() -> (mixed: MixedSequence)
        ensures
            mixed@ == spec_default_steps(),
    {
        let rest = Note::rest(NoteDuration::Sixteenth, 120);
        let mut notes: Vec<Step> = Vec::new();
        let mut i: usize = 0;
        while i < 16
            invariant
                i <= 16,
                rest == Note::spec_rest(NoteDuration::Sixteenth, 120),
                notes@ == Seq::new(i as nat, |j: int| (Some(rest), Some(rest))),
            decreases 16 - i,
        {
            notes.push((Some(rest), Some(rest)));
            i += 1;
        }
        MixedSequence { notes }
    }
}

} // verus!
