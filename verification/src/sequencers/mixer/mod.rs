//! The mixer: two sequences in, one sequence of two-voice steps out.
//!
//! A ratio is given in hundredths. A draw is a `u32` read as the fraction
//! `draw / 2^32`, so it stands for a number from 0.0 up to, not reaching, 1.0.

pub mod gui;
pub mod state;

use vstd::prelude::*;
use crate::note::{MixedSequence, Note, Sequence, Step, spec_default_notes};
use crate::sequencers::mixer::state::MixerState;

verus! {

/// Whether `c` is a positive multiple of both `a` and `b`.
pub open spec fn spec_is_common_multiple(a: nat, b: nat, c: nat) -> bool {
    c > 0 && a > 0 && b > 0 && c % a == 0 && c % b == 0
}

/// Whether `m` is the least common multiple of `a` and `b`: the least
/// positive number that both divide, or 0 where one of them is 0.
pub open spec fn spec_is_lcm(a: nat, b: nat, m: nat) -> bool {
    if a == 0 || b == 0 {
        m == 0
    } else {
        &&& spec_is_common_multiple(a, b, m)
        &&& forall|c: nat| #[trigger] spec_is_common_multiple(a, b, c) ==> m <= c
    }
}

/// The least common multiple of `a` and `b`.
pub open spec fn spec_lcm(a: nat, b: nat) -> nat {
    choose|m: nat| spec_is_lcm(a, b, m)
}

/// Whether one of two lengths divides the other.
pub open spec fn spec_one_divides(len_a: nat, len_b: nat) -> bool {
    if len_a >= len_b {
        len_b > 0 && len_a % len_b == 0
    } else {
        len_a > 0 && len_b % len_a == 0
    }
}

/// Whether two sequences of these lengths can be mixed: neither is empty,
/// and where neither length divides the other their product fits a `usize`.
pub open spec fn spec_can_mix(len_a: nat, len_b: nat) -> bool {
    &&& len_a > 0
    &&& len_b > 0
    &&& spec_one_divides(len_a, len_b) || len_a * len_b <= usize::MAX
}

/// The number of steps of a mix: the longer length where one length divides
/// the other, their least common multiple where none does.
pub open spec fn spec_mix_length(len_a: nat, len_b: nat) -> nat {
    if spec_one_divides(len_a, len_b) {
        if len_a >= len_b {
            len_a
        } else {
            len_b
        }
    } else {
        spec_lcm(len_a, len_b)
    }
}

/// No two numbers are the least common multiple of the same pair.
pub proof fn lemma_lcm_is_unique(a: nat, b: nat, m: nat)
    requires
        spec_is_lcm(a, b, m),
    ensures
        spec_lcm(a, b) == m,
{
    let chosen = spec_lcm(a, b);
    assert(spec_is_lcm(a, b, chosen));
    if a != 0 && b != 0 {
        assert(spec_is_common_multiple(a, b, m));
        assert(spec_is_common_multiple(a, b, chosen));
    }
}

/// Two positive numbers have a least common multiple among the numbers from
/// `from` on, once no smaller number is a common multiple of them.
proof fn lemma_lcm_exists_from(a: nat, b: nat, from: nat)
    requires
        a > 0,
        b > 0,
        0 < from <= a * b,
        forall|c: nat| c < from ==> !#[trigger] spec_is_common_multiple(a, b, c),
    ensures
        exists|m: nat| spec_is_lcm(a, b, m),
    decreases a * b - from,
{
    if spec_is_common_multiple(a, b, from) {
        assert(spec_is_lcm(a, b, from));
    } else {
        assert(spec_is_common_multiple(a, b, a * b)) by {
            vstd::arithmetic::div_mod::lemma_mod_multiples_basic(a as int, b as int);
            vstd::arithmetic::div_mod::lemma_mod_multiples_basic(b as int, a as int);
            assert(a * b == b * a) by (nonlinear_arith);
            assert(a * b > 0) by (nonlinear_arith)
                requires
                    a > 0,
                    b > 0,
            ;
        }
        lemma_lcm_exists_from(a, b, from + 1);
    }
}

/// Two positive numbers have a least common multiple.
pub proof fn lemma_lcm_exists(a: nat, b: nat)
    requires
        a > 0,
        b > 0,
    ensures
        spec_is_lcm(a, b, spec_lcm(a, b)),
{
    assert(a * b >= 1) by (nonlinear_arith)
        requires
            a > 0,
            b > 0,
    ;
    lemma_lcm_exists_from(a, b, 1);
}

/// The number of steps of a mix is the least common multiple of the two
/// lengths in every case: where one length divides the other, the longer
/// one is just that. So the mix holds each sequence a whole number of times.
pub proof fn lemma_mix_length_is_lcm(len_a: nat, len_b: nat)
    requires
        len_a > 0,
        len_b > 0,
    ensures
        spec_is_lcm(len_a, len_b, spec_mix_length(len_a, len_b)),
        spec_mix_length(len_a, len_b) == spec_lcm(len_a, len_b),
        spec_mix_length(len_a, len_b) % len_a == 0,
        spec_mix_length(len_a, len_b) % len_b == 0,
{
    if spec_one_divides(len_a, len_b) {
        let longer = spec_mix_length(len_a, len_b);
        assert(longer % longer == 0) by (nonlinear_arith)
            requires
                longer > 0,
        ;
        assert forall|c: nat| #[trigger]
            spec_is_common_multiple(len_a, len_b, c) implies longer <= c by {
            if c < longer {
                assert(c % longer == c) by (nonlinear_arith)
                    requires
                        0 <= c < longer,
                ;
            }
        }
        lemma_lcm_is_unique(len_a, len_b, longer);
    } else {
        lemma_lcm_exists(len_a, len_b);
    }
}

/// Calls `num::integer::lcm` on two `usize`. The result is the least common
/// multiple of the arguments, and 0 where one of them is 0. The call
/// multiplies one argument by a divisor of the other, so the product of the
/// arguments has to fit.
#[verifier::external_body]
fn lcm(a: usize, b: usize) -> (m: usize)
    requires
        a * b <= usize::MAX,
    ensures
        spec_is_lcm(a as nat, b as nat, m as nat),
{
    num::integer::lcm(a, b)
}

/// Calls `num::abs` on an `i64`. The result is the distance of the argument
/// from zero; the least `i64` has none that fits and is left out.
#[verifier::external_body]
fn abs(value: i64) -> (distance: i64)
    requires
        value > i64::MIN,
    ensures
        distance == if value < 0 {
            -value
        } else {
            value as int
        },
{
    num::abs(value)
}

/// Calls `rand::random` for a `u32`, which draws from the generator of the
/// calling thread; every `u32` can come back, and nothing more is known of
/// it. The call panics where the system gives that generator no seed.
#[verifier::external_body]
fn random_draw() -> (draw: u32) {
    rand::random::<u32>()
}

/// The number of steps of the mix of two sequences of the given lengths,
/// or nothing where they cannot be mixed.
pub fn mix_length(len_a: usize, len_b: usize) -> (length: Option<usize>)
    ensures
        length is Some <==> spec_can_mix(len_a as nat, len_b as nat),
        length matches Some(n) ==> n == spec_mix_length(len_a as nat, len_b as nat),
{
    if len_a == 0 || len_b == 0 {
        return None;
    }
    let common_factor = if len_a >= len_b {
        len_a % len_b == 0
    } else {
        len_b % len_a == 0
    };
    if common_factor {
        Some(if len_a >= len_b { len_a } else { len_b })
    } else {
        match len_a.checked_mul(len_b) {
            Some(_) => {
                let length: usize = lcm(len_a, len_b);
                proof {
                    lemma_lcm_is_unique(len_a as nat, len_b as nat, length as nat);
                }
                Some(length)
            },
            None => None,
        }
    }
}

/// Whether the draw lies less than 0.15 from the ratio.
pub open spec fn spec_is_near(ratio: u8, draw: u32) -> bool {
    let distance = draw * 100 - ratio * 0x1_0000_0000;
    -15 * 0x1_0000_0000 < distance < 15 * 0x1_0000_0000
}

/// Whether the draw lies above the ratio.
pub open spec fn spec_is_above(ratio: u8, draw: u32) -> bool {
    draw * 100 > ratio * 0x1_0000_0000
}

/// The step that two notes give. A rest never silences the other voice; two
/// rests both stay. Two sounding notes both stay where the draw is near the
/// ratio; else the right one stays where the draw is above the ratio and the
/// left one where it is not.
pub open spec fn spec_mix_step(note_a: Note, note_b: Note, ratio: u8, draw: u32) -> Step {
    if note_a.pitch == 0 && note_b.pitch == 0 {
        (Some(note_a), Some(note_b))
    } else if note_b.pitch == 0 {
        (Some(note_a), None)
    } else if note_a.pitch == 0 {
        (None, Some(note_b))
    } else if spec_is_near(ratio, draw) {
        (Some(note_a), Some(note_b))
    } else if spec_is_above(ratio, draw) {
        (None, Some(note_b))
    } else {
        (Some(note_a), None)
    }
}

/// Whether some draw makes `step` of the two notes.
pub open spec fn spec_is_mix_of(note_a: Note, note_b: Note, ratio: u8, step: Step) -> bool {
    exists|draw: u32| step == #[trigger] spec_mix_step(note_a, note_b, ratio, draw)
}

/// A left rest beside a sounding right note gives the right note alone,
/// whatever the ratio and the draw.
pub proof fn lemma_right_alone(note_a: Note, note_b: Note, ratio: u8, draw: u32)
    requires
        note_a.pitch == 0,
        note_b.pitch != 0,
    ensures
        spec_mix_step(note_a, note_b, ratio, draw) == (None::<Note>, Some(note_b)),
{
}

/// The step that two notes give at `ratio` for one `draw`.
pub fn mix_step(note_a: Note, note_b: Note, ratio: u8, draw: u32) -> (step: Step)
    ensures
        step == spec_mix_step(note_a, note_b, ratio, draw),
{
    if note_a.pitch == 0 && note_b.pitch == 0 {
        (Some(note_a), Some(note_b))
    } else if note_b.pitch == 0 {
        (Some(note_a), None)
    } else if note_a.pitch == 0 {
        (None, Some(note_b))
    } else {
        let drawn: i64 = draw as i64 * 100;
        let wanted: i64 = ratio as i64 * 0x1_0000_0000;
        if abs(drawn - wanted) < 15 * 0x1_0000_0000 {
            (Some(note_a), Some(note_b))
        } else if drawn > wanted {
            (None, Some(note_b))
        } else {
            (Some(note_a), None)
        }
    }
}

/// What the mixer keeps between two mixes: the latest sequence of each slot
/// and the parameters that it last mixed with.
pub struct Mixer {
    pub sequences: (Sequence, Sequence),
    pub previous_state: MixerState,
}

impl Mixer {
    /// Sixteen rests in both slots, and the ratio 0.5.
    pub fn new() -> (mixer: Mixer)
        ensures
            mixer.sequences.0@ == spec_default_notes(),
            mixer.sequences.1@ == spec_default_notes(),
            mixer.previous_state == MixerState::spec_new(),
    {
        Mixer {
            sequences: (Sequence::default(), Sequence::default()),
            previous_state: MixerState::new(),
        }
    }

    /// Takes in what the generators sent: a sequence replaces the one of its
    /// slot, and a slot that got none keeps its own. Says whether a slot
    /// changed hands, which calls for a new mix.
    pub fn update_sequences(&mut self, sequences: (Option<Sequence>, Option<Sequence>)) -> (changed:
        bool)
        ensures
            final(self).sequences.0@ == match sequences.0 {
                Some(left) => left@,
                None => old(self).sequences.0@,
            },
            final(self).sequences.1@ == match sequences.1 {
                Some(right) => right@,
                None => old(self).sequences.1@,
            },
            final(self).previous_state == old(self).previous_state,
            changed == (sequences.0 is Some || sequences.1 is Some),
    {
        let (left, right) = sequences;
        let mut changed = false;
        match left {
            Some(left) => {
                self.sequences.0 = left;
                changed = true;
            },
            None => {},
        }
        match right {
            Some(right) => {
                self.sequences.1 = right;
                changed = true;
            },
            None => {},
        }
        changed
    }

    /// Takes note of the mixer's parameters as they now stand. Says whether
    /// they differ from those of the last call, which calls for a new mix.
    pub fn update_state(&mut self, state: MixerState) -> (changed: bool)
        ensures
            changed == (state != old(self).previous_state),
            final(self).previous_state == state,
            final(self).sequences == old(self).sequences,
    {
        let changed = state != self.previous_state;
        self.previous_state = state;
        changed
    }

    /// Mixes the two kept sequences at `ratio` with the draws that are given,
    /// draw `i` for step `i`, so that the same draws give the same mix.
    /// Nothing is mixed while a slot is empty or the draws are fewer than the
    /// steps.
    pub fn mix_with_draws(&self, ratio: u8, draws: &Vec<u32>) -> (mixed: Option<MixedSequence>)
        ensures
            mixed is Some <==> spec_can_mix(self.sequences.0@.len(), self.sequences.1@.len())
                && draws@.len() >= spec_mix_length(
                self.sequences.0@.len(),
                self.sequences.1@.len(),
            ),
            mixed matches Some(steps) ==> {
                let left = self.sequences.0@;
                let right = self.sequences.1@;
                &&& steps@.len() == spec_mix_length(left.len(), right.len())
                &&& forall|i: int|
                    0 <= i < steps@.len() ==> #[trigger] steps@[i] == spec_mix_step(
                        left[i % (left.len() as int)],
                        right[i % (right.len() as int)],
                        ratio,
                        draws@[i],
                    )
            },
    {
        let len_a: usize = self.sequences.0.notes.len();
        let len_b: usize = self.sequences.1.notes.len();
        let sequence_length: usize = match mix_length(len_a, len_b) {
            Some(length) => length,
            None => {
                return None;
            },
        };
        if draws.len() < sequence_length {
            return None;
        }
        let mut mixed_sequence = MixedSequence::new();
        let mut i: usize = 0;
        while i < sequence_length
            invariant
                len_a == self.sequences.0@.len(),
                len_b == self.sequences.1@.len(),
                len_a > 0,
                len_b > 0,
                i <= sequence_length <= draws@.len(),
                mixed_sequence@.len() == i,
                forall|j: int|
                    0 <= j < i ==> #[trigger] mixed_sequence@[j] == spec_mix_step(
                        self.sequences.0@[j % (len_a as int)],
                        self.sequences.1@[j % (len_b as int)],
                        ratio,
                        draws@[j],
                    ),
            decreases sequence_length - i,
        {
            let note_a = self.sequences.0.notes[i % len_a];
            let note_b = self.sequences.1.notes[i % len_b];
            mixed_sequence.push(mix_step(note_a, note_b, ratio, draws[i]));
            i += 1;
        }
        Some(mixed_sequence)
    }

    /// Mixes the two kept sequences at `ratio`. The mix has the length that
    /// the two lengths call for; step `i` is made of note `i` of each
    /// sequence, counted round its end, with a fresh draw wherever both
    /// sound. Nothing is mixed while a slot is empty.
    pub fn mix(&self, ratio: u8) -> (mixed: Option<MixedSequence>)
        ensures
            mixed is Some <==> spec_can_mix(self.sequences.0@.len(), self.sequences.1@.len()),
            mixed matches Some(steps) ==> {
                let left = self.sequences.0@;
                let right = self.sequences.1@;
                &&& steps@.len() == spec_mix_length(left.len(), right.len())
                &&& forall|i: int|
                    0 <= i < steps@.len() ==> spec_is_mix_of(
                        left[i % (left.len() as int)],
                        right[i % (right.len() as int)],
                        ratio,
                        #[trigger] steps@[i],
                    )
                &&& forall|i: int|
                    0 <= i < steps@.len() && left[i % (left.len() as int)].pitch == 0 && right[i % (
                    right.len() as int)].pitch != 0 ==> #[trigger] steps@[i] == (
                        None::<Note>,
                        Some(right[i % (right.len() as int)]),
                    )
            },
    {
        let len_a: usize = self.sequences.0.notes.len();
        let len_b: usize = self.sequences.1.notes.len();
        let sequence_length: usize = match mix_length(len_a, len_b) {
            Some(length) => length,
            None => {
                return None;
            },
        };
        let mut mixed_sequence = MixedSequence::new();
        let mut i: usize = 0;
        while i < sequence_length
            invariant
                len_a == self.sequences.0@.len(),
                len_b == self.sequences.1@.len(),
                len_a > 0,
                len_b > 0,
                i <= sequence_length,
                mixed_sequence@.len() == i,
                forall|j: int|
                    0 <= j < i ==> spec_is_mix_of(
                        self.sequences.0@[j % (len_a as int)],
                        self.sequences.1@[j % (len_b as int)],
                        ratio,
                        #[trigger] mixed_sequence@[j],
                    ),
            decreases sequence_length - i,
        {
            let note_a = self.sequences.0.notes[i % len_a];
            let note_b = self.sequences.1.notes[i % len_b];
            let draw: u32 = if note_a.pitch != 0 && note_b.pitch != 0 {
                random_draw()
            } else {
                0
            };
            let mixed_note = mix_step(note_a, note_b, ratio, draw);
            mixed_sequence.push(mixed_note);
            i += 1;
        }
        proof {
            assert forall|j: int|
                0 <= j < mixed_sequence@.len() && self.sequences.0@[j % (len_a as int)].pitch == 0
                    && self.sequences.1@[j % (len_b as int)].pitch
                    != 0 implies #[trigger] mixed_sequence@[j] == (
                None::<Note>,
                Some(self.sequences.1@[j % (len_b as int)]),
            ) by {
                let note_a = self.sequences.0@[j % (len_a as int)];
                let note_b = self.sequences.1@[j % (len_b as int)];
                assert(spec_is_mix_of(note_a, note_b, ratio, mixed_sequence@[j]));
            }
        }
        Some(mixed_sequence)
    }
}

} // verus!
