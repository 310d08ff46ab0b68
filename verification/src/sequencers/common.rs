//! What every generator can do, whatever it makes its notes from.

use vstd::prelude::*;
use crate::note::{Note, Sequence};

verus! {

/// A generator of note sequences.
pub trait Sequencer {
    /// Whether the generator is in a state in which it can generate.
    spec fn spec_can_generate(&self) -> bool;

    /// Whether `notes` is a sequence that the generator may give at `bpm`
    /// beats per minute.
    spec fn spec_generates(&self, bpm: u32, notes: Seq<Note>) -> bool;

    /// A sequence at `bpm` beats per minute.
    fn generate_sequence(&self, bpm: u32) -> (sequence: Sequence)
        requires
            self.spec_can_generate(),
            bpm >= 1,
        ensures
            self.spec_generates(bpm, sequence@),
    ;
}

} // verus!
