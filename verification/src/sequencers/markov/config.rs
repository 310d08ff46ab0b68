//! What a Markov generator is set to.

use vstd::prelude::*;

verus! {

/// The pitch of the first scale degree and the number of steps to play.
#[derive(Clone, Copy, Debug, PartialEq, Eq, Structural)]
pub struct MarkovSequencerConfig {
    pub root_note: u8,
    pub steps: usize,
}

impl MarkovSequencerConfig {
    /// Middle C and sixteen steps.
    pub fn new() -> (config: Self)
        ensures
            config == (MarkovSequencerConfig { root_note: 60, steps: 16 }),
    {
        MarkovSequencerConfig { root_note: 60, steps: 16 }
    }
}

impl Default for MarkovSequencerConfig {
    fn default() -> (config: Self)
        ensures
            config == (MarkovSequencerConfig { root_note: 60, steps: 16 }),
    {
        Self::new()
    }
}

/// What a control surface can ask of a Markov generator.
#[derive(Debug)]
pub enum MarkovSequencerInput {
    /// Learn this run of scale degrees.
    Feed(Vec<u8>),
    /// Make a new sequence.
    Generate,
}

} // verus!
