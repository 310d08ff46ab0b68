//! The Markov generator: a chain that has learnt chord progressions walks
//! from degree to degree, and the walk is played.

pub mod config;

use vstd::prelude::*;
use vstd::multiset::Multiset;
use crate::note::{spec_duration_ms, Note, NoteDuration, Sequence, NOTE_VELOCITY};
use crate::sequencers::common::Sequencer;
use crate::sequencers::markov::config::{MarkovSequencerConfig, MarkovSequencerInput};

verus! {

/// One link of a chain: from a token, or from the start of a run, to a
/// token, or to the end of a run.
pub type Transition = (Option<u8>, Option<u8>);

/// A `markov::Chain` over scale degrees.
#[verifier::external_body]
pub struct DegreeChain {
    chain: ::markov::Chain<u8>,
}

/// The links that a chain of order one holds, each as often as it was fed.
pub uninterp spec fn spec_transitions(chain: DegreeChain) -> Multiset<Transition>;

/// The links between the neighbours of a run of tokens.
pub open spec fn spec_inner_transitions(tokens: Seq<u8>) -> Multiset<Transition>
    decreases tokens.len(),
{
    if tokens.len() <= 1 {
        Multiset::empty()
    } else {
        spec_inner_transitions(tokens.drop_last()).insert(
            (Some(tokens[tokens.len() - 2]), Some(tokens[tokens.len() - 1])),
        )
    }
}

/// The links that a run of tokens adds to a chain: from the start to its
/// first token, from each token to the next, and from its last token to the
/// end. An empty run adds none.
pub open spec fn spec_run_transitions(tokens: Seq<u8>) -> Multiset<Transition> {
    if tokens.len() == 0 {
        Multiset::empty()
    } else {
        spec_inner_transitions(tokens).insert((None, Some(tokens[0]))).insert(
            (Some(tokens.last()), None),
        )
    }
}

/// Whether the links hold one that leaves the start, which they do as soon
/// as one run that is not empty was fed.
pub open spec fn spec_can_start(transitions: Multiset<Transition>) -> bool {
    exists|first: u8| transitions.count((None::<u8>, Some(first))) > 0
}

/// Whether `tokens` is a walk along the links: from the start to its first
/// token, from each token to the next, and from its last token to the end.
pub open spec fn spec_is_walk(transitions: Multiset<Transition>, tokens: Seq<u8>) -> bool {
    &&& tokens.len() > 0
    &&& transitions.count((None::<u8>, Some(tokens[0]))) > 0
    &&& forall|i: int|
        0 <= i < tokens.len() - 1 ==> transitions.count(
            (Some(#[trigger] tokens[i]), Some(tokens[i + 1])),
        ) > 0
    &&& transitions.count((Some(tokens.last()), None::<u8>)) > 0
}

/// Calls `Chain::new`, which makes a chain of order one that holds no link.
#[verifier::external_body]
fn chain_new() -> (chain: DegreeChain)
    ensures
        spec_transitions(chain) == Multiset::<Transition>::empty(),
{
    DegreeChain { chain: ::markov::Chain::new() }
}

/// Calls `Chain::feed`, which counts each link of the run once more.
#[verifier::external_body]
fn chain_feed(chain: &mut DegreeChain, tokens: &[u8])
    ensures
        spec_transitions(*final(chain)) == spec_transitions(*old(chain)).add(
            spec_run_transitions(tokens@),
        ),
{
    chain.chain.feed(tokens);
}

/// Calls `Chain::generate`, which walks from the start to the end and takes
/// each link by chance, the more often fed the likelier. A chain that was
/// fed nothing has no first link to take and is left out.
#[verifier::external_body]
fn chain_generate(chain: &DegreeChain) -> (tokens: Vec<u8>)
    requires
        spec_can_start(spec_transitions(*chain)),
    ensures
        spec_is_walk(spec_transitions(*chain), tokens@),
{
    chain.chain.generate()
}

/// The chord progressions that a new chain has learnt, as scale degrees.
pub open spec fn spec_progressions() -> Seq<Seq<u8>> {
    seq![
        seq![6u8, 4, 5, 1],
        seq![6u8, 5, 1, 4],
        seq![6u8, 4, 1, 5],
        seq![6u8, 4, 1, 5],
        seq![1u8, 5, 6, 4],
        seq![5u8, 1],
        seq![6u8, 7, 1, 6],
        seq![1u8, 3, 5, 4],
        seq![3u8, 4, 5, 6, 7, 1],
        seq![6u8, 1, 7, 5],
        seq![5u8, 4, 6, 1, 2, 1, 4],
    ]
}

/// The links of the first `count` of `runs` together.
pub open spec fn spec_runs_transitions(runs: Seq<Seq<u8>>, count: nat) -> Multiset<Transition>
    decreases count,
{
    if count == 0 {
        Multiset::empty()
    } else {
        spec_runs_transitions(runs, (count - 1) as nat).add(
            spec_run_transitions(runs[count - 1]),
        )
    }
}

/// Whether no token that the links lead to is higher than `top`.
pub open spec fn spec_leads_up_to(transitions: Multiset<Transition>, top: u8) -> bool {
    forall|from: Option<u8>, to: u8| #[trigger]
        transitions.count((from, Some(to))) > 0 ==> to <= top
}

/// A link between neighbours of a run leads to a token of the run.
pub proof fn lemma_inner_transitions_lead_into_run(tokens: Seq<u8>, from: Option<u8>, to: u8)
    requires
        spec_inner_transitions(tokens).count((from, Some(to))) > 0,
    ensures
        tokens.contains(to),
    decreases tokens.len(),
{
    if tokens.len() > 1 {
        let front = tokens.drop_last();
        if spec_inner_transitions(front).count((from, Some(to))) > 0 {
            lemma_inner_transitions_lead_into_run(front, from, to);
            let at = choose|at: int| 0 <= at < front.len() && front[at] == to;
            assert(tokens[at] == to);
        } else {
            assert(tokens[tokens.len() - 1] == to);
        }
    }
}

/// A link of a run leads to a token of the run, or to the end.
pub proof fn lemma_run_transitions_lead_into_run(tokens: Seq<u8>, from: Option<u8>, to: u8)
    requires
        spec_run_transitions(tokens).count((from, Some(to))) > 0,
    ensures
        tokens.contains(to),
{
    if tokens.len() > 0 {
        if spec_inner_transitions(tokens).count((from, Some(to))) > 0 {
            lemma_inner_transitions_lead_into_run(tokens, from, to);
        } else {
            assert(tokens[0] == to);
        }
    }
}

/// Links that lead no higher than `top` still do so once a run of tokens no
/// higher than `top` has been added.
pub proof fn lemma_fed_leads_up_to(before: Multiset<Transition>, run: Seq<u8>, top: u8)
    requires
        spec_leads_up_to(before, top),
        forall|i: int| 0 <= i < run.len() ==> #[trigger] run[i] <= top,
    ensures
        spec_leads_up_to(before.add(spec_run_transitions(run)), top),
{
    assert forall|from: Option<u8>, to: u8| #[trigger]
        before.add(spec_run_transitions(run)).count((from, Some(to))) > 0 implies to <= top by {
        if before.count((from, Some(to))) == 0 {
            lemma_run_transitions_lead_into_run(run, from, to);
            let at = choose|at: int| 0 <= at < run.len() && run[at] == to;
            assert(run[at] <= top);
        }
    }
}

/// A walk along links that lead no higher than `top` holds no token higher
/// than `top`.
pub proof fn lemma_walk_stays_up_to(transitions: Multiset<Transition>, tokens: Seq<u8>, top: u8)
    requires
        spec_leads_up_to(transitions, top),
        spec_is_walk(transitions, tokens),
    ensures
        forall|i: int| 0 <= i < tokens.len() ==> #[trigger] tokens[i] <= top,
{
    assert forall|i: int| 0 <= i < tokens.len() implies #[trigger] tokens[i] <= top by {
        if i == 0 {
            assert(transitions.count((None::<u8>, Some(tokens[0]))) > 0);
        } else {
            assert(transitions.count((Some(tokens[i - 1]), Some(tokens[i - 1 + 1]))) > 0);
        }
    }
}

/// Highest scale degree.
pub const MAX_DEGREE: u8 = 7;

/// Highest token that still gives a MIDI pitch: the first degree is middle
/// C, so token `t` plays pitch `59 + t`, and pitches end at 127.
pub const MAX_TOKEN: u8 = 68;

/// Feeds one run to the chain.
fn feed_run(chain: &mut DegreeChain, run: Vec<u8>)
    ensures
        spec_transitions(*final(chain)) == spec_transitions(*old(chain)).add(
            spec_run_transitions(run@),
        ),
{
    chain_feed(chain, run.as_slice());
}

/// A chain that has learnt eleven common chord progressions.
pub fn initiate_chain() -> (chain: DegreeChain)
    ensures
        spec_transitions(chain) == spec_runs_transitions(spec_progressions(), 11),
        spec_can_start(spec_transitions(chain)),
        spec_leads_up_to(spec_transitions(chain), MAX_DEGREE),
{
    let ghost runs = spec_progressions();
    let mut chain = chain_new();
    assert(spec_transitions(chain) == spec_runs_transitions(runs, 0));
    let run = vec![6u8, 4, 5, 1];
    assert(run@ == runs[0]);
    proof {
        lemma_fed_leads_up_to(spec_transitions(chain), run@, MAX_DEGREE);
    }
    feed_run(&mut chain, run);
    assert(spec_transitions(chain).count((None::<u8>, Some(6u8))) > 0);
    assert(spec_transitions(chain) == spec_runs_transitions(runs, 1));
    let run = vec![6u8, 5, 1, 4];
    assert(run@ == runs[1]);
    proof {
        lemma_fed_leads_up_to(spec_transitions(chain), run@, MAX_DEGREE);
    }
    feed_run(&mut chain, run);
    assert(spec_transitions(chain) == spec_runs_transitions(runs, 2));
    let run = vec![6u8, 4, 1, 5];
    assert(run@ == runs[2]);
    proof {
        lemma_fed_leads_up_to(spec_transitions(chain), run@, MAX_DEGREE);
    }
    feed_run(&mut chain, run);
    assert(spec_transitions(chain) == spec_runs_transitions(runs, 3));
    let run = vec![6u8, 4, 1, 5];
    assert(run@ == runs[3]);
    proof {
        lemma_fed_leads_up_to(spec_transitions(chain), run@, MAX_DEGREE);
    }
    feed_run(&mut chain, run);
    assert(spec_transitions(chain) == spec_runs_transitions(runs, 4));
    let run = vec![1u8, 5, 6, 4];
    assert(run@ == runs[4]);
    proof {
        lemma_fed_leads_up_to(spec_transitions(chain), run@, MAX_DEGREE);
    }
    feed_run(&mut chain, run);
    assert(spec_transitions(chain) == spec_runs_transitions(runs, 5));
    let run = vec![5u8, 1];
    assert(run@ == runs[5]);
    proof {
        lemma_fed_leads_up_to(spec_transitions(chain), run@, MAX_DEGREE);
    }
    feed_run(&mut chain, run);
    assert(spec_transitions(chain) == spec_runs_transitions(runs, 6));
    let run = vec![6u8, 7, 1, 6];
    assert(run@ == runs[6]);
    proof {
        lemma_fed_leads_up_to(spec_transitions(chain), run@, MAX_DEGREE);
    }
    feed_run(&mut chain, run);
    assert(spec_transitions(chain) == spec_runs_transitions(runs, 7));
    let run = vec![1u8, 3, 5, 4];
    assert(run@ == runs[7]);
    proof {
        lemma_fed_leads_up_to(spec_transitions(chain), run@, MAX_DEGREE);
    }
    feed_run(&mut chain, run);
    assert(spec_transitions(chain) == spec_runs_transitions(runs, 8));
    let run = vec![3u8, 4, 5, 6, 7, 1];
    assert(run@ == runs[8]);
    proof {
        lemma_fed_leads_up_to(spec_transitions(chain), run@, MAX_DEGREE);
    }
    feed_run(&mut chain, run);
    assert(spec_transitions(chain) == spec_runs_transitions(runs, 9));
    let run = vec![6u8, 1, 7, 5];
    assert(run@ == runs[9]);
    proof {
        lemma_fed_leads_up_to(spec_transitions(chain), run@, MAX_DEGREE);
    }
    feed_run(&mut chain, run);
    assert(spec_transitions(chain) == spec_runs_transitions(runs, 10));
    let run = vec![5u8, 4, 6, 1, 2, 1, 4];
    assert(run@ == runs[10]);
    proof {
        lemma_fed_leads_up_to(spec_transitions(chain), run@, MAX_DEGREE);
    }
    feed_run(&mut chain, run);
    assert(spec_transitions(chain) == spec_runs_transitions(runs, 11));
    assert(spec_transitions(chain).count((None::<u8>, Some(6u8))) > 0);
    chain
}

/// The quarter note that a token plays: the first degree is middle C.
pub open spec fn spec_token_note(token: u8, bpm: u32) -> Note {
    Note {
        pitch: (59 + token) as u8,
        velocity: NOTE_VELOCITY,
        duration: spec_duration_ms(NoteDuration::Quarter, bpm) as u64,
    }
}

/// `length` quarter notes that play `tokens` from its start, and from its
/// start again wherever it has run out.
pub open spec fn spec_sequence_from_tokens(tokens: Seq<u8>, length: nat, bpm: u32) -> Seq<Note> {
    Seq::new(length, |i: int| spec_token_note(tokens[i % (tokens.len() as int)], bpm))
}

/// `length` quarter notes at `bpm` beats per minute that play `tokens`
/// round and round.
pub fn sequence_from_tokens(tokens: &Vec<u8>, length: usize, bpm: u32) -> (sequence: Sequence)
    requires
        tokens@.len() > 0,
        forall|i: int| 0 <= i < tokens@.len() ==> #[trigger] tokens@[i] <= MAX_TOKEN,
        bpm >= 1,
    ensures
        sequence@ == spec_sequence_from_tokens(tokens@, length as nat, bpm),
        forall|i: int| 0 <= i < sequence@.len() ==> (#[trigger] sequence@[i]).wf(),
{
    let num_notes: usize = tokens.len();
    let mut sequence = Sequence::empty();
    let mut i: usize = 0;
    while i < length
        invariant
            i <= length,
            num_notes == tokens@.len(),
            num_notes > 0,
            forall|j: int| 0 <= j < tokens@.len() ==> #[trigger] tokens@[j] <= MAX_TOKEN,
            bpm >= 1,
            sequence@ == spec_sequence_from_tokens(tokens@, i as nat, bpm),
            forall|j: int| 0 <= j < sequence@.len() ==> (#[trigger] sequence@[j]).wf(),
        decreases length - i,
    {
        let token: u8 = tokens[i % num_notes];
        let note = Note::new(59 + token, NOTE_VELOCITY, NoteDuration::Quarter, bpm);
        sequence.notes.push(note);
        i += 1;
        assert(sequence@ =~= spec_sequence_from_tokens(tokens@, i as nat, bpm));
    }
    sequence
}

/// Whether `notes` plays some walk along the links.
pub open spec fn spec_plays_a_walk(
    transitions: Multiset<Transition>,
    notes: Seq<Note>,
    length: nat,
    bpm: u32,
) -> bool {
    exists|tokens: Seq<u8>| #[trigger]
        spec_is_walk(transitions, tokens) && notes == spec_sequence_from_tokens(
            tokens,
            length,
            bpm,
        )
}

/// `length` quarter notes at `bpm` beats per minute that play a fresh walk
/// of the chain round and round.
pub fn generate_sequence(chain: &DegreeChain, length: usize, bpm: u32) -> (sequence: Sequence)
    requires
        spec_can_start(spec_transitions(*chain)),
        spec_leads_up_to(spec_transitions(*chain), MAX_TOKEN),
        bpm >= 1,
    ensures
        spec_plays_a_walk(spec_transitions(*chain), sequence@, length as nat, bpm),
{
    let degrees = chain_generate(chain);
    proof {
        lemma_walk_stays_up_to(spec_transitions(*chain), degrees@, MAX_TOKEN);
    }
    sequence_from_tokens(&degrees, length, bpm)
}

/// Whether no token of the run is higher than `top`.
pub open spec fn spec_run_up_to(run: Seq<u8>, top: u8) -> bool {
    forall|i: int| 0 <= i < run.len() ==> #[trigger] run[i] <= top
}

/// Whether no token of the run is higher than `top`.
pub fn run_up_to(run: &Vec<u8>, top: u8) -> (within: bool)
    ensures
        within == spec_run_up_to(run@, top),
{
    let mut i: usize = 0;
    while i < run.len()
        invariant
            i <= run.len(),
            forall|j: int| 0 <= j < i ==> #[trigger] run@[j] <= top,
        decreases run.len() - i,
    {
        if run[i] > top {
            return false;
        }
        i += 1;
    }
    true
}

/// A generator that plays walks of a chain of scale degrees.
pub struct MarkovSequencer {
    pub chain: DegreeChain,
    pub config: MarkovSequencerConfig,
}

impl MarkovSequencer {
    /// The chain has learnt something, and every token that it can walk to
    /// gives a pitch.
    pub open spec fn wf(&self) -> bool {
        &&& spec_can_start(spec_transitions(self.chain))
        &&& spec_leads_up_to(spec_transitions(self.chain), MAX_TOKEN)
    }

    /// A generator that knows the eleven chord progressions and is set to
    /// middle C and sixteen steps.
    pub fn new() -> (sequencer: Self)
        ensures
            spec_transitions(sequencer.chain) == spec_runs_transitions(spec_progressions(), 11),
            sequencer.config == (MarkovSequencerConfig { root_note: 60, steps: 16 }),
            sequencer.wf(),
    {
        MarkovSequencer { chain: initiate_chain(), config: MarkovSequencerConfig::new() }
    }

    /// Teaches the chain one more run, unless the run holds a token that
    /// gives no pitch. Says whether the run was taken.
    pub fn feed(&mut self, run: Vec<u8>) -> (taken: bool)
        requires
            old(self).wf(),
        ensures
            taken == spec_run_up_to(run@, MAX_TOKEN),
            spec_transitions(final(self).chain) == if taken {
                spec_transitions(old(self).chain).add(spec_run_transitions(run@))
            } else {
                spec_transitions(old(self).chain)
            },
            final(self).config == old(self).config,
            final(self).wf(),
    {
        if !run_up_to(&run, MAX_TOKEN) {
            return false;
        }
        proof {
            lemma_fed_leads_up_to(spec_transitions(self.chain), run@, MAX_TOKEN);
            let first = choose|first: u8|
                spec_transitions(self.chain).count((None::<u8>, Some(first))) > 0;
            assert(spec_transitions(self.chain).add(spec_run_transitions(run@)).count(
                (None::<u8>, Some(first)),
            ) > 0);
        }
        feed_run(&mut self.chain, run);
        true
    }

    /// Does what `input` asks: learns a run, or makes a sequence and gives
    /// it back.
    pub fn handle(&mut self, input: MarkovSequencerInput, bpm: u32) -> (sequence: Option<Sequence>)
        requires
            old(self).wf(),
            bpm >= 1,
        ensures
            final(self).config == old(self).config,
            final(self).wf(),
            match input {
                MarkovSequencerInput::Feed(run) => {
                    &&& sequence is None
                    &&& spec_transitions(final(self).chain) == if spec_run_up_to(
                        run@,
                        MAX_TOKEN,
                    ) {
                        spec_transitions(old(self).chain).add(spec_run_transitions(run@))
                    } else {
                        spec_transitions(old(self).chain)
                    }
                },
                MarkovSequencerInput::Generate => {
                    &&& spec_transitions(final(self).chain) == spec_transitions(old(self).chain)
                    &&& sequence matches Some(notes) && spec_plays_a_walk(
                        spec_transitions(old(self).chain),
                        notes@,
                        old(self).config.steps as nat,
                        bpm,
                    )
                },
            },
    {
        match input {
            MarkovSequencerInput::Feed(run) => {
                self.feed(run);
                None
            },
            MarkovSequencerInput::Generate => Some(self.generate_sequence(bpm)),
        }
    }
}

impl Sequencer for MarkovSequencer {
    open spec fn spec_can_generate(&self) -> bool {
        self.wf()
    }

    open spec fn spec_generates(&self, bpm: u32, notes: Seq<Note>) -> bool {
        spec_plays_a_walk(spec_transitions(self.chain), notes, self.config.steps as nat, bpm)
    }

    /// As many quarter notes as the generator is set to, playing a fresh
    /// walk of the chain round and round.
    fn generate_sequence(&self, bpm: u32) -> (sequence: Sequence) {
        generate_sequence(&self.chain, self.config.steps, bpm)
    }
}

} // verus!
