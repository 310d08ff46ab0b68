//! The playhead: which step is due, and what to do about it.

use vstd::prelude::*;
use crate::note::{spec_default_steps, MixedSequence, Step};

verus! {

/// Milliseconds to wait before looking again while the mix is empty.
pub const EMPTY_WAIT_MS: u64 = 10;

/// Milliseconds to wait before looking again while playback is stopped.
pub const PAUSED_WAIT_MS: u64 = 50;

/// Milliseconds to wait between two steps.
pub const IDLE_WAIT_MS: u64 = 1;

/// What the playhead asks for next.
#[derive(Clone, Copy, Debug, PartialEq, Eq)]
pub enum PlaybackAction {
    /// Wait this many milliseconds, then ask again.
    Wait(u64),
    /// Play these notes on this channel, then move the playhead on.
    Play { notes: Step, channel: u8 },
}

/// The mix that is being played and the step that is due.
#[derive(Debug)]
pub struct PlaybackHandler {
    pub current_note_index: usize,
    pub sequence: MixedSequence,
}

impl PlaybackHandler {
    /// The playhead stands on a step of the mix, or on 0 where the mix is
    /// empty.
    pub open spec fn wf(&self) -> bool {
        if self.sequence@.len() == 0 {
            self.current_note_index == 0
        } else {
            self.current_note_index < self.sequence@.len()
        }
    }

    /// Whether the playhead stands where it may.
    pub fn is_valid(&self) -> (valid: bool)
        ensures
            valid == self.wf(),
    {
        if self.sequence.notes.len() == 0 {
            self.current_note_index == 0
        } else {
            self.current_note_index < self.sequence.notes.len()
        }
    }

    /// The playhead on the first of sixteen silent steps, so that playback
    /// can start before any mix has come.
    pub fn new() -> (handler: Self)
        ensures
            handler.current_note_index == 0,
            handler.sequence@ == spec_default_steps(),
            handler.wf(),
    {
        PlaybackHandler { current_note_index: 0, sequence: MixedSequence::default() }
    }

    /// Where the playhead stands once a mix of `len` steps has taken the
    /// place of the one it stood in.
    pub open spec fn spec_index_in(index: usize, len: nat) -> int {
        if len == 0 {
            0
        } else {
            (index as int) % (len as int)
        }
    }

    /// Takes a new mix in place of the current one. The playhead stays where
    /// it is, counted round the end of the new mix.
    pub fn receive(&mut self, sequence: MixedSequence)
        ensures
            final(self).sequence@ == sequence@,
            final(self).current_note_index == Self::spec_index_in(
                old(self).current_note_index,
                sequence@.len(),
            ),
            final(self).wf(),
    {
        self.current_note_index = if sequence.notes.len() == 0 {
            0
        } else {
            self.current_note_index % sequence.notes.len()
        };
        self.sequence = sequence;
    }

    /// What is due: a short wait while the mix is empty, a longer one while
    /// playback is stopped, and else the step under the playhead.
    pub open spec fn spec_next_action(&self, playing: bool, channel: u8) -> PlaybackAction {
        if self.sequence@.len() == 0 {
            PlaybackAction::Wait(EMPTY_WAIT_MS)
        } else if !playing {
            PlaybackAction::Wait(PAUSED_WAIT_MS)
        } else {
            PlaybackAction::Play {
                notes: self.sequence@[self.current_note_index as int],
                channel,
            }
        }
    }

    /// What is due, given whether playback runs and on which channel.
    pub fn next_action(&self, playing: bool, channel: u8) -> (action: PlaybackAction)
        requires
            self.wf(),
        ensures
            action == self.spec_next_action(playing, channel),
    {
        if self.sequence.notes.len() == 0 {
            PlaybackAction::Wait(EMPTY_WAIT_MS)
        } else if !playing {
            PlaybackAction::Wait(PAUSED_WAIT_MS)
        } else {
            PlaybackAction::Play { notes: self.sequence.notes[self.current_note_index], channel }
        }
    }

    /// Moves the playhead to the next step, and from the last step to the
    /// first. Gives the new place, which the shared state shows.
    pub fn advance(&mut self) -> (index: usize)
        requires
            old(self).wf(),
            old(self).sequence@.len() > 0,
        ensures
            index == (old(self).current_note_index + 1) % (old(self).sequence@.len() as int),
            final(self).current_note_index == index,
            final(self).sequence@ == old(self).sequence@,
            final(self).wf(),
    {
        let steps: usize = self.sequence.notes.len();
        let next: usize = if self.current_note_index + 1 == steps {
            0
        } else {
            self.current_note_index + 1
        };
        proof {
            let len = self.sequence@.len() as int;
            if self.current_note_index + 1 == len {
                assert(len % len == 0) by (nonlinear_arith)
                    requires
                        len > 0,
                ;
            } else {
                vstd::arithmetic::div_mod::lemma_small_mod(
                    (self.current_note_index + 1) as nat,
                    len as nat,
                );
            }
        }
        self.current_note_index = next;
        next
    }
}

} // verus!
