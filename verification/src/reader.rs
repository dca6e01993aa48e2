//! The reader side of the pty output pipeline.
//!
//! The reader does blocking reads on the pty and relays what it reads,
//! byte for byte, into the duplex channel that the parser reads from. The
//! two share a dead flag: whoever meets the end of the stream or an I/O
//! error raises it, and both stop. It is never lowered again.
//!
//! [`PtyReader`] decides what the reader's loop does next; the reads and
//! writes themselves, and the shared flag, belong to the loop.

use vstd::prelude::*;
use termwiz::escape::Action;
use crate::decoder::Decoded;
use crate::pipeline::{NextStep, PipelineState};

verus! {

/// The size of the reader's buffer, and of the duplex channel's send and
/// receive buffers, in bytes.
pub const PTY_BUFFER_SIZE: usize = 1048576;

/// What the reader's loop is to do next.
#[derive(Clone, Copy, Debug, PartialEq, Eq, Structural)]
pub enum ReaderStep {
    /// Read from the pty into the buffer.
    Read,
    /// Write the first `len` bytes of the buffer to the channel, all of
    /// them.
    Forward { len: usize },
    /// Raise the dead flag and leave the loop.
    Stop,
}

/// The reader's decision after the loop has looked at the shared flag:
/// stop if it is raised or the reader is dead already, read if not.
pub open spec fn after_flag(dead: bool, flag_raised: bool) -> ReaderStep {
    if dead || flag_raised {
        ReaderStep::Stop
    } else {
        ReaderStep::Read
    }
}

/// The reader's decision after a read that returned `read`: the number of
/// bytes, or `None` for an error. The end of the file (no bytes) and an
/// error end the stream; anything else is relayed whole.
pub open spec fn after_read(dead: bool, read: Option<usize>) -> ReaderStep {
    match read {
        Some(len) => if dead || len == 0 {
            ReaderStep::Stop
        } else {
            ReaderStep::Forward { len }
        },
        None => ReaderStep::Stop,
    }
}

/// The reader's decision after the write to the channel: go on if it
/// succeeded and the flag is still down, stop if not.
pub open spec fn after_forward(dead: bool, written: bool, flag_raised: bool) -> ReaderStep {
    if dead || !written || flag_raised {
        ReaderStep::Stop
    } else {
        ReaderStep::Read
    }
}

/// The reader's own record of the dead flag.
pub struct PtyReader {
    dead: bool,
}

impl PtyReader {
    /// Whether the reader has stopped.
    pub closed spec fn dead(&self) -> bool {
        self.dead
    }

    /// A reader that has not stopped.
    pub fn new() -> (reader: PtyReader)
        ensures
            !reader.dead(),
    {
        PtyReader { dead: false }
    }

    /// Whether the reader has stopped.
    pub fn is_dead(&self) -> (dead: bool)
        ensures
            dead == self.dead(),
    {
        self.dead
    }

    fn settle(&mut self, step: ReaderStep) -> (same: ReaderStep)
        ensures
            same == step,
            final(self).dead() == (old(self).dead() || step == ReaderStep::Stop),
    {
        if step == ReaderStep::Stop {
            self.dead = true;
        }
        step
    }

    /// The head of the loop: `flag_raised` is what the shared flag shows.
    pub fn begin(&mut self, flag_raised: bool) -> (step: ReaderStep)
        ensures
            step == after_flag(old(self).dead(), flag_raised),
            final(self).dead() == (step == ReaderStep::Stop),
    {
        let step = if self.dead || flag_raised {
            ReaderStep::Stop
        } else {
            ReaderStep::Read
        };
        self.settle(step)
    }

    /// A read from the pty has returned `read`: the number of bytes, or
    /// `None` for an error.
    pub fn on_read(&mut self, read: Option<usize>) -> (step: ReaderStep)
        ensures
            step == after_read(old(self).dead(), read),
            final(self).dead() == (step == ReaderStep::Stop),
    {
        let step = match read {
            Some(len) => if self.dead || len == 0 {
                ReaderStep::Stop
            } else {
                ReaderStep::Forward { len }
            },
            None => ReaderStep::Stop,
        };
        self.settle(step)
    }

    /// The write to the channel has ended; `written` says whether all bytes
    /// went through, `flag_raised` what the shared flag shows now.
    pub fn on_forwarded(&mut self, written: bool, flag_raised: bool) -> (step: ReaderStep)
        ensures
            step == after_forward(old(self).dead(), written, flag_raised),
            final(self).dead() == (step == ReaderStep::Stop),
    {
        let step = if self.dead || !written || flag_raised {
            ReaderStep::Stop
        } else {
            ReaderStep::Read
        };
        self.settle(step)
    }
}

/// The dead flag only ever goes up: a reader that is dead answers every
/// event with `Stop`.
pub proof fn law_dead_reader_stays_dead(read: Option<usize>, written: bool, flag_raised: bool)
    ensures
        after_flag(true, flag_raised) == ReaderStep::Stop,
        after_read(true, read) == ReaderStep::Stop,
        after_forward(true, written, flag_raised) == ReaderStep::Stop,
{
}

/// The end of the pty's output stops both sides, and what the parser has
/// buffered is delivered exactly once.
///
/// A read of no bytes makes the reader stop and raise the flag. The
/// parser, whose channel then ends too, sees an empty chunk: it delivers its
/// pending batch, if it has one, and stops. Whatever either side is asked
/// after that, it stops again and delivers nothing.
pub proof fn law_end_of_file_stops_both_sides(
    pipeline: PipelineState,
    items: Seq<Decoded>,
    size: usize,
    now: u64,
)
    requires
        !pipeline.dead,
    ensures
        after_read(false, Some(0usize)) == ReaderStep::Stop,
        after_flag(false, true) == ReaderStep::Stop,
        pipeline.absorb(items, 0, now).next == NextStep::Stop,
        pipeline.absorb(items, 0, now).state.dead,
        pipeline.absorb(items, 0, now).batches == pipeline.flush().batches,
        pipeline.absorb(items, 0, now).state.pending == Seq::<Action>::empty(),
        pipeline.absorb(items, 0, now).state.absorb(items, size, now).batches == Seq::<
            Seq<Action>,
        >::empty(),
        pipeline.absorb(items, 0, now).state.absorb(items, size, now).next == NextStep::Stop,
{
}

} // verus!
