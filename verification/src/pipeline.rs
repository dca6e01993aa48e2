//! The parser side of the pty output pipeline.
//!
//! Bytes read from the pty are decoded into actions, and the actions are
//! handed to the terminal model in batches. Rapid bursts of output are
//! coalesced into fewer, larger batches; a synchronized-output frame is held
//! back until it is complete, so that it arrives as one batch.
//!
//! [`OutputParser`] makes every decision. Its driver only does what it is
//! told: read the next chunk, wait for the channel to become readable, or
//! stop; and it delivers the batches it is handed, in order.

use vstd::prelude::*;
use termwiz::escape::Action;
use termwiz::escape::parser::Parser;
use crate::decoder::{
    append_action, appended, decode, decoded, new_parser, tagged, Decoded, Signal,
};

verus! {

/// How many bytes the driver reads from the channel at most at a time. Once
/// this much has gone into a batch, the batch is delivered without waiting.
pub const READ_BUFFER_SIZE: usize = 131072;

/// For how long a batch may wait for more output to join it, in
/// microseconds.
pub const COALESCE_DELAY_MICROS: u64 = 3000;

/// What the driver is to do next.
#[derive(Clone, Copy, Debug, PartialEq, Eq, Structural)]
pub enum NextStep {
    /// Read the next chunk and feed it.
    Read,
    /// Wait until the channel is readable, for `micros` at most, and report
    /// how the wait ended.
    Wait { micros: u64 },
    /// The stream has ended: raise the dead flag and stop.
    Stop,
}

/// How a wait for the channel ended.
#[derive(Clone, Copy, Debug, PartialEq, Eq, Structural)]
pub enum Polled {
    /// There is more to read.
    Readable,
    /// The time ran out, or nothing is ready.
    Quiet,
    /// The wait itself failed.
    Failed,
}

/// The state of the pipeline as contracts see it.
pub struct PipelineState {
    /// The batch being built.
    pub pending: Seq<Action>,
    /// Whether a synchronized-output frame is open.
    pub hold: bool,
    /// The bytes fed since the last delivery, saturating.
    pub pending_bytes: usize,
    /// When the wait for more output ends, if one has begun.
    pub deadline: Option<u64>,
    /// Whether the stream has ended.
    pub dead: bool,
}

/// A state together with what reaching it delivered and asks for.
pub struct Reaction {
    pub state: PipelineState,
    /// The batches to deliver, in order.
    pub batches: Seq<Seq<Action>>,
    pub next: NextStep,
}

impl PipelineState {
    /// The state of a pipeline that has seen nothing yet.
    pub open spec fn fresh() -> PipelineState {
        PipelineState {
            pending: Seq::empty(),
            hold: false,
            pending_bytes: 0,
            deadline: None,
            dead: false,
        }
    }

    /// The state after the pending batch has left: nothing pending, and the
    /// byte count and the deadline start afresh.
    pub open spec fn emptied(self) -> PipelineState {
        PipelineState { pending: Seq::empty(), pending_bytes: 0, deadline: None, ..self }
    }

    /// Delivers the pending batch, if there is anything in it.
    pub open spec fn flush(self) -> Reaction {
        if self.pending.len() > 0 {
            Reaction { state: self.emptied(), batches: seq![self.pending], next: NextStep::Read }
        } else {
            Reaction { state: self, batches: Seq::empty(), next: NextStep::Read }
        }
    }

    /// Takes in one decoded action.
    ///
    /// The begin of a frame first delivers what is pending, so that earlier
    /// output is not held back with the frame, and then opens the frame. The
    /// end of a frame, and a soft reset, close the frame and deliver the
    /// batch, themselves included. Anything else just joins the batch. An
    /// action joins the batch as [`appended`] has it: printed characters
    /// that follow each other within a batch are merged into one text.
    pub open spec fn absorb_one(self, item: Decoded) -> Reaction {
        match item.signal {
            Signal::HoldBegin => {
                let before = self.flush();
                Reaction {
                    state: PipelineState {
                        pending: appended(before.state.pending, item.action),
                        hold: true,
                        ..before.state
                    },
                    batches: before.batches,
                    next: NextStep::Read,
                }
            },
            Signal::HoldEnd | Signal::SoftReset => {
                let joined = PipelineState {
                    pending: appended(self.pending, item.action),
                    hold: false,
                    ..self
                };
                joined.flush()
            },
            Signal::Plain => Reaction {
                state: PipelineState { pending: appended(self.pending, item.action), ..self },
                batches: Seq::empty(),
                next: NextStep::Read,
            },
        }
    }

    /// Takes in a run of decoded actions, one after another.
    pub open spec fn absorb_all(self, items: Seq<Decoded>) -> Reaction
        decreases items.len(),
    {
        if items.len() == 0 {
            Reaction { state: self, batches: Seq::empty(), next: NextStep::Read }
        } else {
            let before = self.absorb_all(items.drop_last());
            let after = before.state.absorb_one(items.last());
            Reaction {
                state: after.state,
                batches: before.batches + after.batches,
                next: NextStep::Read,
            }
        }
    }

    /// Counts `size` more bytes towards the pending batch.
    pub open spec fn counted(self, size: usize) -> PipelineState {
        PipelineState {
            pending_bytes: if self.pending_bytes + size > usize::MAX {
                usize::MAX
            } else {
                (self.pending_bytes + size) as usize
            },
            ..self
        }
    }

    /// Decides, at time `now`, what becomes of the pending batch once a
    /// chunk has been taken in.
    ///
    /// Nothing is delivered while a frame is open or the batch is empty. A
    /// batch that has reached [`READ_BUFFER_SIZE`] is delivered at once. A
    /// smaller one waits for more output: for [`COALESCE_DELAY_MICROS`] from
    /// the first wait, for what is left of that time at a later one, and not
    /// at all once the time is up.
    pub open spec fn settle(self, now: u64) -> Reaction {
        if self.pending.len() == 0 || self.hold {
            Reaction { state: self, batches: Seq::empty(), next: NextStep::Read }
        } else if self.pending_bytes >= READ_BUFFER_SIZE {
            self.flush()
        } else {
            match self.deadline {
                None => Reaction {
                    state: PipelineState {
                        deadline: Some(
                            if now + COALESCE_DELAY_MICROS > u64::MAX {
                                u64::MAX
                            } else {
                                (now + COALESCE_DELAY_MICROS) as u64
                            },
                        ),
                        ..self
                    },
                    batches: Seq::empty(),
                    next: NextStep::Wait { micros: COALESCE_DELAY_MICROS },
                },
                Some(deadline) => if now <= deadline {
                    Reaction {
                        state: self,
                        batches: Seq::empty(),
                        next: NextStep::Wait { micros: (deadline - now) as u64 },
                    }
                } else {
                    self.flush()
                },
            }
        }
    }

    /// The end of the stream: whatever is pending is delivered, held or not,
    /// and the pipeline is dead.
    pub open spec fn close(self) -> Reaction {
        if self.dead {
            Reaction { state: self, batches: Seq::empty(), next: NextStep::Stop }
        } else {
            let last = self.flush();
            Reaction {
                state: PipelineState { dead: true, ..last.state },
                batches: last.batches,
                next: NextStep::Stop,
            }
        }
    }

    /// Takes in a chunk of `size` bytes that decoded into `items`, at time
    /// `now`. An empty chunk is the end of the stream. A dead pipeline takes
    /// in nothing.
    pub open spec fn absorb(self, items: Seq<Decoded>, size: usize, now: u64) -> Reaction {
        if self.dead || size == 0 {
            self.close()
        } else {
            let taken = self.absorb_all(items);
            let settled = taken.state.counted(size).settle(now);
            Reaction {
                state: settled.state,
                batches: taken.batches + settled.batches,
                next: settled.next,
            }
        }
    }

    /// The wait is over. If the channel became readable, the batch stays,
    /// to be extended by the next chunk; if not, it is delivered, unless a
    /// frame is open. A wait that failed ends the stream.
    pub open spec fn waited(self, polled: Polled) -> Reaction {
        if self.dead || polled == Polled::Failed {
            self.close()
        } else if polled == Polled::Readable || self.hold {
            Reaction { state: self, batches: Seq::empty(), next: NextStep::Read }
        } else {
            self.flush()
        }
    }
}

/// The views of the batches in `batches`.
pub open spec fn batch_views(batches: Seq<Vec<Action>>) -> Seq<Seq<Action>> {
    batches.map_values(|batch: Vec<Action>| batch@)
}

/// What the driver gets back from the pipeline.
pub struct Outcome {
    /// The batches to deliver to the terminal model, in order.
    pub batches: Vec<Vec<Action>>,
    /// What to do after that.
    pub next: NextStep,
}

impl Outcome {
    /// Whether this is what `reaction` delivers and asks for.
    pub open spec fn matches_reaction(&self, reaction: Reaction) -> bool {
        &&& batch_views(self.batches@) == reaction.batches
        &&& self.next == reaction.next
    }
}

/// The decoder and the batch it is filling.
pub struct OutputParser {
    parser: Parser,
    pending: Vec<Action>,
    hold: bool,
    pending_bytes: usize,
    deadline: Option<u64>,
    dead: bool,
}

impl View for OutputParser {
    type V = PipelineState;

    closed spec fn view(&self) -> PipelineState {
        PipelineState {
            pending: self.pending@,
            hold: self.hold,
            pending_bytes: self.pending_bytes,
            deadline: self.deadline,
            dead: self.dead,
        }
    }
}

impl OutputParser {
    /// The decoder in its present state.
    pub closed spec fn decoder(&self) -> Parser {
        self.parser
    }

    /// A pipeline that has seen nothing yet.
    pub fn new() -> (parser: OutputParser)
        ensures
            parser@ == PipelineState::fresh(),
    {
        let parser = OutputParser {
            parser: new_parser(),
            pending: Vec::new(),
            hold: false,
            pending_bytes: 0,
            deadline: None,
            dead: false,
        };
        assert(parser@.pending =~= Seq::empty());
        parser
    }

    /// Whether the stream has ended.
    pub fn is_dead(&self) -> (dead: bool)
        ensures
            dead == self@.dead,
    {
        self.dead
    }

    /// Whether a synchronized-output frame is open.
    pub fn is_holding(&self) -> (hold: bool)
        ensures
            hold == self@.hold,
    {
        self.hold
    }

    /// How many actions are pending.
    pub fn pending_len(&self) -> (len: usize)
        ensures
            len == self@.pending.len(),
    {
        self.pending.len()
    }

    fn flush_into(&mut self, batches: &mut Vec<Vec<Action>>)
        ensures
            final(self)@ == old(self)@.flush().state,
            final(self).decoder() == old(self).decoder(),
            batch_views(final(batches)@) == batch_views(old(batches)@) + old(self)@.flush().batches,
    {
        if self.pending.len() > 0 {
            let mut batch: Vec<Action> = Vec::new();
            std::mem::swap(&mut self.pending, &mut batch);
            batches.push(batch);
            self.pending_bytes = 0;
            self.deadline = None;
            assert(self@.pending =~= Seq::empty());
            assert(batch_views(batches@) =~= batch_views(old(batches)@) + seq![old(self)@.pending]);
        } else {
            assert(batch_views(batches@) =~= batch_views(old(batches)@) + Seq::empty());
        }
    }

    fn absorb_one(&mut self, item: Decoded, batches: &mut Vec<Vec<Action>>)
        ensures
            final(self)@ == old(self)@.absorb_one(item).state,
            final(self).decoder() == old(self).decoder(),
            batch_views(final(batches)@) == batch_views(old(batches)@) + old(self)@.absorb_one(
                item,
            ).batches,
    {
        match item.signal {
            Signal::HoldBegin => {
                self.flush_into(batches);
                self.hold = true;
                append_action(&mut self.pending, item.action);
            },
            Signal::HoldEnd | Signal::SoftReset => {
                self.hold = false;
                append_action(&mut self.pending, item.action);
                self.flush_into(batches);
            },
            Signal::Plain => {
                append_action(&mut self.pending, item.action);
                assert(batch_views(batches@) =~= batch_views(old(batches)@) + Seq::empty());
            },
        }
    }

    fn settle(&mut self, now: u64, batches: &mut Vec<Vec<Action>>) -> (next: NextStep)
        ensures
            final(self)@ == old(self)@.settle(now).state,
            final(self).decoder() == old(self).decoder(),
            batch_views(final(batches)@) == batch_views(old(batches)@) + old(self)@.settle(
                now,
            ).batches,
            next == old(self)@.settle(now).next,
    {
        if self.pending.len() == 0 || self.hold {
            assert(batch_views(batches@) =~= batch_views(old(batches)@) + Seq::empty());
            return NextStep::Read;
        }
        if self.pending_bytes < READ_BUFFER_SIZE {
            match self.deadline {
                None => {
                    self.deadline = Some(now.saturating_add(COALESCE_DELAY_MICROS));
                    assert(batch_views(batches@) =~= batch_views(old(batches)@) + Seq::empty());
                    return NextStep::Wait { micros: COALESCE_DELAY_MICROS };
                },
                Some(deadline) => {
                    if now <= deadline {
                        assert(batch_views(batches@) =~= batch_views(old(batches)@) + Seq::empty());
                        return NextStep::Wait { micros: deadline - now };
                    }
                },
            }
        }
        self.flush_into(batches);
        NextStep::Read
    }

    /// The end of the stream, by end of file or by a failed read: delivers
    /// what is pending and declares the pipeline dead. Only the first call
    /// delivers anything.
    pub fn close(&mut self) -> (outcome: Outcome)
        ensures
            final(self)@ == old(self)@.close().state,
            final(self).decoder() == old(self).decoder(),
            outcome.matches_reaction(old(self)@.close()),
    {
        let mut batches: Vec<Vec<Action>> = Vec::new();
        assert(batch_views(batches@) =~= Seq::empty());
        if !self.dead {
            self.flush_into(&mut batches);
            self.dead = true;
        }
        assert(batch_views(batches@) =~= old(self)@.close().batches);
        Outcome { batches, next: NextStep::Stop }
    }

    /// Takes in a chunk of `size` bytes that the decoder turned into
    /// `items`, at time `now` on the driver's monotonic clock, in
    /// microseconds. See [`PipelineState::absorb`].
    pub fn absorb(&mut self, items: Vec<Decoded>, size: usize, now: u64) -> (outcome: Outcome)
        ensures
            final(self)@ == old(self)@.absorb(items@, size, now).state,
            final(self).decoder() == old(self).decoder(),
            outcome.matches_reaction(old(self)@.absorb(items@, size, now)),
    {
        if self.dead || size == 0 {
            return self.close();
        }
        let mut batches: Vec<Vec<Action>> = Vec::new();
        assert(batch_views(batches@) =~= Seq::empty());
        let ghost all = items@;
        let ghost start = self@;
        assert(all.take(0) =~= Seq::empty());
        for item in iter: items
            invariant
                iter.seq() == all,
                self@ == start.absorb_all(all.take(iter.index() as int)).state,
                self.decoder() == old(self).decoder(),
                batch_views(batches@) == start.absorb_all(all.take(iter.index() as int)).batches,
        {
            proof {
                let i = iter.index() as int;
                assert(all.take(i + 1).drop_last() =~= all.take(i));
                assert(all.take(i + 1).last() == all[i]);
            }
            self.absorb_one(item, &mut batches);
        }
        assert(all.take(all.len() as int) =~= all);
        self.pending_bytes = self.pending_bytes.saturating_add(size);
        let next = self.settle(now, &mut batches);
        Outcome { batches, next }
    }

    /// Decodes the chunk `bytes`, read at time `now`, and takes in what it
    /// decodes to. An empty chunk is the end of the stream.
    pub fn feed(&mut self, bytes: &[u8], now: u64) -> (outcome: Outcome)
        ensures
            final(self)@ == old(self)@.absorb(
                tagged(decoded(old(self).decoder(), bytes@)),
                bytes@.len() as usize,
                now,
            ).state,
            outcome.matches_reaction(
                old(self)@.absorb(
                    tagged(decoded(old(self).decoder(), bytes@)),
                    bytes@.len() as usize,
                    now,
                ),
            ),
    {
        if self.dead || bytes.len() == 0 {
            return self.close();
        }
        let actions = decode(&mut self.parser, bytes);
        self.absorb(Decoded::of_all(actions), bytes.len(), now)
    }

    /// Reports how a wait ended. See [`PipelineState::waited`].
    pub fn waited(&mut self, polled: Polled) -> (outcome: Outcome)
        ensures
            final(self)@ == old(self)@.waited(polled).state,
            final(self).decoder() == old(self).decoder(),
            outcome.matches_reaction(old(self)@.waited(polled)),
    {
        match polled {
            Polled::Failed => self.close(),
            _ => {
                if self.dead {
                    return self.close();
                }
                let mut batches: Vec<Vec<Action>> = Vec::new();
                assert(batch_views(batches@) =~= Seq::empty());
                if polled == Polled::Quiet && !self.hold {
                    self.flush_into(&mut batches);
                }
                Outcome { batches, next: NextStep::Read }
            },
        }
    }
}

} // verus!
