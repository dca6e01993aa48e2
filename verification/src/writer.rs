//! The decoupled output writer.
//!
//! Whoever produces bytes for the pty must never block on the pty's
//! consumer: a large paste would otherwise stall the producer while the
//! consumer is itself stalled on output that nobody reads. So producers only
//! enqueue messages, and a single consumer takes them out in order and
//! performs the blocking write or flush on the real sink.
//!
//! This module holds the queue and the protocol between the two sides. The
//! thread that runs the consumer side, and the sink it writes to, are the
//! embedding program's business.

use vstd::prelude::*;
use vstd::slice::slice_to_vec;

verus! {

/// One request to the consumer.
pub enum WriterMessage {
    /// Write these bytes to the sink.
    Data(Vec<u8>),
    /// Flush the sink.
    Flush,
}

/// The mathematical content of a [`WriterMessage`].
pub enum MessageView {
    Data(Seq<u8>),
    Flush,
}

impl View for WriterMessage {
    type V = MessageView;

    open spec fn view(&self) -> MessageView {
        match self {
            WriterMessage::Data(bytes) => MessageView::Data(bytes@),
            WriterMessage::Flush => MessageView::Flush,
        }
    }
}

/// Why an enqueue attempt failed.
#[derive(Clone, Copy, Debug, PartialEq, Eq, Structural)]
pub enum WriterError {
    /// The consumer has gone: nothing will ever take a message out again.
    BrokenPipe,
}

impl WriterError {
    /// A short description of the error.
    pub fn message(&self) -> (text: &'static str)
        ensures
            text@ == "broken pipe"@,
    {
        "broken pipe"
    }
}

/// What the consumer is to do after a message.
#[derive(Clone, Copy, Debug, PartialEq, Eq, Structural)]
pub enum ConsumerStep {
    /// Take out the next message, waiting for one if need be.
    Next,
    /// The sink has failed: stop for good.
    Stop,
}

/// The state of a writer as contracts see it.
pub struct WriterState {
    /// Enqueued and not yet taken out, oldest first.
    pub queued: Seq<MessageView>,
    /// Whether a consumer is still there to take messages out.
    pub connected: bool,
}

impl WriterState {
    /// A fresh writer: connected, with nothing queued.
    pub open spec fn fresh() -> WriterState {
        WriterState { queued: Seq::empty(), connected: true }
    }

    /// The state after an attempt to enqueue `message`: it joins the end of
    /// the queue if the consumer is still there, and is dropped if not.
    pub open spec fn enqueue(self, message: MessageView) -> WriterState {
        if self.connected {
            WriterState { queued: self.queued.push(message), connected: true }
        } else {
            self
        }
    }

    /// The state after the consumer has taken the oldest message out.
    pub open spec fn dequeue(self) -> WriterState {
        if self.queued.len() > 0 {
            WriterState { queued: self.queued.drop_first(), connected: self.connected }
        } else {
            self
        }
    }

    /// The state after the consumer has reported how the sink took the last
    /// message. A failure ends the consumer: what is still queued is lost.
    pub open spec fn complete(self, ok: bool) -> WriterState {
        if ok {
            self
        } else {
            WriterState { queued: Seq::empty(), connected: false }
        }
    }

    /// The state after enqueueing each of `messages` in turn.
    pub open spec fn enqueue_all(self, messages: Seq<MessageView>) -> WriterState
        decreases messages.len(),
    {
        if messages.len() == 0 {
            self
        } else {
            self.enqueue_all(messages.drop_last()).enqueue(messages.last())
        }
    }

    /// What the sink sees when the consumer takes out `count` messages one
    /// after another and the sink accepts each.
    pub open spec fn delivered(self, count: nat) -> Seq<MessageView>
        decreases count,
    {
        if count == 0 || self.queued.len() == 0 {
            Seq::empty()
        } else {
            seq![self.queued.first()] + self.dequeue().complete(true).delivered((count - 1) as nat)
        }
    }
}

/// The producer's handle and the queue behind it.
pub struct ThreadedWriter {
    queue: Vec<WriterMessage>,
    connected: bool,
}

impl View for ThreadedWriter {
    type V = WriterState;

    closed spec fn view(&self) -> WriterState {
        WriterState {
            queued: self.queue@.map_values(|m: WriterMessage| m@),
            connected: self.connected,
        }
    }
}

impl ThreadedWriter {
    /// A writer with a consumer attached and nothing queued.
    pub fn new() -> (writer: ThreadedWriter)
        ensures
            writer@ == WriterState::fresh(),
    {
        let writer = ThreadedWriter { queue: Vec::new(), connected: true };
        assert(writer@.queued =~= Seq::empty());
        writer
    }

    fn enqueue(&mut self, message: WriterMessage) -> (sent: bool)
        ensures
            sent == old(self)@.connected,
            final(self)@ == old(self)@.enqueue(message@),
    {
        if self.connected {
            self.queue.push(message);
            assert(self@.queued =~= old(self)@.queued.push(message@));
            true
        } else {
            false
        }
    }

    /// Enqueues a copy of `buf` for the sink and reports all of it as
    /// written. Never waits for the sink. Fails, and enqueues nothing, once
    /// the consumer has gone.
    pub fn write(&mut self, buf: &[u8]) -> (result: Result<usize, WriterError>)
        ensures
            old(self)@.connected ==> result == Ok::<usize, WriterError>(buf@.len() as usize),
            !old(self)@.connected ==> result == Err::<usize, WriterError>(WriterError::BrokenPipe),
            final(self)@ == old(self)@.enqueue(MessageView::Data(buf@)),
    {
        let len = buf.len();
        if self.enqueue(WriterMessage::Data(slice_to_vec(buf))) {
            Ok(len)
        } else {
            Err(WriterError::BrokenPipe)
        }
    }

    /// Enqueues a request to flush the sink. Never waits for the sink.
    /// Fails, and enqueues nothing, once the consumer has gone.
    pub fn flush(&mut self) -> (result: Result<(), WriterError>)
        ensures
            old(self)@.connected ==> result == Ok::<(), WriterError>(()),
            !old(self)@.connected ==> result == Err::<(), WriterError>(WriterError::BrokenPipe),
            final(self)@ == old(self)@.enqueue(MessageView::Flush),
    {
        if self.enqueue(WriterMessage::Flush) {
            Ok(())
        } else {
            Err(WriterError::BrokenPipe)
        }
    }

    /// Whether a consumer is still attached.
    pub fn is_connected(&self) -> (connected: bool)
        ensures
            connected == self@.connected,
    {
        self.connected
    }

    /// Consumer side: takes the oldest message out, if there is one.
    pub fn next_message(&mut self) -> (message: Option<WriterMessage>)
        ensures
            old(self)@.queued.len() == 0 ==> message is None,
            old(self)@.queued.len() > 0 ==> message is Some && message->0@ == old(
                self,
            )@.queued.first(),
            final(self)@ == old(self)@.dequeue(),
    {
        if self.queue.len() == 0 {
            None
        } else {
            let message = self.queue.remove(0);
            assert(self@.queued =~= old(self)@.queued.drop_first());
            Some(message)
        }
    }

    /// Consumer side: reports whether the sink took the last message, all
    /// of it, and learns what to do next. After a failure the consumer is
    /// to stop: it is gone for good, and with it what was queued.
    pub fn complete(&mut self, ok: bool) -> (step: ConsumerStep)
        ensures
            final(self)@ == old(self)@.complete(ok),
            step == if ok {
                ConsumerStep::Next
            } else {
                ConsumerStep::Stop
            },
    {
        if ok {
            ConsumerStep::Next
        } else {
            self.connected = false;
            self.queue.clear();
            assert(self@.queued =~= Seq::empty());
            ConsumerStep::Stop
        }
    }
}

/// Enqueueing onto a connected writer appends, in order.
pub proof fn lemma_enqueue_all(state: WriterState, messages: Seq<MessageView>)
    requires
        state.connected,
    ensures
        state.enqueue_all(messages) == (WriterState {
            queued: state.queued + messages,
            connected: true,
        }),
    decreases messages.len(),
{
    if messages.len() == 0 {
        assert(state.queued + messages =~= state.queued);
    } else {
        lemma_enqueue_all(state, messages.drop_last());
        assert((state.queued + messages.drop_last()).push(messages.last()) =~= state.queued
            + messages);
    }
}

/// Taking out as many messages as are queued hands over the whole queue, in
/// order.
pub proof fn lemma_delivered_all(state: WriterState)
    ensures
        state.delivered(state.queued.len()) == state.queued,
    decreases state.queued.len(),
{
    if state.queued.len() > 0 {
        let rest = state.dequeue().complete(true);
        lemma_delivered_all(rest);
        assert(seq![state.queued.first()] + rest.queued =~= state.queued);
    } else {
        assert(state.queued =~= Seq::empty());
    }
}

/// First in, first out: what is enqueued on a fresh writer reaches a sink
/// that never fails message by message, in the order of enqueueing and with
/// the same bytes.
pub proof fn law_sink_sees_what_was_enqueued(messages: Seq<MessageView>)
    ensures
        WriterState::fresh().enqueue_all(messages).delivered(messages.len()) == messages,
{
    lemma_enqueue_all(WriterState::fresh(), messages);
    let filled = WriterState::fresh().enqueue_all(messages);
    assert(filled.queued =~= messages);
    lemma_delivered_all(filled);
}

/// Something that happens to a writer whose sink never fails.
pub enum WriterEvent {
    /// A producer enqueues this message.
    Enqueue(MessageView),
    /// The consumer takes the oldest message out, if there is one, and the
    /// sink accepts it.
    Deliver,
}

/// A writer's state together with what the sink has seen so far.
pub struct WriterRun {
    pub state: WriterState,
    pub seen: Seq<MessageView>,
}

impl WriterRun {
    /// The run after one more event.
    pub open spec fn step(self, event: WriterEvent) -> WriterRun {
        match event {
            WriterEvent::Enqueue(message) => WriterRun {
                state: self.state.enqueue(message),
                seen: self.seen,
            },
            WriterEvent::Deliver => WriterRun {
                state: self.state.dequeue().complete(true),
                seen: self.seen + self.state.delivered(1),
            },
        }
    }

    /// The run after `events`, in order.
    pub open spec fn run(self, events: Seq<WriterEvent>) -> WriterRun
        decreases events.len(),
    {
        if events.len() == 0 {
            self
        } else {
            self.run(events.drop_last()).step(events.last())
        }
    }
}

/// The messages that `events` enqueue, in order.
pub open spec fn enqueued(events: Seq<WriterEvent>) -> Seq<MessageView>
    decreases events.len(),
{
    if events.len() == 0 {
        Seq::empty()
    } else {
        match events.last() {
            WriterEvent::Enqueue(message) => enqueued(events.drop_last()).push(message),
            WriterEvent::Deliver => enqueued(events.drop_last()),
        }
    }
}

/// However producers and the consumer take turns, a sink that never fails
/// sees the messages in the order of enqueueing, each once and whole: what
/// it has seen, followed by what is still queued, is always what was
/// enqueued.
pub proof fn law_order_survives_interleaving(events: Seq<WriterEvent>)
    ensures
        ({
            let start = WriterRun { state: WriterState::fresh(), seen: Seq::empty() };
            &&& start.run(events).state.connected
            &&& start.run(events).seen + start.run(events).state.queued == enqueued(events)
        }),
    decreases events.len(),
{
    let start = WriterRun { state: WriterState::fresh(), seen: Seq::empty() };
    if events.len() == 0 {
        assert(start.seen + start.state.queued =~= enqueued(events));
    } else {
        law_order_survives_interleaving(events.drop_last());
        let before = start.run(events.drop_last());
        let after = before.step(events.last());
        match events.last() {
            WriterEvent::Enqueue(message) => {
                assert(after.seen + after.state.queued =~= (before.seen + before.state.queued).push(
                    message,
                ));
            },
            WriterEvent::Deliver => {
                if before.state.queued.len() > 0 {
                    let rest = before.state.dequeue().complete(true);
                    assert(rest.delivered(0) =~= Seq::empty());
                    assert(before.state.delivered(1) =~= seq![before.state.queued.first()]);
                    assert(after.seen + after.state.queued =~= before.seen + before.state.queued);
                } else {
                    assert(before.state.delivered(1) =~= Seq::empty());
                    assert(after.seen + after.state.queued =~= before.seen + before.state.queued);
                }
            },
        }
    }
}

/// A failed sink is final: from then on every enqueue attempt finds the
/// consumer gone and changes nothing, however many attempts follow.
pub proof fn law_failure_is_final(state: WriterState, attempts: Seq<MessageView>)
    ensures
        !state.complete(false).connected,
        state.complete(false).enqueue_all(attempts) == state.complete(false),
    decreases attempts.len(),
{
    if attempts.len() > 0 {
        law_failure_is_final(state, attempts.drop_last());
    }
}

} // verus!
