//! What holds of the output pipeline, proved of its model.
//!
//! The laws speak of [`PipelineState`] and its reactions, which are what the
//! contracts of [`OutputParser`](crate::pipeline::OutputParser) are stated
//! in.
//!
//! A batch holds its actions as `Action::append_to` leaves them: printed
//! characters that follow each other are merged into one text. What is
//! inside a merged action is not known here. So the laws on order and
//! completeness hold the pipeline against one that merges nothing
//! ([`PipelineState::raw_run`]): both cut the stream at the same places, and
//! each batch of the one is the merged form of the batch of the other.

use vstd::prelude::*;
use termwiz::escape::Action;
use crate::decoder::{actions_of, appended, joined, Decoded, Signal};
use crate::pipeline::{
    NextStep, PipelineState, Polled, Reaction, COALESCE_DELAY_MICROS, READ_BUFFER_SIZE,
};

verus! {

/// Whether none of `items` carries a signal.
pub open spec fn all_plain(items: Seq<Decoded>) -> bool {
    forall|i: int| 0 <= i < items.len() ==> (#[trigger] items[i]).signal == Signal::Plain
}

/// Something that the driver reports to the pipeline.
pub enum PipelineEvent {
    /// A chunk of `size` bytes was read at time `now` and decoded into
    /// `items`.
    Chunk { items: Seq<Decoded>, size: usize, now: u64 },
    /// A wait is over.
    Waited { polled: Polled },
    /// The read failed.
    Closed,
}

impl PipelineEvent {
    /// Whether the event lets the stream go on: it is no failed read, no
    /// failed wait and no empty chunk.
    pub open spec fn is_live(self) -> bool {
        match self {
            PipelineEvent::Chunk { size, .. } => size > 0,
            PipelineEvent::Waited { polled } => polled != Polled::Failed,
            PipelineEvent::Closed => false,
        }
    }

    /// Whether the event lets the stream go on and brings no signal: it is
    /// the end of a wait, or a chunk whose actions are all plain.
    pub open spec fn is_plain(self) -> bool {
        match self {
            PipelineEvent::Chunk { items, .. } => self.is_live() && all_plain(items),
            _ => self.is_live(),
        }
    }

    /// The actions that the event brings.
    pub open spec fn actions(self) -> Seq<Action> {
        match self {
            PipelineEvent::Chunk { items, .. } => actions_of(items),
            _ => Seq::empty(),
        }
    }
}

/// The actions that `events` bring, in order.
pub open spec fn brought(events: Seq<PipelineEvent>) -> Seq<Action>
    decreases events.len(),
{
    if events.len() == 0 {
        Seq::empty()
    } else {
        brought(events.drop_last()) + events.last().actions()
    }
}

impl PipelineState {
    /// The pipeline's reaction to one event.
    pub open spec fn react(self, event: PipelineEvent) -> Reaction {
        match event {
            PipelineEvent::Chunk { items, size, now } => self.absorb(items, size, now),
            PipelineEvent::Waited { polled } => self.waited(polled),
            PipelineEvent::Closed => self.close(),
        }
    }

    /// The pipeline's reaction to a run of events: the state it ends in,
    /// all batches delivered on the way, and what the last event asks for.
    pub open spec fn run(self, events: Seq<PipelineEvent>) -> Reaction
        decreases events.len(),
    {
        if events.len() == 0 {
            Reaction { state: self, batches: Seq::empty(), next: NextStep::Read }
        } else {
            let before = self.run(events.drop_last());
            let after = before.state.react(events.last());
            Reaction {
                state: after.state,
                batches: before.batches + after.batches,
                next: after.next,
            }
        }
    }
}

/// Appending nothing changes nothing, and a list that something was
/// appended to is not empty.
pub proof fn lemma_joined_not_empty(list: Seq<Action>, actions: Seq<Action>)
    ensures
        actions.len() == 0 ==> joined(list, actions) == list,
        list.len() > 0 || actions.len() > 0 ==> joined(list, actions).len() > 0,
    decreases actions.len(),
{
    if actions.len() > 0 {
        lemma_joined_not_empty(list, actions.drop_last());
    }
}

/// Appending one action after the others is appending to what the others
/// made.
pub proof fn lemma_joined_push(list: Seq<Action>, actions: Seq<Action>, action: Action)
    ensures
        joined(list, actions.push(action)) == appended(joined(list, actions), action),
{
    assert(actions.push(action).drop_last() =~= actions);
    assert(actions.push(action).last() == action);
}

/// Appending two runs of actions one after the other is appending their
/// concatenation.
pub proof fn lemma_joined_concat(list: Seq<Action>, first: Seq<Action>, second: Seq<Action>)
    ensures
        joined(list, first + second) == joined(joined(list, first), second),
    decreases second.len(),
{
    if second.len() == 0 {
        assert(first + second =~= first);
    } else {
        lemma_joined_concat(list, first, second.drop_last());
        assert((first + second).drop_last() =~= first + second.drop_last());
        assert((first + second).last() == second.last());
    }
}

/// Actions without a signal only join the pending batch: nothing is
/// delivered, and nothing else changes.
pub proof fn lemma_plain_actions_join(state: PipelineState, items: Seq<Decoded>)
    requires
        all_plain(items),
    ensures
        state.absorb_all(items).batches == Seq::<Seq<Action>>::empty(),
        state.absorb_all(items).state == (PipelineState {
            pending: joined(state.pending, actions_of(items)),
            ..state
        }),
    decreases items.len(),
{
    if items.len() > 0 {
        lemma_plain_actions_join(state, items.drop_last());
        assert(items[items.len() - 1].signal == Signal::Plain);
        assert(actions_of(items).drop_last() =~= actions_of(items.drop_last()));
        assert(actions_of(items).last() == items.last().action);
        assert(Seq::<Seq<Action>>::empty() + Seq::<Seq<Action>>::empty() =~= Seq::<
            Seq<Action>,
        >::empty());
    }
}

/// Taking in two runs of actions one after the other is taking in their
/// concatenation.
pub proof fn lemma_absorb_all_concat(
    state: PipelineState,
    first: Seq<Decoded>,
    second: Seq<Decoded>,
)
    ensures
        state.absorb_all(first + second).state == state.absorb_all(first).state.absorb_all(
            second,
        ).state,
        state.absorb_all(first + second).batches == state.absorb_all(first).batches
            + state.absorb_all(first).state.absorb_all(second).batches,
    decreases second.len(),
{
    let left = state.absorb_all(first);
    if second.len() == 0 {
        assert(first + second =~= first);
        assert(left.batches + Seq::<Seq<Action>>::empty() =~= left.batches);
    } else {
        lemma_absorb_all_concat(state, first, second.drop_last());
        assert((first + second).drop_last() =~= first + second.drop_last());
        assert((first + second).last() == second.last());
        let middle = left.state.absorb_all(second.drop_last());
        let last = middle.state.absorb_one(second.last());
        assert((left.batches + middle.batches) + last.batches =~= left.batches + (middle.batches
            + last.batches));
    }
}

/// Taking in actions neither ends the stream nor revives it.
pub proof fn lemma_absorb_all_keeps_dead(state: PipelineState, items: Seq<Decoded>)
    ensures
        state.absorb_all(items).state.dead == state.dead,
    decreases items.len(),
{
    if items.len() > 0 {
        lemma_absorb_all_keeps_dead(state, items.drop_last());
    }
}

/// Delivering the pending batch keeps its actions: the batch delivered and
/// the batch left, laid end to end, are what was pending.
pub proof fn lemma_flush_keeps_actions(state: PipelineState)
    ensures
        state.flush().batches.flatten() + state.flush().state.pending == state.pending,
{
    if state.pending.len() > 0 {
        seq![state.pending].lemma_flatten_one_element();
        assert(state.pending + Seq::<Action>::empty() =~= state.pending);
    } else {
        assert(Seq::<Seq<Action>>::empty().flatten() + state.pending =~= state.pending);
    }
}

/// A synchronized-output frame is delivered whole, and only when it ends.
///
/// Take any live pipeline, the begin of a frame, and then `held`: any
/// number of further actions, none of them a signal. Taking these in
/// delivers what was pending before the frame, as a batch of its own, and
/// nothing of the frame: the pipeline holds the begin and all of `held`,
/// appended in order. While it holds, a chunk of further such actions
/// (`more`) delivers nothing, whatever its size and the time, and neither
/// does a wait that runs out. The frame leaves as exactly one batch, with
/// everything in it, when its end arrives, when a soft reset arrives (`end`
/// is either), or when the stream ends.
pub proof fn law_frame_is_delivered_whole(
    state: PipelineState,
    begin: Decoded,
    held: Seq<Decoded>,
    more: Seq<Decoded>,
    size: usize,
    now: u64,
    end: Decoded,
)
    requires
        !state.dead,
        begin.signal == Signal::HoldBegin,
        all_plain(held),
        all_plain(more),
        size > 0,
        end.signal == Signal::HoldEnd || end.signal == Signal::SoftReset,
    ensures
        ({
            let opened = state.absorb_all(seq![begin] + held);
            let frame = joined(seq![begin.action], actions_of(held));
            &&& opened.batches == state.flush().batches
            &&& opened.state.hold
            &&& !opened.state.dead
            &&& opened.state.pending == frame
            &&& frame.len() > 0
            &&& opened.state.absorb(more, size, now).batches == Seq::<Seq<Action>>::empty()
            &&& opened.state.absorb(more, size, now).next == NextStep::Read
            &&& opened.state.absorb(more, size, now).state.hold
            &&& opened.state.absorb(more, size, now).state.pending == joined(
                frame,
                actions_of(more),
            )
            &&& opened.state.waited(Polled::Quiet).batches == Seq::<Seq<Action>>::empty()
            &&& opened.state.waited(Polled::Quiet).state == opened.state
            &&& opened.state.absorb_one(end).batches == seq![appended(frame, end.action)]
            &&& opened.state.absorb_one(end).state.pending == Seq::<Action>::empty()
            &&& !opened.state.absorb_one(end).state.hold
            &&& opened.state.close().batches == seq![frame]
            &&& opened.state.close().state.pending == Seq::<Action>::empty()
        }),
{
    let frame = joined(seq![begin.action], actions_of(held));
    let first = state.absorb_all(seq![begin]);
    assert(seq![begin].drop_last() =~= Seq::<Decoded>::empty());
    assert(seq![begin].last() == begin);
    assert(state.absorb_all(Seq::<Decoded>::empty()).state == state);
    assert(state.absorb_all(Seq::<Decoded>::empty()).batches =~= Seq::<Seq<Action>>::empty());
    assert(first.state == state.absorb_one(begin).state);
    assert(first.batches =~= state.flush().batches);
    assert(state.flush().state.pending.len() == 0);
    assert(first.state.pending =~= seq![begin.action]);
    lemma_absorb_all_concat(state, seq![begin], held);
    lemma_plain_actions_join(first.state, held);
    let opened = state.absorb_all(seq![begin] + held);
    assert(opened.batches =~= state.flush().batches);
    assert(opened.state.pending == frame);
    lemma_joined_not_empty(seq![begin.action], actions_of(held));
    lemma_plain_actions_join(opened.state, more);
    let taken = opened.state.absorb_all(more);
    assert(taken.state.counted(size).settle(now).batches =~= Seq::<Seq<Action>>::empty());
    assert(taken.batches + taken.state.counted(size).settle(now).batches =~= Seq::<
        Seq<Action>,
    >::empty());
    assert(appended(frame, end.action).len() > 0);
}

/// While a frame is open, nothing is delivered, however many chunks and
/// waits go by, as long as no signal arrives and the stream does not end:
/// all that the chunks bring joins the frame.
pub proof fn law_open_frame_delivers_nothing(state: PipelineState, events: Seq<PipelineEvent>)
    requires
        !state.dead,
        state.hold,
        forall|i: int| 0 <= i < events.len() ==> (#[trigger] events[i]).is_plain(),
    ensures
        state.run(events).batches == Seq::<Seq<Action>>::empty(),
        state.run(events).state.hold,
        !state.run(events).state.dead,
        state.run(events).state.pending == joined(state.pending, brought(events)),
    decreases events.len(),
{
    if events.len() > 0 {
        let earlier = events.drop_last();
        assert forall|i: int| 0 <= i < earlier.len() implies (#[trigger] earlier[i]).is_plain() by {
            assert(earlier[i] == events[i]);
        }
        law_open_frame_delivers_nothing(state, earlier);
        let before = state.run(earlier);
        let event = events.last();
        assert(event == events[events.len() - 1]);
        assert(event.is_plain());
        let after = before.state.react(event);
        match event {
            PipelineEvent::Chunk { items, size, now } => {
                lemma_plain_actions_join(before.state, items);
                lemma_absorb_all_keeps_dead(before.state, items);
                let taken = before.state.absorb_all(items);
                assert(taken.batches + taken.state.counted(size).settle(now).batches =~= Seq::<
                    Seq<Action>,
                >::empty());
            },
            PipelineEvent::Waited { polled } => {
                lemma_joined_not_empty(before.state.pending, event.actions());
            },
            PipelineEvent::Closed => {},
        }
        assert(before.batches + after.batches =~= Seq::<Seq<Action>>::empty());
        lemma_joined_concat(state.pending, brought(earlier), event.actions());
    }
}

/// A small burst of output is delivered after the coalescing delay: not at
/// once, and not later.
///
/// Take a live pipeline with nothing pending and no frame open, and a chunk
/// that decodes to at least one action, none of them a signal, and that is
/// smaller than [`READ_BUFFER_SIZE`]. Taking it in delivers nothing yet: the
/// driver is told to wait for [`COALESCE_DELAY_MICROS`]. If nothing becomes
/// readable in that time, the wait's end delivers the batch, which is not
/// empty. If output keeps arriving, the batch grows, but only until the
/// delay that began with its first chunk is over: a chunk taken in after
/// that (`late`, at `later`) is delivered with the batch at once.
pub proof fn law_small_batch_waits_out_the_delay(
    state: PipelineState,
    items: Seq<Decoded>,
    size: usize,
    now: u64,
    late: Seq<Decoded>,
    late_size: usize,
    later: u64,
)
    requires
        state == PipelineState::fresh(),
        items.len() > 0,
        all_plain(items),
        0 < size < READ_BUFFER_SIZE,
        all_plain(late),
        late_size > 0,
        later > now + COALESCE_DELAY_MICROS,
    ensures
        ({
            let first = state.absorb(items, size, now);
            let batch = joined(Seq::empty(), actions_of(items));
            &&& batch.len() > 0
            &&& first.batches == Seq::<Seq<Action>>::empty()
            &&& first.next == NextStep::Wait { micros: COALESCE_DELAY_MICROS }
            &&& first.state.pending == batch
            &&& first.state.waited(Polled::Quiet).batches == seq![batch]
            &&& first.state.waited(Polled::Quiet).state == PipelineState::fresh()
            &&& first.state.waited(Polled::Readable).batches == Seq::<Seq<Action>>::empty()
            &&& first.state.waited(Polled::Readable).state == first.state
            &&& first.state.absorb(late, late_size, later).batches == seq![
                joined(batch, actions_of(late)),
            ]
            &&& first.state.absorb(late, late_size, later).next == NextStep::Read
            &&& first.state.absorb(late, late_size, later).state == PipelineState::fresh()
        }),
{
    let batch = joined(Seq::empty(), actions_of(items));
    lemma_plain_actions_join(state, items);
    lemma_joined_not_empty(Seq::empty(), actions_of(items));
    let taken = state.absorb_all(items);
    assert(taken.state.pending == batch);
    let counted = taken.state.counted(size);
    let settled = counted.settle(now);
    assert(taken.batches + settled.batches =~= Seq::<Seq<Action>>::empty());
    let first = state.absorb(items, size, now);
    assert(first.state.pending == batch);
    lemma_plain_actions_join(first.state, late);
    lemma_joined_not_empty(batch, actions_of(late));
    let again = first.state.absorb_all(late);
    assert(again.state.pending == joined(batch, actions_of(late)));
    let resettled = again.state.counted(late_size).settle(later);
    assert(again.batches + resettled.batches =~= seq![joined(batch, actions_of(late))]);
}

/// Waiting is bounded by the deadline. A first wait sets the deadline one
/// coalescing delay ahead; every later wait for the same batch ends at that
/// same deadline; and no wait is asked for once the deadline has passed.
pub proof fn law_waits_end_at_the_deadline(state: PipelineState, now: u64, micros: u64)
    requires
        state.settle(now).next == (NextStep::Wait { micros }),
    ensures
        state.deadline is None ==> micros == COALESCE_DELAY_MICROS && state.settle(
            now,
        ).state.deadline == Some(
            if now + COALESCE_DELAY_MICROS > u64::MAX {
                u64::MAX
            } else {
                (now + COALESCE_DELAY_MICROS) as u64
            },
        ),
        state.deadline matches Some(deadline) ==> now + micros == deadline && state.settle(
            now,
        ).state.deadline == Some(deadline),
        state.settle(now).batches == Seq::<Seq<Action>>::empty(),
        state.settle(now).state.pending == state.pending,
{
}

/// A batch that has grown to [`READ_BUFFER_SIZE`] is delivered without
/// waiting, whatever the time and the deadline.
pub proof fn law_full_batch_is_not_delayed(state: PipelineState, now: u64)
    requires
        !state.hold,
        state.pending.len() > 0,
        state.pending_bytes >= READ_BUFFER_SIZE,
    ensures
        state.settle(now).batches == seq![state.pending],
        state.settle(now).next == NextStep::Read,
        state.settle(now).state == state.emptied(),
{
}

/// The end of the stream delivers what is buffered exactly once: the first
/// `close` hands over the pending batch and kills the pipeline, and so do an
/// empty chunk and a failed wait. After that nothing is delivered any more,
/// whatever is fed, waited for or closed, and the pipeline stays dead.
pub proof fn law_end_of_stream_flushes_once(
    state: PipelineState,
    items: Seq<Decoded>,
    size: usize,
    now: u64,
    polled: Polled,
)
    requires
        !state.dead,
    ensures
        state.close().batches == state.flush().batches,
        state.close().next == NextStep::Stop,
        state.close().state.dead,
        state.absorb(items, 0, now) == state.close(),
        state.waited(Polled::Failed) == state.close(),
        ({
            let ended = state.close().state;
            &&& ended.close().batches == Seq::<Seq<Action>>::empty()
            &&& ended.close().state == ended
            &&& ended.absorb(items, size, now).batches == Seq::<Seq<Action>>::empty()
            &&& ended.absorb(items, size, now).state == ended
            &&& ended.absorb(items, size, now).next == NextStep::Stop
            &&& ended.waited(polled).batches == Seq::<Seq<Action>>::empty()
            &&& ended.waited(polled).state == ended
            &&& ended.waited(polled).next == NextStep::Stop
        }),
{
}

impl PipelineState {
    /// What [`absorb_one`](PipelineState::absorb_one) would be if nothing
    /// were merged: the action is pushed as it is.
    pub open spec fn raw_absorb_one(self, item: Decoded) -> Reaction {
        match item.signal {
            Signal::HoldBegin => {
                let before = self.flush();
                Reaction {
                    state: PipelineState {
                        pending: before.state.pending.push(item.action),
                        hold: true,
                        ..before.state
                    },
                    batches: before.batches,
                    next: NextStep::Read,
                }
            },
            Signal::HoldEnd | Signal::SoftReset => {
                let joined = PipelineState {
                    pending: self.pending.push(item.action),
                    hold: false,
                    ..self
                };
                joined.flush()
            },
            Signal::Plain => Reaction {
                state: PipelineState { pending: self.pending.push(item.action), ..self },
                batches: Seq::empty(),
                next: NextStep::Read,
            },
        }
    }

    /// What [`absorb_all`](PipelineState::absorb_all) would be if nothing
    /// were merged.
    pub open spec fn raw_absorb_all(self, items: Seq<Decoded>) -> Reaction
        decreases items.len(),
    {
        if items.len() == 0 {
            Reaction { state: self, batches: Seq::empty(), next: NextStep::Read }
        } else {
            let before = self.raw_absorb_all(items.drop_last());
            let after = before.state.raw_absorb_one(items.last());
            Reaction {
                state: after.state,
                batches: before.batches + after.batches,
                next: NextStep::Read,
            }
        }
    }

    /// What [`absorb`](PipelineState::absorb) would be if nothing were
    /// merged.
    pub open spec fn raw_absorb(self, items: Seq<Decoded>, size: usize, now: u64) -> Reaction {
        if self.dead || size == 0 {
            self.close()
        } else {
            let taken = self.raw_absorb_all(items);
            let settled = taken.state.counted(size).settle(now);
            Reaction {
                state: settled.state,
                batches: taken.batches + settled.batches,
                next: settled.next,
            }
        }
    }

    /// What [`react`](PipelineState::react) would be if nothing were merged.
    pub open spec fn raw_react(self, event: PipelineEvent) -> Reaction {
        match event {
            PipelineEvent::Chunk { items, size, now } => self.raw_absorb(items, size, now),
            PipelineEvent::Waited { polled } => self.waited(polled),
            PipelineEvent::Closed => self.close(),
        }
    }

    /// What [`run`](PipelineState::run) would be if nothing were merged:
    /// the batches hold the actions one by one, as they were decoded.
    pub open spec fn raw_run(self, events: Seq<PipelineEvent>) -> Reaction
        decreases events.len(),
    {
        if events.len() == 0 {
            Reaction { state: self, batches: Seq::empty(), next: NextStep::Read }
        } else {
            let before = self.raw_run(events.drop_last());
            let after = before.state.raw_react(events.last());
            Reaction {
                state: after.state,
                batches: before.batches + after.batches,
                next: after.next,
            }
        }
    }

    /// This state with its pending actions appended one to the other, as
    /// the pipeline holds them.
    pub open spec fn merged_form(self) -> PipelineState {
        PipelineState { pending: joined(Seq::empty(), self.pending), ..self }
    }
}

/// Each of `batches` with its actions appended one to the other.
pub open spec fn merged_batches(batches: Seq<Seq<Action>>) -> Seq<Seq<Action>> {
    batches.map_values(|batch: Seq<Action>| joined(Seq::empty(), batch))
}

/// Whether none of `batches` is empty.
pub open spec fn none_empty(batches: Seq<Seq<Action>>) -> bool {
    forall|i: int| 0 <= i < batches.len() ==> (#[trigger] batches[i]).len() > 0
}

/// Without merging too, taking in actions neither ends the stream nor
/// revives it.
pub proof fn lemma_raw_absorb_all_keeps_dead(state: PipelineState, items: Seq<Decoded>)
    ensures
        state.raw_absorb_all(items).state.dead == state.dead,
    decreases items.len(),
{
    if items.len() > 0 {
        lemma_raw_absorb_all_keeps_dead(state, items.drop_last());
    }
}

/// Without merging, batching only groups: whatever a chunk's actions are,
/// the batches it delivers and the batch left pending, laid end to end, are
/// what was pending before followed by the chunk's actions, each once and
/// in order.
pub proof fn lemma_raw_actions_keep_their_order(state: PipelineState, items: Seq<Decoded>)
    ensures
        state.raw_absorb_all(items).batches.flatten() + state.raw_absorb_all(items).state.pending
            == state.pending + actions_of(items),
    decreases items.len(),
{
    if items.len() == 0 {
        assert(Seq::<Seq<Action>>::empty().flatten() =~= Seq::<Action>::empty());
        assert(Seq::<Action>::empty() + state.pending =~= state.pending + actions_of(items));
    } else {
        lemma_raw_actions_keep_their_order(state, items.drop_last());
        let before = state.raw_absorb_all(items.drop_last());
        let after = before.state.raw_absorb_one(items.last());
        assert(after.batches.flatten() + after.state.pending =~= before.state.pending.push(
            items.last().action,
        )) by {
            if after.batches.len() == 0 {
                assert(after.batches.flatten() =~= Seq::<Action>::empty());
            } else {
                assert(after.batches.len() == 1);
                after.batches.lemma_flatten_one_element();
            }
        }
        vstd::seq_lib::lemma_flatten_concat(before.batches, after.batches);
        assert((before.batches + after.batches).flatten() + after.state.pending =~= (
        before.batches.flatten() + before.state.pending) + seq![items.last().action]);
        assert(state.pending + actions_of(items.drop_last()) + seq![items.last().action]
            =~= state.pending + actions_of(items));
    }
}

/// Without merging, no step loses or repeats an action: after any of them,
/// the batches it delivers and the batch left pending, laid end to end, are
/// what was pending before, followed, for a chunk, by the chunk's actions.
pub proof fn lemma_raw_step_keeps_actions(
    state: PipelineState,
    items: Seq<Decoded>,
    size: usize,
    now: u64,
    polled: Polled,
)
    requires
        !state.dead,
        size > 0,
    ensures
        state.raw_absorb(items, size, now).batches.flatten() + state.raw_absorb(
            items,
            size,
            now,
        ).state.pending == state.pending + actions_of(items),
        state.waited(polled).batches.flatten() + state.waited(polled).state.pending
            == state.pending,
        state.close().batches.flatten() + state.close().state.pending == state.pending,
{
    lemma_flush_keeps_actions(state);
    assert(Seq::<Seq<Action>>::empty().flatten() + state.pending =~= state.pending);
    lemma_raw_actions_keep_their_order(state, items);
    let taken = state.raw_absorb_all(items);
    let counted = taken.state.counted(size);
    let settled = counted.settle(now);
    lemma_flush_keeps_actions(counted);
    assert(Seq::<Seq<Action>>::empty().flatten() + counted.pending =~= counted.pending);
    assert(settled.batches.flatten() + settled.state.pending == taken.state.pending);
    vstd::seq_lib::lemma_flatten_concat(taken.batches, settled.batches);
    assert((taken.batches + settled.batches).flatten() + settled.state.pending
        =~= taken.batches.flatten() + (settled.batches.flatten() + settled.state.pending));
}

/// Without merging, as long as the stream goes on, no action is lost,
/// repeated or moved: after any run of events that lets it go on, the
/// batches delivered and the batch still pending, laid end to end, are what
/// was pending at the start followed by every action that the chunks
/// brought, in order.
pub proof fn lemma_raw_run_keeps_every_action(state: PipelineState, events: Seq<PipelineEvent>)
    requires
        !state.dead,
        forall|i: int| 0 <= i < events.len() ==> (#[trigger] events[i]).is_live(),
    ensures
        !state.raw_run(events).state.dead,
        state.raw_run(events).batches.flatten() + state.raw_run(events).state.pending
            == state.pending + brought(events),
    decreases events.len(),
{
    if events.len() == 0 {
        assert(Seq::<Seq<Action>>::empty().flatten() + state.pending =~= state.pending + brought(
            events,
        ));
    } else {
        let earlier = events.drop_last();
        assert forall|i: int| 0 <= i < earlier.len() implies (#[trigger] earlier[i]).is_live() by {
            assert(earlier[i] == events[i]);
        }
        lemma_raw_run_keeps_every_action(state, earlier);
        let before = state.raw_run(earlier);
        let event = events.last();
        assert(event == events[events.len() - 1]);
        assert(event.is_live());
        let after = before.state.raw_react(event);
        match event {
            PipelineEvent::Chunk { items, size, now } => {
                lemma_raw_step_keeps_actions(before.state, items, size, now, Polled::Quiet);
                lemma_raw_absorb_all_keeps_dead(before.state, items);
            },
            PipelineEvent::Waited { polled } => {
                lemma_raw_step_keeps_actions(before.state, Seq::empty(), 1, 0, polled);
                assert(before.state.pending + event.actions() =~= before.state.pending);
            },
            PipelineEvent::Closed => {},
        }
        assert(!after.state.dead);
        assert(after.batches.flatten() + after.state.pending == before.state.pending
            + event.actions());
        vstd::seq_lib::lemma_flatten_concat(before.batches, after.batches);
        assert((before.batches.flatten() + after.batches.flatten()) + after.state.pending
            =~= before.batches.flatten() + (after.batches.flatten() + after.state.pending));
        assert(before.batches.flatten() + (before.state.pending + event.actions()) =~= (
        before.batches.flatten() + before.state.pending) + event.actions());
        assert((state.pending + brought(earlier)) + event.actions() =~= state.pending + brought(
            events,
        ));
    }
}


/// Whether the reaction `merged` is the reaction `raw` but for merging:
/// the same cuts, the same state and the same next step, with the actions
/// of each batch, and of the pending one, appended one to the other. No
/// batch is empty.
pub open spec fn mirrors(merged: Reaction, raw: Reaction) -> bool {
    &&& merged.state == raw.state.merged_form()
    &&& merged.batches == merged_batches(raw.batches)
    &&& merged.next == raw.next
    &&& none_empty(raw.batches)
    &&& none_empty(merged.batches)
}

/// Merging batch by batch goes through concatenation.
pub proof fn lemma_merged_batches_concat(first: Seq<Seq<Action>>, second: Seq<Seq<Action>>)
    ensures
        merged_batches(first + second) == merged_batches(first) + merged_batches(second),
        none_empty(first) && none_empty(second) ==> none_empty(first + second),
{
    assert(merged_batches(first + second) =~= merged_batches(first) + merged_batches(second));
    if none_empty(first) && none_empty(second) {
        assert forall|i: int| 0 <= i < (first + second).len() implies (#[trigger] (first
            + second)[i]).len() > 0 by {
            if i < first.len() {
                assert((first + second)[i] == first[i]);
            } else {
                assert((first + second)[i] == second[i - first.len()]);
            }
        }
    }
}

/// Delivering the pending batch cuts at the same place with and without
/// merging.
pub proof fn lemma_flush_mirrors(raw: PipelineState)
    ensures
        mirrors(raw.merged_form().flush(), raw.flush()),
{
    lemma_joined_not_empty(Seq::empty(), raw.pending);
    lemma_joined_not_empty(Seq::empty(), Seq::empty());
    if raw.pending.len() > 0 {
        assert(merged_batches(seq![raw.pending]) =~= seq![joined(Seq::empty(), raw.pending)]);
    } else {
        assert(merged_batches(Seq::empty()) =~= Seq::<Seq<Action>>::empty());
    }
}

/// Taking in one action cuts at the same place with and without merging.
pub proof fn lemma_absorb_one_mirrors(raw: PipelineState, item: Decoded)
    ensures
        mirrors(raw.merged_form().absorb_one(item), raw.raw_absorb_one(item)),
{
    match item.signal {
        Signal::HoldBegin => {
            lemma_flush_mirrors(raw);
            lemma_joined_push(Seq::empty(), raw.flush().state.pending, item.action);
        },
        Signal::HoldEnd | Signal::SoftReset => {
            lemma_joined_push(Seq::empty(), raw.pending, item.action);
            let closed = PipelineState {
                pending: raw.pending.push(item.action),
                hold: false,
                ..raw
            };
            lemma_flush_mirrors(closed);
        },
        Signal::Plain => {
            lemma_joined_push(Seq::empty(), raw.pending, item.action);
            assert(merged_batches(Seq::empty()) =~= Seq::<Seq<Action>>::empty());
        },
    }
}

/// Taking in a run of actions cuts at the same places with and without
/// merging.
pub proof fn lemma_absorb_all_mirrors(raw: PipelineState, items: Seq<Decoded>)
    ensures
        mirrors(raw.merged_form().absorb_all(items), raw.raw_absorb_all(items)),
    decreases items.len(),
{
    if items.len() == 0 {
        assert(merged_batches(Seq::empty()) =~= Seq::<Seq<Action>>::empty());
    } else {
        lemma_absorb_all_mirrors(raw, items.drop_last());
        let before = raw.raw_absorb_all(items.drop_last());
        lemma_absorb_one_mirrors(before.state, items.last());
        let after = before.state.raw_absorb_one(items.last());
        lemma_merged_batches_concat(before.batches, after.batches);
        lemma_merged_batches_concat(
            merged_batches(before.batches),
            merged_batches(after.batches),
        );
    }
}

/// A whole step cuts at the same places with and without merging.
pub proof fn lemma_react_mirrors(raw: PipelineState, event: PipelineEvent)
    ensures
        mirrors(raw.merged_form().react(event), raw.raw_react(event)),
{
    lemma_flush_mirrors(raw);
    lemma_joined_not_empty(Seq::empty(), raw.pending);
    assert(merged_batches(Seq::empty()) =~= Seq::<Seq<Action>>::empty());
    match event {
        PipelineEvent::Chunk { items, size, now } => {
            if !(raw.dead || size == 0) {
                lemma_absorb_all_mirrors(raw, items);
                let taken = raw.raw_absorb_all(items);
                let counted = taken.state.counted(size);
                assert(counted.merged_form() == taken.state.merged_form().counted(size));
                lemma_flush_mirrors(counted);
                lemma_joined_not_empty(Seq::empty(), counted.pending);
                let settled = counted.settle(now);
                assert(mirrors(counted.merged_form().settle(now), settled));
                lemma_merged_batches_concat(taken.batches, settled.batches);
                lemma_merged_batches_concat(
                    merged_batches(taken.batches),
                    merged_batches(settled.batches),
                );
            }
        },
        PipelineEvent::Waited { polled } => {},
        PipelineEvent::Closed => {},
    }
}

/// The batches are cuts of the stream of decoded actions, and merging
/// happens within a batch only.
///
/// Hold the pipeline against one that merges nothing, from the same start
/// and over the same events. Both deliver at the same moments and ask for
/// the same next steps; each batch of the pipeline is the batch of the
/// other with its actions appended one to the other; and no batch is empty.
/// As long as the stream goes on, the batches of the other, followed by
/// what it has pending, are what was pending at the start followed by every
/// action that the chunks brought: each once, none lost, none moved.
pub proof fn law_batches_are_cuts_of_the_stream(raw: PipelineState, events: Seq<PipelineEvent>)
    ensures
        mirrors(raw.merged_form().run(events), raw.raw_run(events)),
        !raw.dead && (forall|i: int| 0 <= i < events.len() ==> (#[trigger] events[i]).is_live())
            ==> raw.raw_run(events).batches.flatten() + raw.raw_run(events).state.pending
            == raw.pending + brought(events),
    decreases events.len(),
{
    if events.len() == 0 {
        assert(merged_batches(Seq::empty()) =~= Seq::<Seq<Action>>::empty());
    } else {
        law_batches_are_cuts_of_the_stream(raw, events.drop_last());
        let before = raw.raw_run(events.drop_last());
        lemma_react_mirrors(before.state, events.last());
        let after = before.state.raw_react(events.last());
        lemma_merged_batches_concat(before.batches, after.batches);
        lemma_merged_batches_concat(
            merged_batches(before.batches),
            merged_batches(after.batches),
        );
    }
    if !raw.dead && (forall|i: int| 0 <= i < events.len() ==> (#[trigger] events[i]).is_live()) {
        lemma_raw_run_keeps_every_action(raw, events);
    }
}

/// The same, for a pipeline that starts with nothing pending: its batches
/// are the merged cuts of exactly what the chunks brought.
pub proof fn law_fresh_pipeline_delivers_the_stream(events: Seq<PipelineEvent>)
    requires
        forall|i: int| 0 <= i < events.len() ==> (#[trigger] events[i]).is_live(),
    ensures
        ({
            let raw = PipelineState::fresh().raw_run(events);
            let run = PipelineState::fresh().run(events);
            &&& run.batches == merged_batches(raw.batches)
            &&& run.state.pending == joined(Seq::empty(), raw.state.pending)
            &&& run.next == raw.next
            &&& none_empty(run.batches)
            &&& raw.batches.flatten() + raw.state.pending == brought(events)
        }),
{
    let fresh = PipelineState::fresh();
    lemma_joined_not_empty(Seq::empty(), Seq::empty());
    assert(fresh.merged_form() == fresh);
    law_batches_are_cuts_of_the_stream(fresh, events);
    assert(fresh.pending + brought(events) =~= brought(events));
}

} // verus!
