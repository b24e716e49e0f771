//! What becomes of the events that go through an [`AutoBatcher`] while every
//! delivery succeeds.
//!
//! [`AutoBatcher`]: crate::auto_batcher::AutoBatcher

use crate::batcher::BatcherView;
use crate::errors::Error;
use crate::message::{lemma_total_size_push, Event};
use vstd::prelude::*;

verus! {

/// A buffer, and the batches that have left it and arrived, oldest first.
pub struct Pipeline {
    pub buffer: BatcherView,
    pub sent: Seq<Seq<Event>>,
}

/// The events of all batches, in the order in which they were sent.
pub open spec fn delivered(sent: Seq<Seq<Event>>) -> Seq<Event>
    decreases sent.len(),
{
    if sent.len() == 0 {
        Seq::empty()
    } else {
        delivered(sent.drop_last()) + sent.last()
    }
}

impl Pipeline {
    /// A pipeline that starts with this buffer and has sent nothing.
    pub open spec fn start(buffer: BatcherView) -> Pipeline {
        Pipeline { buffer, sent: Seq::empty() }
    }

    /// Every event that is in the pipeline: those that were delivered, then
    /// those that wait in the buffer.
    pub open spec fn events(self) -> Seq<Event> {
        delivered(self.sent) + self.buffer.events
    }

    /// One push: the event is refused, or appended, or the buffer's events
    /// leave as a batch and the event is retried into the empty buffer.
    pub open spec fn push(self, event: Event) -> Pipeline {
        match self.buffer.push_result(event) {
            Err(_) => self,
            Ok(None) => Pipeline { buffer: self.buffer.with_event(event), sent: self.sent },
            Ok(Some(_)) => Pipeline {
                buffer: self.buffer.drained().with_event(event),
                sent: self.sent.push(self.buffer.events),
            },
        }
    }

    /// One flush: the buffer's events, if there are any, leave as a batch.
    pub open spec fn flush(self) -> Pipeline {
        if self.buffer.events.len() == 0 {
            self
        } else {
            Pipeline { buffer: self.buffer.drained(), sent: self.sent.push(self.buffer.events) }
        }
    }

    /// The pushes of `events`, one after the other.
    pub open spec fn push_all(self, events: Seq<Event>) -> Pipeline
        decreases events.len(),
    {
        if events.len() == 0 {
            self
        } else {
            self.push_all(events.drop_last()).push(events.last())
        }
    }
}

/// The events of one more batch come after those of the batches before it.
pub proof fn lemma_delivered_push(sent: Seq<Seq<Event>>, batch: Seq<Event>)
    ensures
        delivered(sent.push(batch)) == delivered(sent) + batch,
{
    assert(sent.push(batch).drop_last() =~= sent);
}

/// A push of an event that fits in a batch of its own adds that event behind
/// all others and loses none. The limits and the context stay as they are,
/// and no empty batch is sent.
pub proof fn lemma_push_keeps_events(pipeline: Pipeline, event: Event)
    requires
        pipeline.buffer.wf(),
        pipeline.buffer.fits_alone(event),
    ensures
        pipeline.push(event).buffer.wf(),
        pipeline.push(event).events() == pipeline.events().push(event),
        pipeline.push(event).buffer.max_size == pipeline.buffer.max_size,
        pipeline.push(event).buffer.overhead == pipeline.buffer.overhead,
        pipeline.push(event).buffer.context == pipeline.buffer.context,
        pipeline.buffer.push_result(event) == Ok::<Option<Event>, Error>(Some(event)) ==> {
            &&& pipeline.buffer.events.len() >= 1
            &&& pipeline.push(event).buffer.events == seq![event]
            &&& pipeline.push(event).sent == pipeline.sent.push(pipeline.buffer.events)
        },
{
    let buffer = pipeline.buffer;
    if buffer.has_room(event) {
        lemma_total_size_push(buffer.events, event);
    } else {
        lemma_delivered_push(pipeline.sent, buffer.events);
        lemma_total_size_push(buffer.drained().events, event);
    }
}

/// Pushes of events that each fit in a batch of their own add these events,
/// in their order, behind all others and lose none.
pub proof fn lemma_push_all_keeps_events(pipeline: Pipeline, events: Seq<Event>)
    requires
        pipeline.buffer.wf(),
        forall|i: int| 0 <= i < events.len() ==> pipeline.buffer.fits_alone(#[trigger] events[i]),
    ensures
        pipeline.push_all(events).buffer.wf(),
        pipeline.push_all(events).events() == pipeline.events() + events,
        pipeline.push_all(events).buffer.max_size == pipeline.buffer.max_size,
        pipeline.push_all(events).buffer.overhead == pipeline.buffer.overhead,
        pipeline.push_all(events).buffer.context == pipeline.buffer.context,
    decreases events.len(),
{
    if events.len() > 0 {
        let front = events.drop_last();
        lemma_push_all_keeps_events(pipeline, front);
        lemma_push_keeps_events(pipeline.push_all(front), events.last());
    }
}

/// A flush leaves the buffer empty, and everything that was in the pipeline
/// has then been delivered.
pub proof fn lemma_flush_delivers_all(pipeline: Pipeline)
    requires
        pipeline.buffer.wf(),
    ensures
        pipeline.flush().buffer.wf(),
        pipeline.flush().buffer.events.len() == 0,
        delivered(pipeline.flush().sent) == pipeline.events(),
        pipeline.buffer.events.len() == 0 ==> pipeline.flush() == pipeline,
{
    if pipeline.buffer.events.len() > 0 {
        lemma_delivered_push(pipeline.sent, pipeline.buffer.events);
    }
}

/// No event is lost and none is added: after pushes of events that each fit
/// in a batch of their own, and a flush, the transport has been handed
/// exactly the events that were buffered at the start and those that were
/// pushed, each once and in that order. In particular it has been handed as
/// many events as there were.
pub proof fn lemma_nothing_lost(buffer: BatcherView, events: Seq<Event>)
    requires
        buffer.wf(),
        forall|i: int| 0 <= i < events.len() ==> buffer.fits_alone(#[trigger] events[i]),
    ensures
        delivered(Pipeline::start(buffer).push_all(events).flush().sent) == buffer.events + events,
        delivered(Pipeline::start(buffer).push_all(events).flush().sent).len()
            == buffer.events.len() + events.len(),
        Pipeline::start(buffer).push_all(events).flush().buffer.events.len() == 0,
{
    let start = Pipeline::start(buffer);
    lemma_push_all_keeps_events(start, events);
    lemma_flush_delivers_all(start.push_all(events));
}

} // verus!
