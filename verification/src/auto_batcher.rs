//! Batching with automatic flushes.
//!
//! An [`AutoBatcher`] decides; it does not send. Where a batch has to leave,
//! `push` and `flush` hand out a [`Delivery`], the caller has its transport
//! carry that out, and, after a push, tells `retry` how it went.

use crate::batcher::{Batcher, BatcherView};
use crate::errors::Error;
use crate::http::HttpClient;
use crate::message::{context_bytes, copy_context, Batch, Event, Message};
use vstd::prelude::*;

verus! {

/// One call of the transport: the message to send and the write key to send
/// it under.
#[derive(Clone, Debug, PartialEq, Eq)]
pub struct Delivery {
    pub write_key: String,
    pub message: Message,
}

/// How a push ended.
#[derive(Clone, Debug, PartialEq, Eq)]
pub enum Pushed {
    /// The event is in the buffer.
    Accepted,
    /// The buffer was full and has been emptied. `delivery` is to be carried
    /// out, and then `deferred` handed to [`AutoBatcher::retry`] together
    /// with the outcome.
    Overflow { delivery: Delivery, deferred: Event },
}

/// `delivery` sends, under `key`, one batch with all events of `buffer` in
/// their order and with its context.
pub open spec fn is_flush_of(delivery: Delivery, buffer: BatcherView, key: Seq<char>) -> bool {
    &&& delivery.write_key@ == key
    &&& delivery.message matches Message::Batch(batch)
    &&& batch.batch@ == buffer.events
    &&& context_bytes(batch.context) == buffer.context
}

/// A batch buffer together with the endpoint and the write key that its
/// batches go to.
#[derive(Clone, Debug)]
pub struct AutoBatcher {
    client: HttpClient,
    batcher: Batcher,
    key: String,
}

impl AutoBatcher {
    /// The buffer.
    pub closed spec fn buffer(&self) -> BatcherView {
        self.batcher@
    }

    /// The write key.
    pub closed spec fn write_key(&self) -> Seq<char> {
        self.key@
    }

    /// The endpoint.
    pub closed spec fn http(&self) -> HttpClient {
        self.client
    }

    /// The buffer's size accounting is in order. This holds of every
    /// `AutoBatcher`.
    pub open spec fn wf(&self) -> bool {
        self.buffer().wf()
    }

    /// Puts `batcher` in front of `client`, to send under `key`.
    pub fn new(client: HttpClient, batcher: Batcher, key: String) -> (auto: AutoBatcher)
        ensures
            auto.wf(),
            auto.buffer() == batcher@,
            auto.write_key() == key@,
            auto.http() == client,
    {
        proof {
            use_type_invariant(&batcher);
        }
        AutoBatcher { client, batcher, key }
    }

    /// The number of events in the buffer.
    pub fn len(&self) -> (len: usize)
        ensures
            len == self.buffer().events.len(),
    {
        self.batcher.len()
    }

    /// Whether the buffer holds no event.
    pub fn is_empty(&self) -> (empty: bool)
        ensures
            empty == (self.buffer().events.len() == 0),
    {
        self.batcher.is_empty()
    }

    /// The endpoint to send to.
    pub fn client(&self) -> (client: &HttpClient)
        ensures
            *client == self.http(),
    {
        &self.client
    }

    /// The buffer.
    pub fn batcher(&self) -> (batcher: &Batcher)
        ensures
            batcher@ == self.buffer(),
    {
        &self.batcher
    }

    /// The write key to send under.
    pub fn key(&self) -> (key: &String)
        ensures
            key@ == self.write_key(),
    {
        &self.key
    }

    /// Empties the buffer into a delivery.
    fn drain(&mut self) -> (delivery: Delivery)
        ensures
            old(self).wf(),
            final(self).wf(),
            is_flush_of(delivery, old(self).buffer(), old(self).write_key()),
            final(self).buffer() == old(self).buffer().drained(),
            final(self).write_key() == old(self).write_key(),
            final(self).http() == old(self).http(),
    {
        let batch = self.batcher.take();
        let context = copy_context(self.batcher.context());
        Delivery { write_key: self.key.clone(), message: Message::Batch(Batch { batch, context }) }
    }

    /// Pushes `event`, emptying the buffer first where it is full.
    ///
    /// An event that can never be sent is refused with
    /// [`Error::MessageTooLarge`], and nothing else happens. An event for
    /// which there is room is appended. Otherwise everything that was
    /// buffered leaves in one delivery, the buffer is empty, and the event
    /// waits outside it until `retry` is told how the delivery went.
    pub fn push(&mut self, event: Event) -> (result: Result<Pushed, Error>)
        ensures
            old(self).wf(),
            final(self).wf(),
            final(self).write_key() == old(self).write_key(),
            final(self).http() == old(self).http(),
            match old(self).buffer().push_result(event) {
                Err(error) => {
                    &&& result == Err::<Pushed, Error>(error)
                    &&& final(self).buffer() == old(self).buffer()
                },
                Ok(None) => {
                    &&& result == Ok::<Pushed, Error>(Pushed::Accepted)
                    &&& final(self).buffer() == old(self).buffer().with_event(event)
                },
                Ok(Some(_)) => {
                    &&& result matches Ok(Pushed::Overflow { delivery, deferred })
                    &&& deferred == event
                    &&& is_flush_of(delivery, old(self).buffer(), old(self).write_key())
                    &&& old(self).buffer().events.len() >= 1
                    &&& final(self).buffer() == old(self).buffer().drained()
                    &&& final(self).buffer().push_result(event) == Ok::<Option<Event>, Error>(None)
                },
            },
            event.size() > old(self).buffer().max_size ==> result == Err::<Pushed, Error>(
                Error::MessageTooLarge,
            ),
            result is Err ==> final(self).buffer().events.len() == old(self).buffer().events.len(),
            result == Ok::<Pushed, Error>(Pushed::Accepted) ==> final(self).buffer().events.len()
                == old(self).buffer().events.len() + 1,
            result matches Ok(Pushed::Overflow { .. }) ==> final(self).buffer().events.len() == 0,
    {
        match self.batcher.push(event) {
            Err(error) => Err(error),
            Ok(None) => Ok(Pushed::Accepted),
            Ok(Some(deferred)) => {
                let delivery = self.drain();
                Ok(Pushed::Overflow { delivery, deferred })
            },
        }
    }

    /// Finishes a push that found the buffer full, once the transport has
    /// dealt with the delivery.
    ///
    /// After a delivery that failed the error is passed on and the event is
    /// not inserted: the batch is lost, and the event with it. After one
    /// that succeeded the event is pushed into the buffer, and the answer is
    /// that of the buffer. It is `None`, the event taken, whenever `retry`
    /// follows the `push` that handed out `deferred`, for that `push` left
    /// the buffer empty; any other answer means that something else was
    /// pushed in between.
    pub fn retry(
        &mut self,
        deferred: Event,
        sent: Result<(), Error>,
    ) -> (result: Result<Option<Event>, Error>)
        ensures
            old(self).wf(),
            final(self).wf(),
            final(self).write_key() == old(self).write_key(),
            final(self).http() == old(self).http(),
            match sent {
                Err(error) => {
                    &&& result == Err::<Option<Event>, Error>(error)
                    &&& final(self).buffer() == old(self).buffer()
                },
                Ok(_) => {
                    &&& result == old(self).buffer().push_result(deferred)
                    &&& final(self).buffer() == old(self).buffer().pushed(deferred)
                },
            },
            sent is Ok && old(self).buffer().events.len() == 0 && old(self).buffer().fits_alone(
                deferred,
            ) ==> result == Ok::<Option<Event>, Error>(None) && final(self).buffer().events
                == seq![deferred],
    {
        match sent {
            Err(error) => {
                proof {
                    use_type_invariant(&self.batcher);
                }
                Err(error)
            },
            Ok(_) => self.batcher.push(deferred),
        }
    }

    /// Empties the buffer into a delivery, if it holds anything.
    ///
    /// On an empty buffer there is nothing to send and nothing changes. The
    /// events that leave are no longer the buffer's, whatever becomes of
    /// the delivery.
    pub fn flush(&mut self) -> (delivery: Option<Delivery>)
        ensures
            old(self).wf(),
            final(self).wf(),
            final(self).write_key() == old(self).write_key(),
            final(self).http() == old(self).http(),
            old(self).buffer().events.len() == 0 ==> delivery is None && final(self).buffer()
                == old(self).buffer(),
            old(self).buffer().events.len() > 0 ==> {
                &&& delivery matches Some(sending)
                &&& is_flush_of(sending, old(self).buffer(), old(self).write_key())
                &&& final(self).buffer() == old(self).buffer().drained()
            },
    {
        proof {
            use_type_invariant(&self.batcher);
        }
        if self.batcher.is_empty() {
            None
        } else {
            Some(self.drain())
        }
    }
}

/// A push that finds the buffer full finds events in it, and once they have
/// left, the event that did not fit is taken and is alone in the buffer.
pub proof fn lemma_overflow_then_retry(buffer: BatcherView, event: Event)
    requires
        buffer.wf(),
        buffer.push_result(event) == Ok::<Option<Event>, Error>(Some(event)),
    ensures
        buffer.events.len() >= 1,
        buffer.drained().wf(),
        buffer.drained().push_result(event) == Ok::<Option<Event>, Error>(None),
        buffer.drained().with_event(event).wf(),
        buffer.drained().with_event(event).events == seq![event],
        buffer.drained().with_event(event).byte_count == buffer.overhead + event.size(),
{
    assert(buffer.drained().with_event(event).events.drop_last() =~= Seq::<Event>::empty());
}

} // verus!
