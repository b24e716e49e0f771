//! The batch buffer: events waiting to be sent, and the size of the batch
//! they would make.

use crate::errors::Error;
use crate::message::{
    context_bytes, copy_context, lemma_total_size_by_sizes, lemma_total_size_push, total_size,
    Event,
};
use crate::wire::{batch_payload, envelope_size, lemma_envelope_size, lemma_payload_len};
use vstd::prelude::*;

verus! {

/// The size limit of a batch unless another is asked for: 500 KB.
pub const MAX_BATCH_SIZE: usize = 500 * 1024;

/// `n`, or the largest `usize` where `n` is beyond it.
pub open spec fn saturated(n: nat) -> nat {
    if n <= usize::MAX {
        n
    } else {
        usize::MAX as nat
    }
}

/// What a [`Batcher`] holds, as plain values.
pub struct BatcherView {
    /// The events not yet sent, oldest first.
    pub events: Seq<Event>,
    /// The size of the batch that these events would make.
    pub byte_count: nat,
    /// The size that no batch may exceed.
    pub max_size: nat,
    /// The size of a batch's envelope.
    pub overhead: nat,
    /// The context sent with every batch.
    pub context: Option<Seq<u8>>,
}

impl BatcherView {
    /// The accounted size is the envelope and the events' sizes, a buffer
    /// that holds anything is within the limit, and the limit is one that a
    /// `usize` can hold.
    pub open spec fn wf(self) -> bool {
        &&& self.max_size <= usize::MAX
        &&& self.byte_count == self.overhead + total_size(self.events)
        &&& self.events.len() > 0 ==> self.byte_count <= self.max_size
    }

    /// A batch of this event and nothing else is within the limit.
    pub open spec fn fits_alone(self, event: Event) -> bool {
        self.overhead + event.size() <= self.max_size
    }

    /// The batch that is being collected stays within the limit with this
    /// event added.
    pub open spec fn has_room(self, event: Event) -> bool {
        self.byte_count + event.size() <= self.max_size
    }

    /// The buffer with `event` appended.
    pub open spec fn with_event(self, event: Event) -> BatcherView {
        BatcherView {
            events: self.events.push(event),
            byte_count: self.byte_count + event.size(),
            ..self
        }
    }

    /// The buffer with its events taken out.
    pub open spec fn drained(self) -> BatcherView {
        BatcherView { events: Seq::empty(), byte_count: self.overhead, ..self }
    }

    /// What a push of `event` answers: an error for an event that can never
    /// be sent, the event itself where the buffer is full, nothing where it
    /// was taken.
    pub open spec fn push_result(self, event: Event) -> Result<Option<Event>, Error> {
        if !self.fits_alone(event) {
            Err(Error::MessageTooLarge)
        } else if !self.has_room(event) {
            Ok(Some(event))
        } else {
            Ok(None)
        }
    }

    /// The buffer after a push of `event`: with the event where it was
    /// taken, as before where it was not.
    pub open spec fn pushed(self, event: Event) -> BatcherView {
        if self.fits_alone(event) && self.has_room(event) {
            self.with_event(event)
        } else {
            self
        }
    }

    /// The envelope is accounted for as the batch serialisation lays it out.
    pub open spec fn accounts_for_payload(self) -> bool {
        self.overhead == saturated(envelope_size(self.context))
    }
}

/// The events that wait, and the size of the batch they would make.
#[derive(Debug)]
struct Pending {
    events: Vec<Event>,
    byte_count: usize,
}

/// A buffer of events that keeps count of the bytes a batch of them takes.
#[derive(Debug)]
pub struct Batcher {
    pending: Pending,
    max_size: usize,
    overhead: usize,
    context: Option<Vec<u8>>,
}

impl View for Batcher {
    type V = BatcherView;

    closed spec fn view(&self) -> BatcherView {
        BatcherView {
            events: self.pending.events@,
            byte_count: self.pending.byte_count as nat,
            max_size: self.max_size as nat,
            overhead: self.overhead as nat,
            context: context_bytes(self.context),
        }
    }
}

impl Clone for Batcher {
    /// A buffer with the same limits and context that holds copies of the
    /// events.
    fn clone(&self) -> (copy: Batcher)
        ensures
            copy.wf(),
            copy@.events.len() == self@.events.len(),
            forall|i: int| 0 <= i < self@.events.len() ==> copy@.events[i]@ == self@.events[i]@,
            copy@.byte_count == self@.byte_count,
            copy@.max_size == self@.max_size,
            copy@.overhead == self@.overhead,
            copy@.context == self@.context,
    {
        proof {
            use_type_invariant(self);
        }
        let mut events: Vec<Event> = Vec::new();
        let mut i: usize = 0;
        while i < self.pending.events.len()
            invariant
                i <= self.pending.events.len(),
                events@.len() == i,
                forall|j: int| 0 <= j < i ==> events@[j]@ == self.pending.events@[j]@,
            decreases self.pending.events.len() - i,
        {
            events.push(self.pending.events[i].clone());
            i += 1;
        }
        proof {
            lemma_total_size_by_sizes(events@, self.pending.events@);
        }
        Batcher {
            pending: Pending { events, byte_count: self.pending.byte_count },
            max_size: self.max_size,
            overhead: self.overhead,
            context: copy_context(&self.context),
        }
    }
}

impl Batcher {
    /// The size accounting of every buffer is in order.
    #[verifier::type_invariant]
    pub open spec fn wf(self) -> bool {
        self@.wf()
    }

    /// An empty buffer with the default size limit, for batches that are
    /// serialised with this context.
    pub fn new(context: Option<Vec<u8>>) -> (batcher: Batcher)
        ensures
            batcher.wf(),
            batcher@.accounts_for_payload(),
            batcher@.events.len() == 0,
            batcher@.max_size == MAX_BATCH_SIZE,
            batcher@.context == context_bytes(context),
    {
        Batcher::with_max_size(context, MAX_BATCH_SIZE)
    }

    /// An empty buffer with the given size limit, for batches that are
    /// serialised with this context.
    pub fn with_max_size(context: Option<Vec<u8>>, max_size: usize) -> (batcher: Batcher)
        ensures
            batcher.wf(),
            batcher@.accounts_for_payload(),
            batcher@.events.len() == 0,
            batcher@.max_size == max_size,
            batcher@.context == context_bytes(context),
    {
        proof {
            lemma_envelope_size(context_bytes(context));
        }
        let overhead: usize = match &context {
            Some(bytes) => bytes.len().saturating_add(22),
            None => 11,
        };
        Batcher::with_limits(context, max_size, overhead)
    }

    /// An empty buffer with the given size limit, for a transport whose
    /// envelope takes `overhead` bytes.
    pub fn with_limits(
        context: Option<Vec<u8>>,
        max_size: usize,
        overhead: usize,
    ) -> (batcher: Batcher)
        ensures
            batcher.wf(),
            batcher@ == (BatcherView {
                events: Seq::empty(),
                byte_count: overhead as nat,
                max_size: max_size as nat,
                overhead: overhead as nat,
                context: context_bytes(context),
            }),
    {
        Batcher {
            pending: Pending { events: Vec::new(), byte_count: overhead },
            max_size,
            overhead,
            context,
        }
    }

    /// Takes `event` into the buffer if the batch stays within the limit.
    ///
    /// An event that would be over the limit even in a batch of its own is
    /// refused with [`Error::MessageTooLarge`]. An event for which the
    /// buffer is too full comes back as `Some`: it is to be pushed again
    /// once the buffer has been emptied. In both cases the buffer is as it
    /// was. Otherwise the event is appended and counted, and the answer is
    /// `None`.
    pub fn push(&mut self, event: Event) -> (result: Result<Option<Event>, Error>)
        ensures
            old(self).wf(),
            final(self).wf(),
            result == old(self)@.push_result(event),
            final(self)@ == old(self)@.pushed(event),
            event.size() > old(self)@.max_size ==> result == Err::<Option<Event>, Error>(
                Error::MessageTooLarge,
            ),
            result is Err ==> final(self)@.events.len() == old(self)@.events.len(),
            result == Ok::<Option<Event>, Error>(None) ==> final(self)@.events.len() == old(
                self,
            )@.events.len() + 1,
    {
        proof {
            use_type_invariant(&*self);
        }
        let len: usize = event.body().len();
        if self.overhead >= self.max_size || len > self.max_size - self.overhead - 1 {
            return Err(Error::MessageTooLarge);
        }
        if self.pending.byte_count >= self.max_size || len > self.max_size
            - self.pending.byte_count - 1 {
            return Ok(Some(event));
        }
        proof {
            lemma_total_size_push(self.pending.events@, event);
        }
        // The events and their count are taken out, changed and put back
        // together, so that the buffer is in order at every step.
        let mut pending = Pending { events: Vec::new(), byte_count: self.overhead };
        std::mem::swap(&mut self.pending, &mut pending);
        pending.byte_count = pending.byte_count + len + 1;
        pending.events.push(event);
        self.pending = pending;
        Ok(None)
    }

    /// The number of events in the buffer.
    pub fn len(&self) -> (len: usize)
        ensures
            len == self@.events.len(),
    {
        self.pending.events.len()
    }

    /// Whether the buffer holds no event.
    pub fn is_empty(&self) -> (empty: bool)
        ensures
            empty == (self@.events.len() == 0),
    {
        self.pending.events.len() == 0
    }

    /// Takes all events out of the buffer, oldest first, and sets the count
    /// back to the envelope alone. The context stays.
    pub fn take(&mut self) -> (events: Vec<Event>)
        ensures
            old(self).wf(),
            final(self).wf(),
            events@ == old(self)@.events,
            final(self)@ == old(self)@.drained(),
    {
        proof {
            use_type_invariant(&*self);
        }
        let mut pending = Pending { events: Vec::new(), byte_count: self.overhead };
        std::mem::swap(&mut self.pending, &mut pending);
        pending.events
    }

    /// The size of the batch that the buffered events would make.
    pub fn byte_count(&self) -> (size: usize)
        ensures
            size == self@.byte_count,
    {
        self.pending.byte_count
    }

    /// The size that no batch may exceed.
    pub fn max_size(&self) -> (size: usize)
        ensures
            size == self@.max_size,
    {
        self.max_size
    }

    /// The size of a batch's envelope.
    pub fn overhead(&self) -> (size: usize)
        ensures
            size == self@.overhead,
    {
        self.overhead
    }

    /// The context that goes out with every batch.
    pub fn context(&self) -> (context: &Option<Vec<u8>>)
        ensures
            context_bytes(*context) == self@.context,
    {
        &self.context
    }
}

/// While a buffer holds anything, its accounted size is exactly the length
/// of the batch that a flush would serialise.
pub proof fn lemma_byte_count_is_payload_len(buffer: BatcherView)
    requires
        buffer.wf(),
        buffer.accounts_for_payload(),
        buffer.events.len() >= 1,
    ensures
        buffer.byte_count == batch_payload(buffer.events, buffer.context).len(),
{
    lemma_payload_len(buffer.events, buffer.context);
}

} // verus!
