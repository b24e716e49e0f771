//! The bytes of a batch as it goes out: a JSON object whose `batch` member is
//! the array of the event bodies and whose `context` member, if there is one,
//! is the context.

use crate::message::{context_bytes, total_size, Batch, Event, Message};
use vstd::prelude::*;

verus! {

/// `{"batch":[`
pub open spec fn batch_open() -> Seq<u8> {
    seq![0x7bu8, 0x22u8, 0x62u8, 0x61u8, 0x74u8, 0x63u8, 0x68u8, 0x22u8, 0x3au8, 0x5bu8]
}

/// `,"context":`
pub open spec fn context_open() -> Seq<u8> {
    seq![
        0x2cu8,
        0x22u8,
        0x63u8,
        0x6fu8,
        0x6eu8,
        0x74u8,
        0x65u8,
        0x78u8,
        0x74u8,
        0x22u8,
        0x3au8,
    ]
}

/// The bodies of the events in order, with a comma between neighbours.
pub open spec fn joined(events: Seq<Event>) -> Seq<u8>
    decreases events.len(),
{
    if events.len() == 0 {
        Seq::empty()
    } else if events.len() == 1 {
        events[0]@.body
    } else {
        joined(events.drop_last()) + seq![0x2cu8] + events.last()@.body
    }
}

/// What follows the closing bracket of the array: the context member, if
/// any, and the closing brace.
pub open spec fn tail(context: Option<Seq<u8>>) -> Seq<u8> {
    match context {
        Some(bytes) => context_open() + bytes + seq![0x7du8],
        None => seq![0x7du8],
    }
}

/// The bytes of a batch of these events with this context.
pub open spec fn batch_payload(events: Seq<Event>, context: Option<Seq<u8>>) -> Seq<u8> {
    batch_open() + joined(events) + seq![0x5du8] + tail(context)
}

/// The bytes of a batch that are not part of any event: everything but the
/// array's items and their delimiters. The bracket that closes the array
/// counts as the delimiter of the last event.
pub open spec fn envelope_size(context: Option<Seq<u8>>) -> nat {
    batch_open().len() + tail(context).len()
}

/// The bytes that a message is sent as.
pub open spec fn message_payload(message: Message) -> Seq<u8> {
    match message {
        Message::Event(event) => event@.body,
        Message::Batch(batch) => batch_payload(batch.batch@, context_bytes(batch.context)),
    }
}

/// The envelope takes 11 bytes without a context, and 22 and the context's
/// own bytes with one.
pub proof fn lemma_envelope_size(context: Option<Seq<u8>>)
    ensures
        envelope_size(context) == match context {
            Some(bytes) => 22 + bytes.len(),
            None => 11,
        },
{
}

/// The array's items take up the events' sizes, less the delimiter of the
/// last one.
pub proof fn lemma_joined_len(events: Seq<Event>)
    requires
        events.len() >= 1,
    ensures
        joined(events).len() + 1 == total_size(events),
    decreases events.len(),
{
    if events.len() == 1 {
        assert(total_size(events.drop_last()) == 0);
    } else {
        lemma_joined_len(events.drop_last());
    }
}

/// A batch that holds at least one event is exactly as long as its envelope
/// and the sizes of its events.
pub proof fn lemma_payload_len(events: Seq<Event>, context: Option<Seq<u8>>)
    requires
        events.len() >= 1,
    ensures
        batch_payload(events, context).len() == envelope_size(context) + total_size(events),
{
    lemma_joined_len(events);
}

/// Appends `bytes` to `out`.
pub(crate) fn append(out: &mut Vec<u8>, bytes: &Vec<u8>)
    ensures
        final(out)@ == old(out)@ + bytes@,
{
    let mut i: usize = 0;
    while i < bytes.len()
        invariant
            i <= bytes.len(),
            out@ == old(out)@ + bytes@.take(i as int),
        decreases bytes.len() - i,
    {
        out.push(bytes[i]);
        i += 1;
    }
}

impl Batch {
    /// Serialises the batch.
    pub fn to_bytes(&self) -> (bytes: Vec<u8>)
        ensures
            bytes@ == batch_payload(self.batch@, context_bytes(self.context)),
    {
        let mut out: Vec<u8> = vec![
            0x7bu8,
            0x22u8,
            0x62u8,
            0x61u8,
            0x74u8,
            0x63u8,
            0x68u8,
            0x22u8,
            0x3au8,
            0x5bu8,
        ];
        let mut i: usize = 0;
        while i < self.batch.len()
            invariant
                i <= self.batch.len(),
                out@ == batch_open() + joined(self.batch@.take(i as int)),
            decreases self.batch.len() - i,
        {
            if i > 0 {
                out.push(0x2cu8);
            }
            append(&mut out, self.batch[i].body());
            assert(self.batch@.take(i + 1).drop_last() =~= self.batch@.take(i as int));
            i += 1;
        }
        assert(self.batch@.take(self.batch.len() as int) =~= self.batch@);
        out.push(0x5du8);
        match &self.context {
            Some(context) => {
                let member: Vec<u8> = vec![
                    0x2cu8,
                    0x22u8,
                    0x63u8,
                    0x6fu8,
                    0x6eu8,
                    0x74u8,
                    0x65u8,
                    0x78u8,
                    0x74u8,
                    0x22u8,
                    0x3au8,
                ];
                append(&mut out, &member);
                append(&mut out, context);
                out.push(0x7du8);
            },
            None => {
                out.push(0x7du8);
            },
        }
        out
    }
}

impl Message {
    /// Serialises the message: the body of a single event as it is, a batch
    /// in its envelope.
    pub fn to_bytes(&self) -> (bytes: Vec<u8>)
        ensures
            bytes@ == message_payload(*self),
    {
        match self {
            Message::Event(event) => {
                let mut out: Vec<u8> = Vec::new();
                append(&mut out, event.body());
                out
            },
            Message::Batch(batch) => batch.to_bytes(),
        }
    }
}

} // verus!
