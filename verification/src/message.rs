//! Events, batches of events, and the messages a transport is asked to send.

use crate::wire::append;
use vstd::prelude::*;

verus! {

/// The six kinds of analytics event.
#[derive(Clone, Copy, Debug, PartialEq, Eq, Structural)]
pub enum EventKind {
    Identify,
    Track,
    Page,
    Screen,
    Group,
    Alias,
}

/// One analytics record: its kind and its JSON text.
///
/// The body is fixed when the event is made. Pushing an event moves it into
/// the buffer, and a flush moves it on into the batch.
#[derive(Debug, PartialEq, Eq)]
pub struct Event {
    kind: EventKind,
    body: Vec<u8>,
}

/// What an [`Event`] is, as plain values.
pub struct EventView {
    pub kind: EventKind,
    pub body: Seq<u8>,
}

impl View for Event {
    type V = EventView;

    closed spec fn view(&self) -> EventView {
        EventView { kind: self.kind, body: self.body@ }
    }
}

impl Clone for Event {
    /// An event of the same kind with the same body.
    fn clone(&self) -> (copy: Event)
        ensures
            copy@ == self@,
    {
        let mut body: Vec<u8> = Vec::new();
        append(&mut body, &self.body);
        Event { kind: self.kind, body }
    }
}

impl Event {
    /// The serialised size of the event: the bytes it takes up in a batch,
    /// which are its body and the one delimiter that follows it there.
    pub open spec fn size(self) -> nat {
        self@.body.len() + 1
    }

    /// Makes an event of the given kind from its serialised body.
    pub fn new(kind: EventKind, body: Vec<u8>) -> (event: Event)
        ensures
            event@.kind == kind,
            event@.body == body@,
    {
        Event { kind, body }
    }

    pub fn kind(&self) -> (kind: EventKind)
        ensures
            kind == self@.kind,
    {
        self.kind
    }

    pub fn body(&self) -> (body: &Vec<u8>)
        ensures
            body@ == self@.body,
    {
        &self.body
    }

    /// The serialised size, as far as a `usize` can hold it.
    pub fn serialized_size(&self) -> (size: usize)
        ensures
            self.size() <= usize::MAX ==> size == self.size(),
            self.size() > usize::MAX ==> size == usize::MAX,
    {
        self.body.len().saturating_add(1)
    }
}

/// The serialised size of a run of events: the sum of their sizes.
pub open spec fn total_size(events: Seq<Event>) -> nat
    decreases events.len(),
{
    if events.len() == 0 {
        0
    } else {
        total_size(events.drop_last()) + events.last().size()
    }
}

/// One more event adds its own size and nothing else.
pub proof fn lemma_total_size_push(events: Seq<Event>, event: Event)
    ensures
        total_size(events.push(event)) == total_size(events) + event.size(),
{
    assert(events.push(event).drop_last() =~= events);
}

/// Runs of events that agree in their sizes, one by one, have the same size
/// in all.
pub proof fn lemma_total_size_by_sizes(left: Seq<Event>, right: Seq<Event>)
    requires
        left.len() == right.len(),
        forall|i: int| 0 <= i < left.len() ==> left[i].size() == right[i].size(),
    ensures
        total_size(left) == total_size(right),
    decreases left.len(),
{
    if left.len() > 0 {
        lemma_total_size_by_sizes(left.drop_last(), right.drop_last());
    }
}

/// The context of a batch as plain bytes.
pub open spec fn context_bytes(context: Option<Vec<u8>>) -> Option<Seq<u8>> {
    match context {
        Some(bytes) => Some(bytes@),
        None => None,
    }
}

/// A copy of a context.
pub(crate) fn copy_context(context: &Option<Vec<u8>>) -> (copy: Option<Vec<u8>>)
    ensures
        context_bytes(copy) == context_bytes(*context),
{
    match context {
        Some(bytes) => {
            let mut copied: Vec<u8> = Vec::new();
            append(&mut copied, bytes);
            Some(copied)
        },
        None => None,
    }
}

/// Events in the order in which they were pushed, and the context that is
/// sent once with all of them.
#[derive(Clone, Debug, PartialEq, Eq)]
pub struct Batch {
    pub batch: Vec<Event>,
    pub context: Option<Vec<u8>>,
}

/// What a transport is asked to send: one event, or a batch of them.
#[derive(Clone, Debug, PartialEq, Eq)]
pub enum Message {
    Event(Event),
    Batch(Batch),
}

/// The path on which events of one kind are received.
pub open spec fn event_path(kind: EventKind) -> Seq<char> {
    match kind {
        EventKind::Identify => "/v1/identify"@,
        EventKind::Track => "/v1/track"@,
        EventKind::Page => "/v1/page"@,
        EventKind::Screen => "/v1/screen"@,
        EventKind::Group => "/v1/group"@,
        EventKind::Alias => "/v1/alias"@,
    }
}

impl EventKind {
    /// The path on which events of this kind are received.
    pub fn path(self) -> (path: &'static str)
        ensures
            path@ == event_path(self),
    {
        match self {
            EventKind::Identify => "/v1/identify",
            EventKind::Track => "/v1/track",
            EventKind::Page => "/v1/page",
            EventKind::Screen => "/v1/screen",
            EventKind::Group => "/v1/group",
            EventKind::Alias => "/v1/alias",
        }
    }
}

impl Message {
    /// The path a message is posted to: that of its kind for a single event,
    /// the batch path for a batch.
    pub open spec fn route(self) -> Seq<char> {
        match self {
            Message::Event(event) => event_path(event@.kind),
            Message::Batch(_) => "/v1/batch"@,
        }
    }

    /// The path this message is posted to.
    pub fn path(&self) -> (path: &'static str)
        ensures
            path@ == self.route(),
    {
        match self {
            Message::Event(event) => event.kind().path(),
            Message::Batch(_) => "/v1/batch",
        }
    }
}

} // verus!
