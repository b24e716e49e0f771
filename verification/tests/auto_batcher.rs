use segment::{
    AutoBatcher, Batch, Batcher, Delivery, Error, Event, EventKind, HttpClient, Message, Pushed,
};

/// An event whose serialised size is `size`, told apart from others by `tag`.
fn event(tag: u8, size: usize) -> Event {
    assert!(size >= 3);
    let mut body = vec![b'"'];
    body.resize(size - 2, tag);
    body.push(b'"');
    Event::new(EventKind::Track, body)
}

fn auto_batcher(context: Option<Vec<u8>>, max_size: usize, overhead: usize) -> AutoBatcher {
    let client = HttpClient::new(reqwest::Client::new(), "http://localhost".to_string());
    AutoBatcher::new(client, Batcher::with_limits(context, max_size, overhead), "key".to_string())
}

/// A transport that keeps what it is asked to send, and fails when told to.
struct Recorder {
    sent: Vec<Delivery>,
    failing: bool,
}

impl Recorder {
    fn new() -> Recorder {
        Recorder { sent: Vec::new(), failing: false }
    }

    fn send(&mut self, delivery: Delivery) -> Result<(), Error> {
        self.sent.push(delivery);
        if self.failing {
            Err(Error::DeliveryFailed)
        } else {
            Ok(())
        }
    }

    fn batches(&self) -> Vec<Vec<Event>> {
        let mut batches = Vec::new();
        for delivery in &self.sent {
            match &delivery.message {
                Message::Batch(batch) => batches.push(batch.batch.clone()),
                Message::Event(_) => panic!("a single event was sent"),
            }
        }
        batches
    }
}

fn push(auto: &mut AutoBatcher, event: Event, transport: &mut Recorder) -> Result<(), Error> {
    match auto.push(event)? {
        Pushed::Accepted => Ok(()),
        Pushed::Overflow { delivery, deferred } => {
            let sent = transport.send(delivery);
            match auto.retry(deferred, sent)? {
                None => Ok(()),
                Some(_) => panic!("the emptied buffer refused the event"),
            }
        }
    }
}

fn flush(auto: &mut AutoBatcher, transport: &mut Recorder) -> Result<(), Error> {
    match auto.flush() {
        Some(delivery) => transport.send(delivery),
        None => Ok(()),
    }
}

#[test]
fn third_event_flushes_the_first_two() {
    let mut auto = auto_batcher(None, 100, 10);
    let mut transport = Recorder::new();
    assert_eq!(event(1, 40).serialized_size(), 40);

    assert_eq!(push(&mut auto, event(1, 40), &mut transport), Ok(()));
    assert_eq!(auto.batcher().byte_count(), 50);
    assert_eq!(push(&mut auto, event(2, 40), &mut transport), Ok(()));
    assert_eq!(auto.batcher().byte_count(), 90);
    assert_eq!(auto.len(), 2);
    assert!(transport.sent.is_empty());

    assert_eq!(push(&mut auto, event(3, 40), &mut transport), Ok(()));
    assert_eq!(transport.batches(), vec![vec![event(1, 40), event(2, 40)]]);
    assert_eq!(auto.len(), 1);
    assert_eq!(auto.batcher().byte_count(), 50);

    assert_eq!(flush(&mut auto, &mut transport), Ok(()));
    assert_eq!(
        transport.batches(),
        vec![vec![event(1, 40), event(2, 40)], vec![event(3, 40)]]
    );
}

#[test]
fn oversized_event_is_refused_and_nothing_is_sent() {
    let mut auto = auto_batcher(None, 100, 10);
    let mut transport = Recorder::new();
    assert_eq!(push(&mut auto, event(1, 150), &mut transport), Err(Error::MessageTooLarge));
    assert_eq!(auto.len(), 0);
    assert!(auto.is_empty());
    assert_eq!(auto.batcher().byte_count(), 10);
    assert!(transport.sent.is_empty());
}

#[test]
fn oversized_event_does_not_flush_a_filled_buffer() {
    let mut auto = auto_batcher(None, 100, 10);
    let mut transport = Recorder::new();
    assert_eq!(push(&mut auto, event(1, 40), &mut transport), Ok(()));
    assert_eq!(push(&mut auto, event(2, 150), &mut transport), Err(Error::MessageTooLarge));
    assert_eq!(auto.len(), 1);
    assert_eq!(auto.batcher().byte_count(), 50);
    assert!(transport.sent.is_empty());
}

#[test]
fn accepted_push_adds_one_event() {
    let mut auto = auto_batcher(None, 1000, 10);
    for count in 0..5 {
        assert_eq!(auto.len(), count);
        assert_eq!(auto.push(event(count as u8, 20)), Ok(Pushed::Accepted));
        assert_eq!(auto.len(), count + 1);
    }
}

#[test]
fn overflow_hands_out_everything_buffered_and_the_event() {
    let context = b"{\"app\":\"test\"}".to_vec();
    let mut auto = auto_batcher(Some(context.clone()), 100, 10);
    assert_eq!(auto.push(event(1, 30)), Ok(Pushed::Accepted));
    assert_eq!(auto.push(event(2, 30)), Ok(Pushed::Accepted));
    assert_eq!(auto.push(event(3, 30)), Ok(Pushed::Accepted));
    let pushed = auto.push(event(4, 30));
    assert_eq!(
        pushed,
        Ok(Pushed::Overflow {
            delivery: Delivery {
                write_key: "key".to_string(),
                message: Message::Batch(Batch {
                    batch: vec![event(1, 30), event(2, 30), event(3, 30)],
                    context: Some(context.clone()),
                }),
            },
            deferred: event(4, 30),
        })
    );
    assert!(auto.is_empty());
    assert_eq!(auto.batcher().byte_count(), 10);
    assert_eq!(auto.batcher().context(), &Some(context));
    assert_eq!(auto.retry(event(4, 30), Ok(())), Ok(None));
    assert_eq!(auto.len(), 1);
    assert_eq!(auto.batcher().byte_count(), 40);
}

#[test]
fn retry_after_failed_delivery_passes_the_error_on() {
    let mut auto = auto_batcher(None, 100, 10);
    assert_eq!(auto.push(event(1, 60)), Ok(Pushed::Accepted));
    let deferred = match auto.push(event(2, 60)) {
        Ok(Pushed::Overflow { deferred, .. }) => deferred,
        other => panic!("no overflow: {:?}", other),
    };
    assert_eq!(deferred, event(2, 60));
    assert_eq!(auto.retry(deferred, Err(Error::DeliveryFailed)), Err(Error::DeliveryFailed));
    assert!(auto.is_empty());
    assert_eq!(auto.batcher().byte_count(), 10);
}

#[test]
fn retry_into_a_buffer_that_was_filled_meanwhile_hands_the_event_back() {
    let mut auto = auto_batcher(None, 100, 10);
    assert_eq!(auto.push(event(1, 60)), Ok(Pushed::Accepted));
    let deferred = match auto.push(event(2, 60)) {
        Ok(Pushed::Overflow { deferred, .. }) => deferred,
        other => panic!("no overflow: {:?}", other),
    };
    assert_eq!(auto.push(event(3, 60)), Ok(Pushed::Accepted));
    assert_eq!(auto.retry(deferred, Ok(())), Ok(Some(event(2, 60))));
    assert_eq!(auto.len(), 1);
    assert_eq!(auto.batcher().byte_count(), 70);
}

#[test]
fn failed_delivery_drops_the_batch_and_the_event() {
    let mut auto = auto_batcher(None, 100, 10);
    let mut transport = Recorder::new();
    assert_eq!(push(&mut auto, event(1, 40), &mut transport), Ok(()));
    assert_eq!(push(&mut auto, event(2, 40), &mut transport), Ok(()));
    transport.failing = true;
    assert_eq!(push(&mut auto, event(3, 40), &mut transport), Err(Error::DeliveryFailed));
    assert_eq!(transport.batches(), vec![vec![event(1, 40), event(2, 40)]]);
    assert!(auto.is_empty());
    assert_eq!(auto.batcher().byte_count(), 10);

    transport.failing = false;
    assert_eq!(push(&mut auto, event(4, 40), &mut transport), Ok(()));
    assert_eq!(auto.len(), 1);
    assert_eq!(auto.batcher().byte_count(), 50);
}

#[test]
fn failed_flush_loses_the_batch() {
    let mut auto = auto_batcher(None, 100, 10);
    let mut transport = Recorder::new();
    transport.failing = true;
    assert_eq!(push(&mut auto, event(1, 40), &mut transport), Ok(()));
    assert_eq!(flush(&mut auto, &mut transport), Err(Error::DeliveryFailed));
    assert_eq!(transport.sent.len(), 1);
    assert!(auto.is_empty());
    assert_eq!(flush(&mut auto, &mut transport), Ok(()));
    assert_eq!(transport.sent.len(), 1);
}

#[test]
fn flush_of_empty_buffer_sends_nothing() {
    let mut auto = auto_batcher(Some(b"{}".to_vec()), 100, 10);
    let mut transport = Recorder::new();
    assert_eq!(auto.flush(), None);
    assert_eq!(flush(&mut auto, &mut transport), Ok(()));
    assert!(transport.sent.is_empty());
    assert!(auto.is_empty());
    assert_eq!(auto.batcher().byte_count(), 10);
}

#[test]
fn flush_sends_buffered_events_with_context_and_key() {
    let context = b"{\"library\":{\"name\":\"x\"}}".to_vec();
    let mut auto = auto_batcher(Some(context.clone()), 100, 10);
    assert_eq!(auto.push(event(7, 20)), Ok(Pushed::Accepted));
    assert_eq!(auto.push(event(8, 25)), Ok(Pushed::Accepted));
    assert_eq!(
        auto.flush(),
        Some(Delivery {
            write_key: "key".to_string(),
            message: Message::Batch(Batch {
                batch: vec![event(7, 20), event(8, 25)],
                context: Some(context.clone()),
            }),
        })
    );
    assert!(auto.is_empty());
    assert_eq!(auto.batcher().byte_count(), 10);
    assert_eq!(auto.batcher().context(), &Some(context));
    assert_eq!(auto.flush(), None);
}

#[test]
fn every_pushed_event_is_delivered_once_and_in_order() {
    let mut auto = auto_batcher(None, 200, 10);
    let mut transport = Recorder::new();
    let mut pushed = Vec::new();
    for round in 0..60usize {
        let next = event(round as u8, 3 + (round * 37) % 150);
        pushed.push(next.clone());
        assert_eq!(push(&mut auto, next, &mut transport), Ok(()));
        assert!(auto.batcher().byte_count() <= 200);
    }
    assert_eq!(flush(&mut auto, &mut transport), Ok(()));
    assert!(auto.is_empty());

    let batches = transport.batches();
    assert!(batches.len() > 1);
    for batch in &batches {
        assert!(!batch.is_empty());
        let size: usize = batch.iter().map(|event| event.serialized_size()).sum();
        assert!(10 + size <= 200);
    }
    let delivered: Vec<Event> = batches.into_iter().flatten().collect();
    assert_eq!(delivered.len(), pushed.len());
    assert_eq!(delivered, pushed);
}

#[test]
fn len_and_is_empty_of_auto_batcher_change_nothing() {
    let mut auto = auto_batcher(None, 100, 10);
    assert_eq!(auto.push(event(1, 40)), Ok(Pushed::Accepted));
    for _ in 0..3 {
        assert_eq!(auto.len(), 1);
        assert!(!auto.is_empty());
    }
    assert_eq!(auto.batcher().byte_count(), 50);
    assert_eq!(auto.key(), "key");
    assert_eq!(auto.client().host(), "http://localhost");
    assert_eq!(
        auto.flush().map(|delivery| delivery.message),
        Some(Message::Batch(Batch { batch: vec![event(1, 40)], context: None }))
    );
}

#[test]
fn separate_auto_batchers_do_not_share_a_buffer() {
    let mut first = auto_batcher(None, 100, 10);
    let mut second = auto_batcher(None, 100, 10);
    assert_eq!(first.push(event(1, 40)), Ok(Pushed::Accepted));
    assert_eq!(first.len(), 1);
    assert_eq!(second.len(), 0);
    assert_eq!(second.flush(), None);
    assert_eq!(first.len(), 1);
}
