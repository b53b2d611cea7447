// The delivery channel between the execution worker and the consumer is
// bounded: once it holds its capacity of undelivered items the producer
// cannot advance, and it resumes only as the consumer takes items off. The
// channel is the deployment's (flume's); the items are this library's.

use any_bridge::stream::{ConcreteItem, StreamEvent};
use any_bridge::summary::ConcreteSummary;

fn summary_event(n: u64) -> StreamEvent {
    StreamEvent::Item(ConcreteItem::Summary(ConcreteSummary {
        rows_affected: n,
        last_insert_rowid: 0,
    }))
}

#[test]
fn a_full_channel_blocks_the_producer() {
    let capacity: usize = 4;
    let (tx, rx) = flume::bounded::<StreamEvent>(capacity);

    // The producer advances exactly `capacity` items and no further.
    let mut produced: u64 = 0;
    for n in 0..(capacity as u64 + 3) {
        match tx.try_send(summary_event(n)) {
            Ok(()) => produced += 1,
            Err(flume::TrySendError::Full(_)) => break,
            Err(e) => panic!("unexpected channel failure: {:?}", e),
        }
    }
    assert_eq!(produced, capacity as u64);

    // Consuming one item lets the producer advance by exactly one.
    let first = rx.recv().unwrap();
    assert_eq!(first, summary_event(0));
    assert!(tx.try_send(summary_event(100)).is_ok());
    assert!(matches!(
        tx.try_send(summary_event(101)),
        Err(flume::TrySendError::Full(_))
    ));
}

#[test]
fn a_dropped_producer_ends_the_stream_not_the_process() {
    let (tx, rx) = flume::bounded::<StreamEvent>(2);
    tx.send(summary_event(1)).unwrap();
    drop(tx);
    assert_eq!(rx.recv().unwrap(), summary_event(1));
    // The broken channel is visible as a disconnect, for the runtime to
    // surface as a backend failure — never as a silent end of the sequence.
    assert!(matches!(rx.recv(), Err(flume::RecvError::Disconnected)));
}
