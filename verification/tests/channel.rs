use crossbeam_channel::bounded;
use druidaw::channel::{
    closed_unless, delivery_of_blocking, receive_blocking, send_blocking, Delivery, ReceiveError,
    DEFAULT_CHANNEL_CAPACITY, MAX_CHANNEL_CAPACITY,
};
use druidaw::fanout::{FanoutDistributor, OverflowPolicy};

#[test]
fn channel_capacities() {
    assert_eq!(DEFAULT_CHANNEL_CAPACITY, 4800);
    assert_eq!(MAX_CHANNEL_CAPACITY, 16_777_216);
}

#[test]
fn closed_unless_a_sample_came() {
    assert_eq!(closed_unless(Some(0.5)), Ok(0.5));
    assert_eq!(closed_unless::<f64>(None), Err(ReceiveError::Closed));
}

#[test]
fn blocking_delivery_is_enqueued_or_dropped() {
    assert_eq!(delivery_of_blocking(true), Delivery::Enqueued);
    assert_eq!(delivery_of_blocking(false), Delivery::ReceiverDropped);
}

#[test]
fn receive_blocking_returns_what_is_queued_in_order() {
    let (producer, consumer) = bounded::<f64>(4);
    assert_eq!(send_blocking(&producer, 0.25), Delivery::Enqueued);
    assert_eq!(send_blocking(&producer, -0.75), Delivery::Enqueued);
    assert_eq!(receive_blocking(&consumer), Ok(0.25));
    assert_eq!(receive_blocking(&consumer), Ok(-0.75));
}

#[test]
fn receive_blocking_reports_a_closed_channel() {
    let (producer, consumer) = bounded::<f64>(4);
    assert_eq!(send_blocking(&producer, 1.0), Delivery::Enqueued);
    drop(producer);
    assert_eq!(receive_blocking(&consumer), Ok(1.0));
    assert_eq!(receive_blocking(&consumer), Err(ReceiveError::Closed));
}

#[test]
fn send_blocking_reports_a_dropped_receiver() {
    let (producer, consumer) = bounded::<f64>(4);
    drop(consumer);
    assert_eq!(send_blocking(&producer, 1.0), Delivery::ReceiverDropped);
}

/// A producer under backpressure, on one thread: it offers its pending
/// samples for as long as the channel takes them.
fn pump(distributor: &FanoutDistributor<u32>, pending: &mut Vec<u32>) {
    while let Some(sample) = pending.first().copied() {
        if distributor.distribute(sample)[0] != Delivery::Enqueued {
            break;
        }
        pending.remove(0);
    }
}

fn held_after(n: u32, capacity: usize, drained: usize) -> usize {
    let mut distributor = FanoutDistributor::new();
    let consumer = distributor.open_channel(capacity, OverflowPolicy::Reject);
    let mut pending: Vec<u32> = (0..n).collect();
    let mut received = Vec::new();
    pump(&distributor, &mut pending);
    assert!(consumer.len() <= capacity);
    while received.len() < drained {
        received.push(consumer.try_recv().unwrap());
        pump(&distributor, &mut pending);
        assert!(consumer.len() <= capacity);
    }
    let expected: Vec<u32> = (0..drained as u32).collect();
    assert_eq!(received, expected);
    consumer.len()
}

#[test]
fn channel_holds_min_of_backlog_and_capacity() {
    assert_eq!(held_after(10, 4, 3), 4);
    assert_eq!(held_after(10, 4, 7), 3);
    assert_eq!(held_after(10, 4, 0), 4);
    assert_eq!(held_after(3, 8, 1), 2);
    assert_eq!(held_after(100, 1, 99), 1);
    for n in 1..20u32 {
        for capacity in 1..6usize {
            for drained in 0..n as usize {
                let backlog = n as usize - drained;
                assert_eq!(held_after(n, capacity, drained), backlog.min(capacity));
            }
        }
    }
}
