//! Sample distribution and latest-value cells: ordering, lag, and
//! change notification.

use vd_driver::cell::{CellReader, LatestCell};
use vd_driver::hub::{PollOutcome, SampleHub};
use vd_driver::utils::Sample;

#[test]
fn consumer_observes_publish_order_without_gaps() {
    let mut hub = SampleHub::new(8);
    let mut rx = hub.subscribe();
    for i in 0..5u8 {
        hub.publish(Sample::new(&[i], i as u64 * 10, 33_000));
    }
    let got = hub.drain_available(&mut rx);
    assert_eq!(got.len(), 5);
    for (i, s) in got.iter().enumerate() {
        assert_eq!(s.data, vec![i as u8]);
        assert_eq!(s.timestamp_ms, i as u64 * 10);
    }
    // Nothing is delivered twice.
    assert!(matches!(hub.poll(&mut rx), PollOutcome::Empty));
}

#[test]
fn lagging_consumer_is_told_and_resumes_from_oldest() {
    let mut hub = SampleHub::new(2);
    let mut rx = hub.subscribe();
    for i in 0..5u8 {
        hub.publish(Sample::new(&[i], 0, 0));
    }
    // History keeps the last two samples; three were lost.
    match hub.poll(&mut rx) {
        PollOutcome::Lagged { missed } => assert_eq!(missed, 3),
        _ => panic!("expected lag"),
    }
    match hub.poll(&mut rx) {
        PollOutcome::Next { sample } => assert_eq!(sample.data, vec![3]),
        _ => panic!("expected sample"),
    }
    match hub.poll(&mut rx) {
        PollOutcome::Next { sample } => assert_eq!(sample.data, vec![4]),
        _ => panic!("expected sample"),
    }
    assert!(matches!(hub.poll(&mut rx), PollOutcome::Empty));
}

#[test]
fn subscriptions_drive_the_viewer_count() {
    let mut hub = SampleHub::new(4);
    assert_eq!(hub.consumer_count(), 0);
    let a = hub.subscribe();
    let b = hub.subscribe();
    assert_eq!(hub.consumer_count(), 2);
    hub.unsubscribe(a);
    assert_eq!(hub.consumer_count(), 1);
    hub.unsubscribe(b);
    assert_eq!(hub.consumer_count(), 0);
}

#[test]
fn late_subscriber_sees_only_later_samples() {
    let mut hub = SampleHub::new(8);
    hub.publish(Sample::new(&[1], 0, 0));
    let mut rx = hub.subscribe();
    hub.publish(Sample::new(&[2], 0, 0));
    let got = hub.drain_available(&mut rx);
    assert_eq!(got.len(), 1);
    assert_eq!(got[0].data, vec![2]);
}

#[test]
fn latest_value_cell_hands_out_current_value() {
    let mut cell: LatestCell<u32> = LatestCell::new();
    let mut reader = CellReader::new();
    assert!(!reader.changed(&cell));
    assert!(cell.get().is_none());

    cell.publish(7);
    cell.publish(9);
    assert!(reader.changed(&cell));
    // A late reader sees the latest value, not the history.
    assert_eq!(*reader.read(&cell), Some(9));
    assert!(!reader.changed(&cell));

    cell.publish(11);
    assert!(reader.changed(&cell));
    assert_eq!(*reader.read(&cell), Some(11));
}

#[test]
fn sample_latency_accounting() {
    let s = Sample::new(&[1], 1_000, 16_000);
    assert_eq!(s.record_end_to_end_latency(1_250), Some(250));
    assert_eq!(s.record_end_to_end_latency(900), None);
    assert_eq!(s.duration_us, 16_000);
}
