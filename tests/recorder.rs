use squant::recorder::{LatencyRecorder, RecordAction, FLUSH_SIZE};

#[test]
fn every_value_is_written_and_flushed_in_pairs() {
    assert_eq!(FLUSH_SIZE, 2);
    let mut r = LatencyRecorder::new();
    assert_eq!(r.record(5), RecordAction { write: true, flush: false });
    assert_eq!(r.record(5), RecordAction { write: true, flush: true });
    assert_eq!(r.record(7), RecordAction { write: true, flush: false });
    assert_eq!(r.written(), 3);
}

#[test]
fn deduplicating_writes_each_value_once() {
    let mut r = LatencyRecorder::deduplicating();
    assert_eq!(r.record(5), RecordAction { write: true, flush: false });
    assert_eq!(r.record(5), RecordAction { write: false, flush: false });
    assert_eq!(r.record(6), RecordAction { write: true, flush: true });
    assert_eq!(r.record(5), RecordAction { write: false, flush: false });
    assert_eq!(r.record(7), RecordAction { write: true, flush: false });
    assert_eq!(r.written(), 3);
}
