use punch_feeder::{
    LineOutcome, PendingBatch, Settlement, BACKOFF_PAUSE_MS, IDLE_PAUSE_MS, MIN_RECORD_WIDTH,
};

fn batch() -> PendingBatch {
    PendingBatch::new(String::from("SECRET-REDACTED"))
}

#[test]
fn new_batch_is_empty() {
    let b = batch();
    assert!(b.is_empty());
    assert_eq!(b.len(), 0);
    assert!(b.request().is_none());
}

#[test]
fn short_line_ends_drain_and_changes_nothing() {
    let mut b = batch();
    assert!(matches!(b.ingest("00000001 0031 08:00:00 0"), LineOutcome::Accepted(_)));
    let short = "12345   0042 10:30:15 ";
    assert!(short.len() < MIN_RECORD_WIDTH);
    assert!(matches!(b.ingest(short), LineOutcome::Incomplete));
    assert!(matches!(b.ingest(""), LineOutcome::Incomplete));
    assert_eq!(b.len(), 1);
}

#[test]
fn malformed_line_keeps_accumulated_punches() {
    let mut b = batch();
    b.ingest("00000001 0031 08:00:00 0");
    b.ingest("00000002 0032 08:00:01 0");
    match b.ingest("0000000x 0033 08:00:02 0") {
        LineOutcome::Rejected(e) => assert_eq!(e.raw, "0000000x"),
        _ => panic!("expected a rejected line"),
    }
    b.ingest("00000003 0034 08:00:03 0");
    let r = b.records();
    assert_eq!(r.len(), 3);
    assert_eq!((r[0].card, r[1].card, r[2].card), (1, 2, 3));
    assert_eq!((r[0].code, r[1].code, r[2].code), (31, 32, 34));
}

#[test]
fn cleared_only_after_success() {
    let mut b = batch();
    b.ingest("00000001 0031 08:00:00 0");
    match b.settle(false) {
        Settlement::Retained(n) => assert_eq!(n, 1),
        _ => panic!("expected the batch to be retained"),
    }
    assert_eq!(b.len(), 1);
    assert!(matches!(b.settle(true), Settlement::Delivered(_)));
    assert!(b.is_empty());
}

#[test]
fn failures_carry_every_punch_once() {
    let mut b = batch();
    let cycles = [
        vec!["00000001 0031 08:00:00 0", "bad line with 24 bytes.."],
        vec!["00000002 0032 08:00:01 0"],
        vec!["00000003 0033 08:00:02 0", "00000004 0034 08:00:03 0"],
    ];
    for (i, lines) in cycles.iter().enumerate() {
        for l in lines {
            b.ingest(l);
        }
        assert!(matches!(b.ingest(""), LineOutcome::Incomplete));
        let q = b.request().unwrap();
        let cards: Vec<i32> = q.records.iter().map(|p| p.card).collect();
        let expected: Vec<i32> = match i {
            0 => vec![1],
            1 => vec![1, 2],
            _ => vec![1, 2, 3, 4],
        };
        assert_eq!(cards, expected);
        assert_eq!(q.api_token, "SECRET-REDACTED");
        if i < 2 {
            b.settle(false);
        }
    }
}

#[test]
fn retried_delivery_resends_same_records() {
    let mut b = batch();
    b.ingest("00000001 0031 08:00:00 0");
    b.ingest("00000002 0032 08:00:01 0");
    let first = b.request().unwrap();
    b.settle(false);
    let second = b.request().unwrap();
    assert_eq!(first.records, second.records);
    assert_eq!(first.api_token, second.api_token);
}

#[test]
fn confirmation_lists_entries_in_order() {
    let mut b = batch();
    b.ingest("00000007 0031 08:00:00 0");
    b.ingest("00000005 0030 08:00:10 0");
    match b.settle(true) {
        Settlement::Delivered(v) => {
            assert_eq!(v, vec![(31, 7, 28800), (30, 5, 28810)]);
        }
        _ => panic!("expected a delivery"),
    }
}

#[test]
fn pauses() {
    assert_eq!(Settlement::Delivered(Vec::new()).pause_ms(), IDLE_PAUSE_MS);
    assert_eq!(Settlement::Retained(3).pause_ms(), IDLE_PAUSE_MS + BACKOFF_PAUSE_MS);
    assert_eq!(IDLE_PAUSE_MS, 100);
    assert_eq!(BACKOFF_PAUSE_MS, 5000);
}
