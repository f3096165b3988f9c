use rftools::record::{passes_filter, ReadRecord};

fn record_of_len(len: usize) -> ReadRecord {
    ReadRecord {
        read_id: b"r1".to_vec(),
        seq: vec![65u8; len],
        quals: vec![30u8; len],
        is_secondary: false,
        is_supplementary: false,
        has_duplex_tag: false,
    }
}

#[test]
fn no_thresholds_passes() {
    let rec = record_of_len(4);
    assert!(passes_filter(&rec, None, None));
}

#[test]
fn quality_at_threshold_rejected() {
    // The average quality equals the configured threshold, so the strict
    // comparison computed by the caller is false and the record must fail.
    let rec = record_of_len(4);
    assert!(!passes_filter(&rec, None, Some(false)));
}

#[test]
fn quality_above_threshold_passes() {
    let rec = record_of_len(4);
    assert!(passes_filter(&rec, None, Some(true)));
}

#[test]
fn length_at_threshold_rejected() {
    let rec = record_of_len(100);
    assert!(!passes_filter(&rec, Some(100), None));
}

#[test]
fn length_below_threshold_rejected() {
    let rec = record_of_len(99);
    assert!(!passes_filter(&rec, Some(100), None));
}

#[test]
fn length_above_threshold_passes() {
    let rec = record_of_len(101);
    assert!(passes_filter(&rec, Some(100), None));
}

#[test]
fn secondary_always_rejected() {
    let mut rec = record_of_len(101);
    rec.is_secondary = true;
    assert!(!passes_filter(&rec, Some(100), Some(true)));
    assert!(!passes_filter(&rec, None, None));
}

#[test]
fn supplementary_always_rejected() {
    let mut rec = record_of_len(101);
    rec.is_supplementary = true;
    assert!(!passes_filter(&rec, Some(100), Some(true)));
    assert!(!passes_filter(&rec, None, None));
}
