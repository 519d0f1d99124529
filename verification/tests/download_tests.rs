//! Download manager behaviour: resume requests, content-range totals,
//! and progress reporting.

use speaky::model_manager::{
    cancellation_check, parse_u64_decimal, range_header_value, resume_range_header,
    total_from_content_range, total_size_for, DownloadTracker,
};
use speaky::provider::AsrError;

#[test]
fn resume_requests_range_from_partial_size() {
    assert_eq!(range_header_value(1024), "bytes=1024-");
    assert_eq!(range_header_value(0), "bytes=0-");
    assert_eq!(resume_range_header(0), None);
    assert_eq!(resume_range_header(75_000_000).as_deref(), Some("bytes=75000000-"));
}

#[test]
fn content_range_total_is_number_after_last_slash() {
    assert_eq!(total_from_content_range("bytes 100-199/12345"), Some(12345));
    assert_eq!(total_from_content_range("bytes 0-0/1"), Some(1));
    assert_eq!(total_from_content_range("bytes 100-199/*"), None);
    assert_eq!(total_from_content_range(""), None);
    assert_eq!(total_from_content_range("12345"), Some(12345));
}

#[test]
fn decimal_parsing_rejects_junk_and_overflow() {
    assert_eq!(parse_u64_decimal(b"0"), Some(0));
    assert_eq!(parse_u64_decimal(b"18446744073709551615"), Some(u64::MAX));
    assert_eq!(parse_u64_decimal(b"18446744073709551616"), None);
    assert_eq!(parse_u64_decimal(b""), None);
    assert_eq!(parse_u64_decimal(b"12a4"), None);
    assert_eq!(parse_u64_decimal(b"-5"), None);
}

#[test]
fn total_size_prefers_content_range_when_resuming() {
    assert_eq!(total_size_for(500, Some("bytes 500-999/2000"), Some(1500)), 2000);
    assert_eq!(total_size_for(500, None, Some(1500)), 0);
    assert_eq!(total_size_for(0, Some("bytes 0-9/10"), Some(1500)), 1500);
    assert_eq!(total_size_for(0, None, None), 0);
}

#[test]
fn progress_percent_strictly_increases_and_never_repeats() {
    let mut tracker = DownloadTracker::new("m".to_string(), 0, 1000);
    let mut seen: Vec<u32> = Vec::new();
    for _ in 0..100 {
        if let Some(event) = tracker.on_chunk(10) {
            if let Some(last) = seen.last() {
                assert!(event.percent > *last);
            }
            seen.push(event.percent);
        }
    }
    // every distinct whole percent appears at most once
    let mut dedup = seen.clone();
    dedup.dedup();
    assert_eq!(seen, dedup);
    assert_eq!(*seen.last().unwrap(), 100);
    // the final update is not duplicated once 100 was reported
    assert!(tracker.finish().is_none());
}

#[test]
fn progress_emits_at_most_one_event_per_percent_step() {
    let mut tracker = DownloadTracker::new("m".to_string(), 0, 1000);
    // ten tiny chunks inside one percent step: at most one event
    let mut events = 0;
    for _ in 0..10 {
        if tracker.on_chunk(1).is_some() {
            events += 1;
        }
    }
    assert!(events <= 1);
    assert_eq!(tracker.downloaded, 10);
}

#[test]
fn resumed_download_assembles_exact_total() {
    // a partial temp file of 400 bytes out of 1000: the tracker counts
    // from 400 and ends exactly at the total
    let mut tracker = DownloadTracker::new("m".to_string(), 400, 1000);
    let chunks = [200u64, 200, 200];
    for len in chunks {
        tracker.on_chunk(len);
    }
    assert_eq!(tracker.downloaded, 1000);
    assert_eq!(tracker.total_bytes, 1000);
    let done = tracker.finish();
    assert!(done.is_none() || done.unwrap().percent == 100);
}

#[test]
fn final_update_reports_hundred_percent_once() {
    let mut tracker = DownloadTracker::new("m".to_string(), 0, 0);
    // unknown total: chunks report nothing, the final update closes at 100
    assert!(tracker.on_chunk(50).is_none());
    let done = tracker.finish().unwrap();
    assert_eq!(done.percent, 100);
    assert_eq!(done.model_id, "m");
    assert!(tracker.finish().is_none());
}

#[test]
fn cancellation_is_reported_as_its_own_kind() {
    assert!(cancellation_check(false).is_ok());
    match cancellation_check(true) {
        Err(AsrError::Cancelled(m)) => assert_eq!(m, "下载已取消"),
        other => panic!("unexpected: {:?}", other),
    }
}
