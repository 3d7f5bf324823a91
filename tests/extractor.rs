use media_extractor::extractor::{MediaExtractor, SampleInfo, SampleRead, SeekMode, SourceBindingError};

fn opened() -> MediaExtractor {
    MediaExtractor::from_url(0).expect("status zero binds the handle")
}

fn step(count: isize, time: i64, flags: u32, advanced: bool) -> SampleRead {
    SampleRead { count, time, flags, advanced }
}

#[test]
fn seek_mode_codes() {
    assert_eq!(SeekMode::SeekClosestSync.code(), 2);
    assert_eq!(SeekMode::SeekNextSync.code(), 1);
    assert_eq!(SeekMode::SeekPreviousSync.code(), 0);
}

#[test]
fn open_sets_cursor() {
    assert!(opened().has_next());
}

#[test]
fn open_failure_reports_status_verbatim() {
    let r = MediaExtractor::from_url(-10000);
    assert_eq!(r.err(), Some(SourceBindingError { status: -10000 }));
    let r = MediaExtractor::from_url(7);
    assert_eq!(r.err(), Some(SourceBindingError { status: 7 }));
}

#[test]
fn track_format_in_range() {
    assert_eq!(MediaExtractor::track_format(0, 2), Some(0));
    assert_eq!(MediaExtractor::track_format(1, 2), Some(1));
}

#[test]
fn track_format_at_and_beyond_count() {
    assert_eq!(MediaExtractor::track_format(2, 2), None);
    assert_eq!(MediaExtractor::track_format(3, 2), None);
    assert_eq!(MediaExtractor::track_format(0, 0), None);
    assert_eq!(MediaExtractor::track_format(usize::MAX, 2), None);
}

#[test]
fn read_with_data_records_size_time_and_flags() {
    let mut m = opened();
    let mut buf = SampleInfo { write_size: 0, time: 0, flags: 0 };
    assert!(m.read_next(&mut buf, step(188, 40_000, 1, true)));
    assert_eq!(buf, SampleInfo { write_size: 188, time: 40_000, flags: 1 });
    assert!(m.has_next());
}

#[test]
fn read_without_data_records_flags_only() {
    let mut m = opened();
    let mut buf = SampleInfo { write_size: 12, time: 500, flags: 0 };
    assert!(m.read_next(&mut buf, step(0, 900, 2, true)));
    assert_eq!(buf, SampleInfo { write_size: 12, time: 500, flags: 2 });
    assert!(!m.read_next(&mut buf, step(-1, 950, 4, false)));
    assert_eq!(buf, SampleInfo { write_size: 12, time: 500, flags: 4 });
}

#[test]
fn negative_time_wraps_into_unsigned() {
    let mut m = opened();
    let mut buf = SampleInfo { write_size: 0, time: 0, flags: 0 };
    m.read_next(&mut buf, step(4, -1, 0, true));
    assert_eq!(buf.time, u64::MAX);
    assert_eq!(buf.write_size, 4);
}

#[test]
fn cursor_true_until_advance_fails() {
    let mut m = opened();
    let mut buf = SampleInfo { write_size: 0, time: 0, flags: 0 };
    for t in 0..5i64 {
        assert!(m.read_next(&mut buf, step(10, t, 0, true)));
        assert!(m.has_next());
    }
    assert!(!m.read_next(&mut buf, step(10, 5, 4, false)));
    assert!(!m.has_next());
}

#[test]
fn read_at_end_leaves_stale_buffer() {
    let mut m = opened();
    let mut buf = SampleInfo { write_size: 0, time: 0, flags: 0 };
    assert!(!m.read_next(&mut buf, step(64, 1_000, 4, false)));
    let stale = buf;
    assert_eq!(stale, SampleInfo { write_size: 64, time: 1_000, flags: 4 });
    for _ in 0..3 {
        assert!(!m.read_next(&mut buf, step(99, 2_000, 8, true)));
        assert_eq!(buf, stale);
        assert!(!m.has_next());
    }
}
