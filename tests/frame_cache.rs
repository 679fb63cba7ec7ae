use observer_core::frame_cache::{ServerState, LIVENESS_WINDOW_MS};

#[test]
fn new_cache_is_idle_and_empty() {
    let s = ServerState::new();
    assert!(s.read_frame(0).is_none());
    let st = s.read_status(0);
    assert!(!st.is_active);
    assert!(!st.is_stale);
    assert_eq!(st.frame_count, 0);
    assert_eq!(st.started_at, None);
}

#[test]
fn ingests_keep_one_frame_and_count_since_start() {
    let mut s = ServerState::new();
    s.ingest(vec![9], 50);
    s.mark_broadcast_start(1_000);
    for i in 0..5u64 {
        s.ingest(vec![i as u8, 1, 2], 1_000 + i);
    }
    let st = s.read_status(1_004);
    assert_eq!(st.frame_count, 5);
    assert_eq!(st.last_frame_at, Some(1_004));
    let f = s.read_frame(1_010).unwrap();
    assert_eq!(f.bytes, vec![4, 1, 2]);
    assert_eq!(f.age_ms, 6);
}

#[test]
fn start_clears_an_earlier_frame() {
    let mut s = ServerState::new();
    s.ingest(vec![1, 2, 3], 10);
    assert!(s.read_frame(10).is_some());
    s.mark_broadcast_start(20);
    assert!(s.read_frame(20).is_none());
    let st = s.read_status(20);
    assert!(st.is_active);
    assert_eq!(st.started_at, Some(20));
    assert_eq!(st.last_frame_at, None);
    assert_eq!(st.frame_count, 0);
}

#[test]
fn stop_keeps_frame_and_counters() {
    let mut s = ServerState::new();
    s.mark_broadcast_start(0);
    s.ingest(vec![7], 100);
    s.ingest(vec![8], 200);
    s.mark_broadcast_stop();
    let st = s.read_status(100_000);
    assert!(!st.is_active);
    assert_eq!(st.frame_count, 2);
    assert_eq!(s.read_frame(300).unwrap().bytes, vec![8]);
}

#[test]
fn stale_when_active_without_frames() {
    let mut s = ServerState::new();
    s.mark_broadcast_start(0);
    assert!(s.is_stale(0));
    assert!(s.read_status(0).is_stale);
}

#[test]
fn stale_only_past_the_liveness_window() {
    let mut s = ServerState::new();
    s.mark_broadcast_start(0);
    s.ingest(vec![1], 10_000);
    assert_eq!(LIVENESS_WINDOW_MS, 3000);
    assert!(!s.is_stale(10_000));
    assert!(!s.is_stale(13_000));
    assert!(s.is_stale(13_001));
}

#[test]
fn never_stale_when_inactive() {
    let mut s = ServerState::new();
    s.mark_broadcast_start(0);
    s.ingest(vec![1], 10);
    s.mark_broadcast_stop();
    assert!(!s.is_stale(1_000_000));
    let idle = ServerState::new();
    assert!(!idle.is_stale(1_000_000));
}

#[test]
fn clock_going_back_is_neither_stale_nor_aged() {
    let mut s = ServerState::new();
    s.mark_broadcast_start(0);
    s.ingest(vec![1], 10_000);
    assert!(!s.is_stale(5));
    assert_eq!(s.read_frame(5).unwrap().age_ms, 0);
}

#[test]
fn snapshot_encodes_frame_as_base64() {
    let mut s = ServerState::new();
    s.mark_broadcast_start(0);
    s.ingest(b"hi".to_vec(), 42);
    let snap = s.get_broadcast_status(43);
    assert!(snap.is_active);
    assert!(!snap.is_stale);
    assert_eq!(snap.frame.as_deref(), Some("aGk="));
    assert_eq!(snap.timestamp, Some(42));
    assert_eq!(snap.frame_count, 1);
}

#[test]
fn snapshot_without_frame() {
    let s = ServerState::new();
    let snap = s.get_broadcast_status(0);
    assert_eq!(snap.frame, None);
    assert_eq!(snap.timestamp, None);
}

#[test]
fn snapshot_with_given_text() {
    let mut s = ServerState::new();
    s.ingest(vec![0xff], 3);
    let snap = s.snapshot_with(4, Some("/w==".to_string()));
    assert_eq!(snap.frame.as_deref(), Some("/w=="));
    assert_eq!(snap.timestamp, Some(3));
    assert_eq!(s.get_broadcast_status(4).frame.as_deref(), Some("/w=="));
}
