//! The receiver's latest packet and arrival-time log.

use dora_openarm_vr::receiver::{ReceiverState, MAX_TIMESTAMPS};

#[test]
fn a_fresh_receiver_has_no_latest_message_or_timestamps() {
    let state = ReceiverState::new();
    assert!(state.latest().is_none());
    let mut state = state;
    assert!(state.drain_recv_timestamps().is_empty());
}

#[test]
fn a_valid_datagram_becomes_the_latest_message_and_records_its_timestamp() {
    let mut state = ReceiverState::new();
    state.record_datagram(100, br#"{"v": 0}"#);

    assert!(state.latest().is_some());
    assert_eq!(state.drain_recv_timestamps(), vec![100]);
}

#[test]
fn an_unparseable_datagram_updates_neither_latest_nor_timestamps() {
    let mut state = ReceiverState::new();
    state.record_datagram(100, b"not json");

    assert!(state.latest().is_none());
    assert!(state.drain_recv_timestamps().is_empty());
}

#[test]
fn a_later_unparseable_datagram_does_not_overwrite_the_previous_latest() {
    let mut state = ReceiverState::new();
    state.record_datagram(100, br#"{"v": 0}"#);
    state.record_datagram(200, b"not json");

    let latest = state.latest().unwrap();
    assert_eq!(latest.get_integer("v"), Some(0));
    assert_eq!(state.drain_recv_timestamps(), vec![100]);
}

#[test]
fn latest_reflects_the_most_recently_parsed_message() {
    let mut state = ReceiverState::new();
    state.record_datagram(100, br#"{"v": 0}"#);
    state.record_datagram(200, br#"{"v": 1}"#);

    assert_eq!(state.latest().unwrap().get_integer("v"), Some(1));
}

#[test]
fn draining_timestamps_clears_them_but_not_the_latest_message() {
    let mut state = ReceiverState::new();
    state.record_datagram(100, br#"{"v": 0}"#);

    assert_eq!(state.drain_recv_timestamps(), vec![100]);
    assert!(state.drain_recv_timestamps().is_empty());
    assert!(state.latest().is_some());
}

#[test]
fn timestamps_accumulate_across_multiple_datagrams_in_arrival_order() {
    let mut state = ReceiverState::new();
    state.record_datagram(10, br#"{"v": 0}"#);
    state.record_datagram(20, br#"{"v": 0}"#);
    state.record_datagram(30, br#"{"v": 0}"#);

    assert_eq!(state.drain_recv_timestamps(), vec![10, 20, 30]);
}

#[test]
fn timestamp_log_evicts_the_oldest_entry_beyond_512() {
    let mut state = ReceiverState::new();
    for i in 0..515i64 {
        state.record_datagram(i, br#"{"v": 0}"#);
    }

    let drained = state.drain_recv_timestamps();
    assert_eq!(drained.len(), 512);
    assert_eq!(drained.first(), Some(&3));
    assert_eq!(drained.last(), Some(&514));
}

#[test]
fn the_log_holds_exactly_512_entries_at_the_limit() {
    let mut state = ReceiverState::new();
    for i in 0..512i64 {
        state.record_datagram(i, br#"{}"#);
    }
    let drained = state.drain_recv_timestamps();
    assert_eq!(drained.len(), MAX_TIMESTAMPS);
    assert_eq!(drained.first(), Some(&0));
    assert_eq!(drained.last(), Some(&511));
}

#[test]
fn a_batch_recorded_one_at_a_time_logs_only_the_parsed_datagrams() {
    // One batch: parsed, unparseable, parsed, empty, parsed.
    let batch: [(i64, &[u8]); 5] = [
        (1, br#"{"v": 0}"#),
        (2, b"garbage"),
        (3, br#"{"v": 1}"#),
        (4, b""),
        (5, br#"{"v": 2}"#),
    ];
    let mut state = ReceiverState::new();
    for (t, data) in batch {
        state.record_datagram(t, data);
    }
    assert_eq!(state.latest().unwrap().get_integer("v"), Some(2));
    assert_eq!(state.drain_recv_timestamps(), vec![1, 3, 5]);
}

#[test]
fn an_unparseable_datagram_after_draining_keeps_the_log_empty() {
    let mut state = ReceiverState::new();
    state.record_datagram(1, br#"{"v": 0}"#);
    let _ = state.drain_recv_timestamps();
    state.record_datagram(2, b"[1]");
    assert!(state.drain_recv_timestamps().is_empty());
    assert_eq!(state.latest().unwrap().get_integer("v"), Some(0));
}

#[test]
fn a_cloned_state_keeps_the_latest_packet_and_the_log() {
    let mut state = ReceiverState::default();
    state.record_datagram(7, br#"{"v": 3}"#);
    let mut copy = state.clone();
    assert_eq!(copy.latest().unwrap().get_integer("v"), Some(3));
    assert_eq!(copy.drain_recv_timestamps(), vec![7]);
    assert_eq!(state.drain_recv_timestamps(), vec![7]);
}
