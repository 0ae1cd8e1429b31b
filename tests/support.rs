use staged_commit::queue::{check_queue_top, remove_all_pending_elements};
use staged_commit::registry::{receive_who_am_i, PeerEntry, PeerRegistry};
use staged_commit::state::State;
use staged_commit::time::{get_seconds_diff, get_timeout, BlockTime};

#[test]
fn queue_top_checks_head_only() {
    assert!(!check_queue_top(vec![], 1));
    assert!(check_queue_top(vec![1, 2], 1));
    assert!(!check_queue_top(vec![1, 2], 2));
}

#[test]
fn remove_cuts_from_first_match() {
    let mut q = vec![1, 2, 3, 2, 4];
    let removed = remove_all_pending_elements(&mut q, 2);
    assert_eq!(q, vec![1]);
    assert_eq!(removed, vec![2, 3, 2, 4]);
}

#[test]
fn remove_at_head_empties_queue() {
    let mut q = vec![5, 6];
    let removed = remove_all_pending_elements(&mut q, 5);
    assert!(q.is_empty());
    assert_eq!(removed, vec![5, 6]);
}

#[test]
fn remove_absent_id_keeps_queue() {
    let mut q = vec![5, 6];
    let removed = remove_all_pending_elements(&mut q, 9);
    assert_eq!(q, vec![5, 6]);
    assert!(removed.is_empty());
    let mut e: Vec<u32> = vec![];
    assert!(remove_all_pending_elements(&mut e, 9).is_empty());
}

#[test]
fn remove_last_element() {
    let mut q = vec![5, 6, 7];
    assert_eq!(remove_all_pending_elements(&mut q, 7), vec![7]);
    assert_eq!(q, vec![5, 6]);
}

#[test]
fn handshake_records_channel_with_no_abort() {
    let mut reg = PeerRegistry::new();
    assert_eq!(reg.len(), 0);
    receive_who_am_i(&mut reg, "channel-1".to_string(), 7);
    let e = reg.lookup(7).unwrap();
    assert_eq!(e.channel_id, "channel-1");
    assert_eq!(e.highest_abort, -1);
    assert!(reg.lookup(8).is_none());
}

#[test]
fn repeated_handshake_overwrites_without_duplicating() {
    let mut reg = PeerRegistry::new();
    let s = State::new(1, BlockTime::from_nanos(0));
    receive_who_am_i(&mut reg, "channel-1".to_string(), 7);
    receive_who_am_i(&mut reg, "channel-1".to_string(), 7);
    assert_eq!(reg.len(), 1);
    reg.record(7, PeerEntry { channel_id: "channel-1".to_string(), highest_abort: 4 });
    receive_who_am_i(&mut reg, "channel-2".to_string(), 7);
    assert_eq!(reg.len(), 1);
    let e = reg.lookup(7).unwrap();
    assert_eq!(e.channel_id, "channel-2");
    assert_eq!(e.highest_abort, -1);
    receive_who_am_i(&mut reg, "channel-3".to_string(), 9);
    assert_eq!(reg.len(), 2);
    assert_eq!(reg.lookup(7).unwrap().channel_id, "channel-2");
    assert_eq!(s.node_number, 1);
}

#[test]
fn timeout_is_packet_lifetime_later() {
    let t = get_timeout(BlockTime::from_nanos(5));
    assert_eq!(t.nanos, 5 + 3_600_000u64 * 1_000_000_000);
    assert_eq!(t.seconds(), 3_600_000);
}

#[test]
fn seconds_diff_counts_whole_seconds() {
    let a = BlockTime::from_nanos(1_500_000_000);
    let b = BlockTime::from_nanos(4_200_000_000);
    assert_eq!(get_seconds_diff(&a, &b), 3);
    assert_eq!(get_seconds_diff(&a, &a), 0);
    assert_eq!(BlockTime::from_seconds(3).nanos, 3_000_000_000);
    assert_eq!(BlockTime::from_seconds(3).plus_seconds(2), BlockTime::from_seconds(5));
}
