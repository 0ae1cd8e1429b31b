use staged_commit::engine::{
    check_dirty, connect_peer, execute, handle_abortion, handle_deadlock, handle_dirty_success,
    handle_execute_input, handle_prepare_success, handle_query_getchainid,
    handle_query_getdirtytx, handle_query_getnodenumber, handle_query_getpreparetx,
    handle_query_gettx, receive_packet, upon_dirty_success, upon_failure, Packet,
};
use staged_commit::msg::{ExecuteMsg, Op};
use staged_commit::registry::PeerRegistry;
use staged_commit::state::{State, Transaction};
use staged_commit::time::BlockTime;

fn at(nanos: u64) -> BlockTime {
    BlockTime::from_nanos(nanos)
}

/// A node with `peers` connected channels named "channel-0", "channel-1", ...
fn node(peers: usize) -> State {
    let mut s = State::new(100, at(1));
    for i in 0..peers {
        connect_peer(&mut s, format!("channel-{}", i));
    }
    s
}

fn ops(packets: &[Packet]) -> Vec<Op> {
    packets.iter().map(|p| p.op).collect()
}

fn channels(packets: &[Packet]) -> Vec<String> {
    packets.iter().map(|p| p.channel_id.clone()).collect()
}

#[test]
fn single_peer_submission_commits_at_once() {
    let mut s = node(0);
    assert_eq!(s.node_number, 1);
    let sent = handle_execute_input(&mut s, at(50), Transaction { tx_id: 7 });
    assert!(sent.is_empty());
    assert_eq!(s.commit_tx_queue, vec![7]);
    assert!(s.dirty_tx_queue.is_empty());
    assert!(s.prepare_tx_queue.is_empty());
    assert!(s.committed);
    assert!(!s.aborted);
    assert_eq!(s.dirty_votes, 1);
    assert_eq!(s.prepare_votes, 1);
    assert_eq!(s.start_time, at(50));
    assert_eq!(s.end_time, Some(at(50)));
}

#[test]
fn two_peers_commit_after_both_quorums() {
    let mut s = node(1);
    assert_eq!(s.node_number, 2);
    let sent = handle_execute_input(&mut s, at(10), Transaction { tx_id: 1 });
    assert_eq!(ops(&sent), vec![Op::DirtySuccess { value: 1 }]);
    assert_eq!(channels(&sent), vec!["channel-0".to_string()]);
    assert_eq!(s.dirty_tx_queue, vec![1]);
    assert_eq!(s.dirty_votes, 1);

    let sent = handle_dirty_success(&mut s, at(20), 1);
    assert_eq!(ops(&sent), vec![Op::PrepareSuccess { value: 1 }]);
    assert!(s.dirty_tx_queue.is_empty());
    assert_eq!(s.prepare_tx_queue, vec![1]);
    assert_eq!(s.prepare_votes, 1);
    assert!(!s.committed);

    let sent = handle_prepare_success(&mut s, at(30), 1);
    assert!(sent.is_empty());
    assert!(s.prepare_tx_queue.is_empty());
    assert_eq!(s.commit_tx_queue, vec![1]);
    assert!(s.committed);
    assert_eq!(s.end_time, Some(at(30)));
}

#[test]
fn out_of_order_dirty_quorum_cascades_abort() {
    // The local vote for the second submission already completes the
    // round-wide dirty quorum of two, and it is evaluated against id 2,
    // which is not the head: the suffix starting at 2 is cut and aborted.
    let mut s = node(1);
    handle_execute_input(&mut s, at(10), Transaction { tx_id: 1 });
    let sent = handle_execute_input(&mut s, at(11), Transaction { tx_id: 2 });
    assert_eq!(
        ops(&sent),
        vec![Op::DirtySuccess { value: 2 }, Op::Abortion { value: 2 }]
    );
    assert_eq!(s.dirty_tx_queue, vec![1]);
    assert!(s.aborted);
    assert_eq!(s.end_time, Some(at(11)));

    // The late remote acknowledgement of 2 finds no quorum any more.
    let sent = handle_dirty_success(&mut s, at(12), 2);
    assert!(sent.is_empty());
    assert_eq!(s.dirty_tx_queue, vec![1]);
    assert_eq!(s.dirty_votes, 3);
}

#[test]
fn dirty_quorum_on_non_head_cuts_suffix_with_all_behind() {
    let mut s = node(2);
    s.dirty_tx_queue = vec![1, 2, 3, 4];
    s.dirty_votes = 2;
    let sent = handle_dirty_success(&mut s, at(9), 2);
    assert_eq!(s.dirty_tx_queue, vec![1]);
    assert_eq!(
        ops(&sent),
        vec![
            Op::Abortion { value: 2 },
            Op::Abortion { value: 2 },
            Op::Abortion { value: 3 },
            Op::Abortion { value: 3 },
            Op::Abortion { value: 4 },
            Op::Abortion { value: 4 },
        ]
    );
    assert_eq!(
        channels(&sent),
        vec!["channel-0", "channel-1", "channel-0", "channel-1", "channel-0", "channel-1"]
    );
    assert!(s.aborted);
    assert!(s.prepare_tx_queue.is_empty());
}

#[test]
fn dirty_quorum_on_absent_id_changes_nothing() {
    let mut s = node(1);
    s.dirty_tx_queue = vec![1, 2];
    s.dirty_votes = 1;
    let sent = handle_dirty_success(&mut s, at(9), 8);
    assert!(sent.is_empty());
    assert_eq!(s.dirty_tx_queue, vec![1, 2]);
    assert!(!s.aborted);
    assert_eq!(s.end_time, None);
}

#[test]
fn deadlock_with_absent_id_purges_dirty_head_from_prepare() {
    let mut s = node(1);
    s.prepare_tx_queue = vec![5];
    s.dirty_tx_queue = vec![9];
    let sent = handle_prepare_success(&mut s, at(40), 3);
    assert!(sent.is_empty());
    assert_eq!(s.prepare_tx_queue, vec![5]);
    assert_eq!(s.dirty_tx_queue, vec![9]);
    assert_eq!(s.prepare_votes, 1);
    assert!(!s.aborted);

    let mut s = node(1);
    s.prepare_tx_queue = vec![5, 9, 4];
    s.dirty_tx_queue = vec![9];
    let sent = handle_prepare_success(&mut s, at(40), 3);
    assert_eq!(ops(&sent), vec![Op::Abortion { value: 9 }, Op::Abortion { value: 4 }]);
    assert_eq!(s.prepare_tx_queue, vec![5]);
    assert!(s.aborted);
    assert_eq!(s.end_time, Some(at(40)));
}

#[test]
fn deadlock_cuts_acknowledged_id_then_dirty_head() {
    let mut s = node(1);
    s.prepare_tx_queue = vec![5, 6, 7, 8, 9];
    s.dirty_tx_queue = vec![6];
    let sent = handle_deadlock(&mut s, at(3), 8);
    assert_eq!(
        ops(&sent),
        vec![
            Op::Abortion { value: 8 },
            Op::Abortion { value: 9 },
            Op::Abortion { value: 6 },
            Op::Abortion { value: 7 },
        ]
    );
    assert_eq!(s.prepare_tx_queue, vec![5]);
    assert!(s.aborted);
}

#[test]
fn no_deadlock_when_id_heads_either_queue() {
    let mut s = node(1);
    s.prepare_tx_queue = vec![5, 6];
    s.dirty_tx_queue = vec![9];
    assert!(handle_deadlock(&mut s, at(3), 5).is_empty());
    assert!(handle_deadlock(&mut s, at(3), 9).is_empty());
    assert_eq!(s.prepare_tx_queue, vec![5, 6]);
    assert!(!s.aborted);

    let mut s = node(1);
    s.prepare_tx_queue = vec![5, 6];
    let sent = handle_deadlock(&mut s, at(3), 6);
    assert_eq!(ops(&sent), vec![Op::Abortion { value: 6 }]);
    assert_eq!(s.prepare_tx_queue, vec![5]);
}

#[test]
fn prepare_quorum_commits_only_the_head() {
    let mut s = node(1);
    s.prepare_tx_queue = vec![4, 5, 6];
    s.prepare_votes = 1;
    let sent = handle_prepare_success(&mut s, at(70), 4);
    assert!(sent.is_empty());
    assert_eq!(s.commit_tx_queue, vec![4]);
    assert_eq!(s.prepare_tx_queue, vec![5, 6]);
    assert!(s.committed);
}

#[test]
fn prepare_quorum_commits_head_even_for_dirty_head_ack() {
    let mut s = node(1);
    s.prepare_tx_queue = vec![4, 5];
    s.dirty_tx_queue = vec![5];
    s.prepare_votes = 1;
    handle_prepare_success(&mut s, at(70), 5);
    assert_eq!(s.commit_tx_queue, vec![4]);
    assert_eq!(s.prepare_tx_queue, vec![5]);
}

#[test]
fn prepare_quorum_on_empty_queue_commits_nothing() {
    let mut s = node(0);
    let sent = handle_prepare_success(&mut s, at(70), 4);
    assert!(sent.is_empty());
    assert_eq!(s.prepare_votes, 1);
    assert!(s.commit_tx_queue.is_empty());
    assert!(!s.committed);
}

#[test]
fn promotion_moves_only_the_head() {
    let mut s = node(1);
    s.dirty_tx_queue = vec![3, 4];
    s.prepare_tx_queue = vec![8];
    s.dirty_votes = 2;
    let sent = check_dirty(&mut s, at(5), 3);
    assert!(sent.is_empty());
    assert_eq!(s.dirty_tx_queue, vec![4]);
    assert_eq!(s.prepare_tx_queue, vec![8, 3]);
    assert_eq!(s.prepare_votes, 0);

    let mut s = node(1);
    s.dirty_tx_queue = vec![3, 4];
    s.dirty_votes = 1;
    assert!(check_dirty(&mut s, at(5), 3).is_empty());
    assert_eq!(s.dirty_tx_queue, vec![3, 4]);
    assert!(s.prepare_tx_queue.is_empty());
}

#[test]
fn dirty_quorum_promotes_without_committing() {
    let mut s = node(0);
    s.dirty_tx_queue = vec![7];
    s.dirty_votes = 1;
    let sent = check_dirty(&mut s, at(5), 7);
    assert!(sent.is_empty());
    assert!(s.dirty_tx_queue.is_empty());
    assert_eq!(s.prepare_tx_queue, vec![7]);
    assert_eq!(s.prepare_votes, 1);
    assert!(s.commit_tx_queue.is_empty());
    assert!(!s.committed);
}

#[test]
fn submission_without_dirty_quorum_commits_nothing() {
    let mut s = node(1);
    assert!(handle_prepare_success(&mut s, at(1), 9).is_empty());
    assert_eq!(s.prepare_votes, 1);
    handle_execute_input(&mut s, at(2), Transaction { tx_id: 1 });
    let sent = handle_dirty_success(&mut s, at(3), 1);
    assert_eq!(ops(&sent), vec![Op::PrepareSuccess { value: 1 }]);
    assert_eq!(s.prepare_tx_queue, vec![1]);
    assert_eq!(s.prepare_votes, 2);
    assert!(s.commit_tx_queue.is_empty());

    let sent = handle_execute_input(&mut s, at(4), Transaction { tx_id: 2 });
    assert_eq!(ops(&sent), vec![Op::DirtySuccess { value: 2 }]);
    assert_eq!(s.dirty_tx_queue, vec![2]);
    assert_eq!(s.dirty_votes, 3);
    assert_eq!(s.prepare_tx_queue, vec![1]);
    assert!(s.commit_tx_queue.is_empty());
    assert!(!s.committed);
    assert_eq!(s.end_time, None);
}

#[test]
fn local_prepare_vote_only_for_prepare_head() {
    let mut s = node(2);
    s.prepare_tx_queue = vec![3];
    let sent = upon_dirty_success(&mut s, 3);
    assert_eq!(ops(&sent), vec![Op::PrepareSuccess { value: 3 }, Op::PrepareSuccess { value: 3 }]);
    assert_eq!(s.prepare_votes, 1);
    assert!(upon_dirty_success(&mut s, 4).is_empty());
    assert_eq!(s.prepare_votes, 1);
}

#[test]
fn failure_broadcasts_abort_and_marks_round() {
    let mut s = node(3);
    let sent = upon_failure(&mut s, at(77), 12);
    assert_eq!(sent.len(), 3);
    assert!(sent.iter().all(|p| p.op == Op::Abortion { value: 12 }));
    assert_eq!(channels(&sent), vec!["channel-0", "channel-1", "channel-2"]);
    assert!(s.aborted);
    assert_eq!(s.end_time, Some(at(77)));
}

#[test]
fn remote_abortion_changes_nothing() {
    let mut s = node(1);
    s.dirty_tx_queue = vec![1, 2];
    s.prepare_tx_queue = vec![3];
    handle_abortion(&mut s, 1);
    assert_eq!(s.dirty_tx_queue, vec![1, 2]);
    assert_eq!(s.prepare_tx_queue, vec![3]);
    assert!(!s.aborted);
}

#[test]
fn connection_counts_peers_and_sends_identity() {
    let mut s = State::new(42, at(0));
    let p = connect_peer(&mut s, "channel-7".to_string());
    assert_eq!(p.channel_id, "channel-7");
    assert_eq!(p.op, Op::WhoAmI { chain_id: 42 });
    assert_eq!(s.node_number, 2);
    assert_eq!(s.channel_ids, vec!["channel-7".to_string()]);
    connect_peer(&mut s, "channel-8".to_string());
    assert_eq!(s.node_number, 3);
}

#[test]
fn dispatcher_routes_each_message() {
    let mut s = node(1);
    let mut reg = PeerRegistry::new();
    s.dirty_tx_queue = vec![1];
    s.dirty_votes = 1;
    let sent = receive_packet(&mut s, &mut reg, at(5), "channel-0".to_string(), Op::DirtySuccess { value: 1 });
    assert_eq!(ops(&sent), vec![Op::PrepareSuccess { value: 1 }]);
    let sent = receive_packet(&mut s, &mut reg, at(6), "channel-0".to_string(), Op::Abortion { value: 1 });
    assert!(sent.is_empty());
    assert_eq!(s.prepare_tx_queue, vec![1]);
    let sent = receive_packet(&mut s, &mut reg, at(7), "channel-0".to_string(), Op::PrepareSuccess { value: 1 });
    assert!(sent.is_empty());
    assert_eq!(s.commit_tx_queue, vec![1]);
    let sent = receive_packet(&mut s, &mut reg, at(8), "channel-0".to_string(), Op::WhoAmI { chain_id: 5 });
    assert!(sent.is_empty());
    assert_eq!(reg.lookup(5).unwrap().channel_id, "channel-0");
    assert_eq!(s.node_number, 2);
}

#[test]
fn execute_routes_input() {
    let mut s = node(1);
    let sent = execute(&mut s, at(3), ExecuteMsg::Input { value: Transaction { tx_id: 4 } });
    assert_eq!(ops(&sent), vec![Op::DirtySuccess { value: 4 }]);
    assert_eq!(s.dirty_tx_queue, vec![4]);
}

#[test]
fn queries_read_the_round() {
    let mut s = node(1);
    s.dirty_tx_queue = vec![1, 2];
    s.prepare_tx_queue = vec![3];
    s.dirty_votes = 4;
    s.prepare_votes = 5;
    assert_eq!(handle_query_getchainid(&s), 100);
    assert_eq!(handle_query_getnodenumber(&s), 2);
    assert_eq!(handle_query_getdirtytx(&s), vec![1, 2]);
    assert_eq!(handle_query_getpreparetx(&s), vec![3]);
    let r = handle_query_gettx(&s);
    assert_eq!(r.dirty_votes, Some(4));
    assert_eq!(r.prepare_votes, Some(5));
    assert_eq!(r.committed, Some(false));
    assert_eq!(r.aborted, Some(false));
    assert_eq!(r.time, Some(0));
    assert_eq!(r.start_time, at(1));
    assert_eq!(r.end_time, None);
}
