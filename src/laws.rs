use vstd::prelude::*;

use crate::engine::{
    aborts_of, broadcast_of, check_dirty_packets, check_dirty_round, commit_head, connect_round,
    count_prepare_vote, deadlock_packets, deadlock_round, dirty_quorum, is_deadlock, prepare_quorum,
    Packet,
};
use crate::msg::Op;
use crate::queue::{cut_prefix, cut_suffix, is_head, lemma_cut_splits};
use crate::state::RoundModel;
use crate::time::BlockTime;

verus! {

/// An abort broadcast for ids `ids` over `channels` holds exactly one packet
/// per id and channel: the packet for the `i`-th id and the `j`-th channel
/// stands at `i * channels.len() + j`.
pub proof fn lemma_aborts_layout(channels: Seq<String>, ids: Seq<u32>)
    ensures
        aborts_of(channels, ids).len() == ids.len() * channels.len(),
        forall|i: int, j: int|
            0 <= i < ids.len() && 0 <= j < channels.len() ==> aborts_of(channels, ids)[i
                * channels.len() + j] == (Packet {
                channel_id: channels[j],
                op: Op::Abortion { value: ids[i] },
            }),
    decreases ids.len(),
{
    let n = channels.len() as int;
    if ids.len() == 0 {
        assert(ids.len() * n == 0);
    } else {
        let init = ids.drop_last();
        lemma_aborts_layout(channels, init);
        let k = ids.len() - 1;
        assert(init.len() * n + n == ids.len() * n) by (nonlinear_arith)
            requires
                init.len() == k,
                ids.len() == k + 1,
        ;
        assert forall|i: int, j: int| 0 <= i < ids.len() && 0 <= j < n implies aborts_of(
            channels,
            ids,
        )[i * n + j] == (Packet { channel_id: channels[j], op: Op::Abortion { value: ids[i] } }) by {
            if i < k {
                assert(i * n + j < k * n) by (nonlinear_arith)
                    requires
                        0 <= i < k,
                        0 <= j < n,
                ;
                assert(ids[i] == init[i]);
            } else {
                assert(i * n == k * n);
            }
        }
    }
}

/// Dirty-phase promotion happens only at a quorum, only for the head of the
/// dirty queue, and moves exactly that one id from the dirty queue to the end
/// of the prepare queue. Whenever no promotion happens, the commit and
/// prepare queues are left as they were and the dirty queue only loses a
/// suffix.
pub proof fn lemma_promotion_only_of_head(m: RoundModel, now: BlockTime, v: u32)
    ensures
        ({
            let m2 = check_dirty_round(m, now, v);
            if dirty_quorum(m) && is_head(m.dirty_tx_queue, v) {
                &&& m2.dirty_tx_queue == m.dirty_tx_queue.subrange(
                    1,
                    m.dirty_tx_queue.len() as int,
                )
                &&& m2.prepare_tx_queue == m.prepare_tx_queue.push(m.dirty_tx_queue[0])
                &&& m2.commit_tx_queue == m.commit_tx_queue
            } else {
                &&& m2.commit_tx_queue == m.commit_tx_queue
                &&& m2.prepare_tx_queue == m.prepare_tx_queue
                &&& m2.dirty_tx_queue == m.dirty_tx_queue.subrange(
                    0,
                    m2.dirty_tx_queue.len() as int,
                )
            }
        }),
{
    let m2 = check_dirty_round(m, now, v);
    lemma_cut_splits(m.dirty_tx_queue, v);
    if !(dirty_quorum(m) && is_head(m.dirty_tx_queue, v)) {
        assert(m2.dirty_tx_queue =~= m.dirty_tx_queue.subrange(0, m2.dirty_tx_queue.len() as int));
    }
}

/// A conflicting dirty acknowledgement at quorum removes exactly the
/// contiguous suffix of the dirty queue that starts at the first occurrence
/// of the acknowledged id, and broadcasts one abort per removed id to every
/// peer, once each, in queue order.
pub proof fn lemma_dirty_cascade(m: RoundModel, now: BlockTime, v: u32)
    requires
        dirty_quorum(m),
        !is_head(m.dirty_tx_queue, v),
    ensures
        ({
            let m2 = check_dirty_round(m, now, v);
            let removed = cut_suffix(m.dirty_tx_queue, v);
            let sent = check_dirty_packets(m, v);
            let n = m.channel_ids.len();
            &&& m2.dirty_tx_queue + removed == m.dirty_tx_queue
            &&& !m2.dirty_tx_queue.contains(v)
            &&& removed.len() > 0 <==> m.dirty_tx_queue.contains(v)
            &&& removed.len() > 0 ==> removed[0] == v
            &&& m2.prepare_tx_queue == m.prepare_tx_queue
            &&& m2.commit_tx_queue == m.commit_tx_queue
            &&& m2.aborted == (m.aborted || removed.len() > 0)
            &&& sent.len() == removed.len() * n
            &&& forall|i: int, j: int|
                0 <= i < removed.len() && 0 <= j < n ==> sent[i * n + j] == (Packet {
                    channel_id: m.channel_ids[j],
                    op: Op::Abortion { value: removed[i] },
                })
        }),
{
    lemma_cut_splits(m.dirty_tx_queue, v);
    lemma_aborts_layout(m.channel_ids, cut_suffix(m.dirty_tx_queue, v));
}

/// A deadlocked prepare acknowledgement of `v` cuts the prepare queue at the
/// first occurrence of `v`, then at the first occurrence of the dirty
/// queue's head, and broadcasts one abort per removed id to every peer, once
/// each, in the order removed.
pub proof fn lemma_prepare_cascade(m: RoundModel, now: BlockTime, v: u32)
    requires
        is_deadlock(m, v),
    ensures
        ({
            let m2 = deadlock_round(m, now, v);
            let kept1 = cut_prefix(m.prepare_tx_queue, v);
            let removed1 = cut_suffix(m.prepare_tx_queue, v);
            let removed2 = if m.dirty_tx_queue.len() > 0 {
                cut_suffix(kept1, m.dirty_tx_queue[0])
            } else {
                Seq::<u32>::empty()
            };
            let removed = removed1 + removed2;
            let sent = deadlock_packets(m, v);
            let n = m.channel_ids.len();
            &&& kept1 + removed1 == m.prepare_tx_queue
            &&& m2.prepare_tx_queue + removed2 == kept1
            &&& removed1.len() > 0 ==> removed1[0] == v
            &&& removed2.len() > 0 ==> removed2[0] == m.dirty_tx_queue[0]
            &&& m2.dirty_tx_queue == m.dirty_tx_queue
            &&& m2.commit_tx_queue == m.commit_tx_queue
            &&& m2.aborted == (m.aborted || removed.len() > 0)
            &&& sent.len() == removed.len() * n
            &&& forall|i: int, j: int|
                0 <= i < removed.len() && 0 <= j < n ==> sent[i * n + j] == (Packet {
                    channel_id: m.channel_ids[j],
                    op: Op::Abortion { value: removed[i] },
                })
        }),
{
    let kept1 = cut_prefix(m.prepare_tx_queue, v);
    lemma_cut_splits(m.prepare_tx_queue, v);
    if m.dirty_tx_queue.len() > 0 {
        lemma_cut_splits(kept1, m.dirty_tx_queue[0]);
        lemma_aborts_layout(
            m.channel_ids,
            cut_suffix(m.prepare_tx_queue, v) + cut_suffix(kept1, m.dirty_tx_queue[0]),
        );
    } else {
        assert(cut_suffix(m.prepare_tx_queue, v) + Seq::<u32>::empty() =~= cut_suffix(
            m.prepare_tx_queue,
            v,
        ));
        lemma_aborts_layout(m.channel_ids, cut_suffix(m.prepare_tx_queue, v));
    }
}

/// A prepare quorum commits exactly the head of the prepare queue, and only
/// it; without a quorum nothing is committed.
pub proof fn lemma_commit_exactly_head(m: RoundModel, now: BlockTime)
    ensures
        ({
            let m2 = commit_head(m, now);
            if prepare_quorum(m) {
                &&& m2.commit_tx_queue == m.commit_tx_queue.push(m.prepare_tx_queue[0])
                &&& m2.prepare_tx_queue == m.prepare_tx_queue.subrange(
                    1,
                    m.prepare_tx_queue.len() as int,
                )
                &&& m2.dirty_tx_queue == m.dirty_tx_queue
                &&& m2.committed
            } else {
                &&& m2.commit_tx_queue == m.commit_tx_queue
                &&& m2.prepare_tx_queue == m.prepare_tx_queue
                &&& m2.committed == m.committed
            }
        }),
{
}

/// Deadlock handling changes the round, or sends anything, only where the
/// acknowledged id heads neither the prepare queue nor the dirty queue.
pub proof fn lemma_deadlock_iff_neither_head(m: RoundModel, now: BlockTime, v: u32)
    ensures
        !is_deadlock(m, v) ==> deadlock_round(m, now, v) == m && deadlock_packets(m, v).len()
            == 0,
        is_deadlock(m, v) <==> !is_head(m.prepare_tx_queue, v) && !is_head(m.dirty_tx_queue, v),
        is_deadlock(m, v) ==> deadlock_round(m, now, v).prepare_tx_queue == (if m.dirty_tx_queue.len()
            > 0 {
            cut_prefix(cut_prefix(m.prepare_tx_queue, v), m.dirty_tx_queue[0])
        } else {
            cut_prefix(m.prepare_tx_queue, v)
        }),
{
}

/// The peer count tracks connections, one per connection: each connection
/// adds exactly one to it, and it stays one more than the number of
/// connected channels.
pub proof fn lemma_peer_count_tracks_connections(m: RoundModel, channel_id: String)
    requires
        m.wf(),
        m.node_number < u32::MAX,
    ensures
        connect_round(m, channel_id).wf(),
        connect_round(m, channel_id).node_number == m.node_number + 1,
        connect_round(m, channel_id).channel_ids.len() == m.channel_ids.len() + 1,
{
}

} // verus!
