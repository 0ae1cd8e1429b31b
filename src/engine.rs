use vstd::prelude::*;

use crate::msg::{ExecuteMsg, GetTxResponse, Op};
use crate::registry::{after_handshake, receive_who_am_i, PeerRegistry};
use crate::queue::{check_queue_top, cut_prefix, cut_suffix, is_head, remove_all_pending_elements};
use crate::state::{RoundModel, State, Transaction};
use crate::time::BlockTime;

verus! {

/// An outbound message: `op` sent over `channel_id`.
#[derive(Debug)]
pub struct Packet {
    pub channel_id: String,
    pub op: Op,
}

/// `op` sent once over each channel, in channel order.
pub open spec fn broadcast_of(channels: Seq<String>, op: Op) -> Seq<Packet> {
    Seq::new(channels.len(), |i: int| Packet { channel_id: channels[i], op })
}

/// One abort broadcast per id of `ids`, in the order of `ids`.
pub open spec fn aborts_of(channels: Seq<String>, ids: Seq<u32>) -> Seq<Packet>
    decreases ids.len(),
{
    if ids.len() == 0 {
        Seq::empty()
    } else {
        aborts_of(channels, ids.drop_last()) + broadcast_of(
            channels,
            Op::Abortion { value: ids.last() },
        )
    }
}

/// The round once the ids `ids` are aborted at `now`: the outcome is marked
/// only where something was aborted.
pub open spec fn mark_aborted(m: RoundModel, now: BlockTime, ids: Seq<u32>) -> RoundModel {
    if ids.len() > 0 {
        RoundModel { end_time: Some(now), aborted: true, ..m }
    } else {
        m
    }
}

/// Cascading abort on the dirty queue at `v`.
pub open spec fn cut_dirty(m: RoundModel, now: BlockTime, v: u32) -> RoundModel {
    mark_aborted(
        RoundModel { dirty_tx_queue: cut_prefix(m.dirty_tx_queue, v), ..m },
        now,
        cut_suffix(m.dirty_tx_queue, v),
    )
}

/// Cascading abort on the prepare queue at `v`.
pub open spec fn cut_prepare(m: RoundModel, now: BlockTime, v: u32) -> RoundModel {
    mark_aborted(
        RoundModel { prepare_tx_queue: cut_prefix(m.prepare_tx_queue, v), ..m },
        now,
        cut_suffix(m.prepare_tx_queue, v),
    )
}

/// The head of the dirty queue moved to the tail of the prepare queue.
pub open spec fn promote_dirty_head(m: RoundModel) -> RoundModel {
    RoundModel {
        dirty_tx_queue: m.dirty_tx_queue.subrange(1, m.dirty_tx_queue.len() as int),
        prepare_tx_queue: m.prepare_tx_queue.push(m.dirty_tx_queue[0]),
        ..m
    }
}

/// The local prepare vote for `v`, cast only where `v` heads the prepare queue.
pub open spec fn local_prepare_vote(m: RoundModel, v: u32) -> RoundModel {
    if is_head(m.prepare_tx_queue, v) {
        RoundModel { prepare_votes: (m.prepare_votes + 1) as u32, ..m }
    } else {
        m
    }
}

/// What the local prepare vote for `v` sends.
pub open spec fn local_prepare_packets(m: RoundModel, v: u32) -> Seq<Packet> {
    if is_head(m.prepare_tx_queue, v) {
        broadcast_of(m.channel_ids, Op::PrepareSuccess { value: v })
    } else {
        Seq::empty()
    }
}

/// Whether the prepare votes make a quorum with an id to commit.
pub open spec fn prepare_quorum(m: RoundModel) -> bool {
    m.prepare_votes == m.node_number && m.prepare_tx_queue.len() > 0
}

/// At a prepare quorum, the head of the prepare queue moves to the commit queue.
pub open spec fn commit_head(m: RoundModel, now: BlockTime) -> RoundModel {
    if prepare_quorum(m) {
        RoundModel {
            prepare_tx_queue: m.prepare_tx_queue.subrange(1, m.prepare_tx_queue.len() as int),
            commit_tx_queue: m.commit_tx_queue.push(m.prepare_tx_queue[0]),
            committed: true,
            end_time: Some(now),
            ..m
        }
    } else {
        m
    }
}

/// Whether the dirty votes make a quorum.
pub open spec fn dirty_quorum(m: RoundModel) -> bool {
    m.dirty_votes == m.node_number
}

/// Whether quorum evaluation for `v` promotes it: a dirty quorum with `v` at
/// the head of the dirty queue.
pub open spec fn promotes(m: RoundModel, v: u32) -> bool {
    dirty_quorum(m) && is_head(m.dirty_tx_queue, v)
}

/// Quorum evaluation for a dirty acknowledgement of `v`: the round after it.
pub open spec fn check_dirty_round(m: RoundModel, now: BlockTime, v: u32) -> RoundModel {
    if !dirty_quorum(m) {
        m
    } else if is_head(m.dirty_tx_queue, v) {
        local_prepare_vote(promote_dirty_head(m), v)
    } else {
        cut_dirty(m, now, v)
    }
}

/// Quorum evaluation for a dirty acknowledgement of `v`: what it sends.
pub open spec fn check_dirty_packets(m: RoundModel, v: u32) -> Seq<Packet> {
    if !dirty_quorum(m) {
        Seq::empty()
    } else if is_head(m.dirty_tx_queue, v) {
        local_prepare_packets(promote_dirty_head(m), v)
    } else {
        aborts_of(m.channel_ids, cut_suffix(m.dirty_tx_queue, v))
    }
}

/// A prepare acknowledgement of `v` is a deadlock when `v` heads neither queue.
pub open spec fn is_deadlock(m: RoundModel, v: u32) -> bool {
    !is_head(m.prepare_tx_queue, v) && !is_head(m.dirty_tx_queue, v)
}

/// Deadlock handling for a prepare acknowledgement of `v`: the round after it.
pub open spec fn deadlock_round(m: RoundModel, now: BlockTime, v: u32) -> RoundModel {
    if !is_deadlock(m, v) {
        m
    } else if m.dirty_tx_queue.len() > 0 {
        cut_prepare(cut_prepare(m, now, v), now, m.dirty_tx_queue[0])
    } else {
        cut_prepare(m, now, v)
    }
}

/// Deadlock handling for a prepare acknowledgement of `v`: what it sends.
pub open spec fn deadlock_packets(m: RoundModel, v: u32) -> Seq<Packet> {
    if !is_deadlock(m, v) {
        Seq::empty()
    } else {
        let first = cut_suffix(m.prepare_tx_queue, v);
        if m.dirty_tx_queue.len() > 0 {
            let rest = cut_prefix(m.prepare_tx_queue, v);
            aborts_of(m.channel_ids, first + cut_suffix(rest, m.dirty_tx_queue[0]))
        } else {
            aborts_of(m.channel_ids, first)
        }
    }
}

proof fn lemma_aborts_of_concat(channels: Seq<String>, a: Seq<u32>, b: Seq<u32>)
    ensures
        aborts_of(channels, a + b) == aborts_of(channels, a) + aborts_of(channels, b),
    decreases b.len(),
{
    if b.len() == 0 {
        assert(a + b =~= a);
        assert(aborts_of(channels, a) + aborts_of(channels, b) =~= aborts_of(channels, a));
    } else {
        assert((a + b).drop_last() =~= a + b.drop_last());
        lemma_aborts_of_concat(channels, a, b.drop_last());
        assert(aborts_of(channels, a) + aborts_of(channels, b) =~= aborts_of(channels, a)
            + aborts_of(channels, b.drop_last()) + broadcast_of(
            channels,
            Op::Abortion { value: b.last() },
        ));
    }
}

/// Sends `op` over every channel.
fn broadcast(channels: &Vec<String>, op: Op) -> (r: Vec<Packet>)
    ensures
        r@ == broadcast_of(channels@, op),
{
    let mut msgs: Vec<Packet> = Vec::new();
    let mut i: usize = 0;
    while i < channels.len()
        invariant
            0 <= i <= channels@.len(),
            msgs@ == broadcast_of(channels@.subrange(0, i as int), op),
        decreases channels@.len() - i,
    {
        msgs.push(Packet { channel_id: channels[i].clone(), op });
        i = i + 1;
        assert(msgs@ =~= broadcast_of(channels@.subrange(0, i as int), op));
    }
    assert(channels@.subrange(0, i as int) =~= channels@);
    msgs
}

/// Aborts `tx_id`: broadcasts its abort and marks the round aborted at `time`.
pub fn upon_failure(state: &mut State, time: BlockTime, tx_id: u32) -> (r: Vec<Packet>)
    ensures
        final(state)@ == (RoundModel { end_time: Some(time), aborted: true, ..old(state)@ }),
        r@ == broadcast_of(old(state)@.channel_ids, Op::Abortion { value: tx_id }),
{
    let msgs = broadcast(&state.channel_ids, Op::Abortion { value: tx_id });
    state.end_time = Some(time);
    state.aborted = true;
    msgs
}

/// Aborts each of `ids` in turn.
fn abort_all(state: &mut State, time: BlockTime, ids: &Vec<u32>) -> (r: Vec<Packet>)
    ensures
        final(state)@ == mark_aborted(old(state)@, time, ids@),
        r@ == aborts_of(old(state)@.channel_ids, ids@),
{
    let ghost m = state@;
    let mut msgs: Vec<Packet> = Vec::new();
    let mut i: usize = 0;
    while i < ids.len()
        invariant
            0 <= i <= ids@.len(),
            state@ == mark_aborted(m, time, ids@.subrange(0, i as int)),
            msgs@ == aborts_of(m.channel_ids, ids@.subrange(0, i as int)),
        decreases ids@.len() - i,
    {
        let mut more = upon_failure(state, time, ids[i]);
        msgs.append(&mut more);
        i = i + 1;
        proof {
            let pre = ids@.subrange(0, i as int);
            assert(pre.drop_last() =~= ids@.subrange(0, i - 1));
        }
    }
    assert(ids@.subrange(0, i as int) =~= ids@);
    msgs
}

/// The local prepare vote after a promotion: where `tx_id` heads the prepare
/// queue, broadcasts its prepare acknowledgement and counts the vote.
pub fn upon_dirty_success(state: &mut State, tx_id: u32) -> (r: Vec<Packet>)
    requires
        is_head(old(state).prepare_tx_queue@, tx_id) ==> old(state).prepare_votes < u32::MAX,
    ensures
        final(state)@ == local_prepare_vote(old(state)@, tx_id),
        r@ == local_prepare_packets(old(state)@, tx_id),
{
    if check_queue_top(state.prepare_tx_queue.clone(), tx_id) {
        let msgs = broadcast(&state.channel_ids, Op::PrepareSuccess { value: tx_id });
        state.prepare_votes = state.prepare_votes + 1;
        msgs
    } else {
        Vec::new()
    }
}

/// Commits the head of the prepare queue where the prepare votes make a quorum.
pub fn commit_on_quorum(state: &mut State, now: BlockTime)
    ensures
        final(state)@ == commit_head(old(state)@, now),
{
    if state.prepare_votes == state.node_number && state.prepare_tx_queue.len() > 0 {
        let head = state.prepare_tx_queue.remove(0);
        state.commit_tx_queue.push(head);
        state.committed = true;
        state.end_time = Some(now);
    }
}

/// Quorum evaluation for a dirty acknowledgement of `tx_id`. At quorum, an
/// id at the head of the dirty queue is promoted to the prepare phase; any
/// other id is cut from the dirty queue with all ids behind it, each aborted.
pub fn check_dirty(state: &mut State, now: BlockTime, tx_id: u32) -> (r: Vec<Packet>)
    requires
        promotes(old(state)@, tx_id) ==> old(state).prepare_votes < u32::MAX,
    ensures
        final(state)@ == check_dirty_round(old(state)@, now, tx_id),
        r@ == check_dirty_packets(old(state)@, tx_id),
{
    if state.dirty_votes != state.node_number {
        return Vec::new();
    }
    if check_queue_top(state.dirty_tx_queue.clone(), tx_id) {
        let head = state.dirty_tx_queue.remove(0);
        state.prepare_tx_queue.push(head);
        upon_dirty_success(state, tx_id)
    } else {
        let removed = remove_all_pending_elements(&mut state.dirty_tx_queue, tx_id);
        abort_all(state, now, &removed)
    }
}

/// Deadlock handling for a prepare acknowledgement of `tx_id`. Where `tx_id`
/// heads neither queue, it is cut from the prepare queue with all ids behind
/// it; then, where the dirty queue has a head, that head is cut from the
/// prepare queue likewise. Every id cut is aborted.
pub fn handle_deadlock(state: &mut State, now: BlockTime, tx_id: u32) -> (r: Vec<Packet>)
    ensures
        final(state)@ == deadlock_round(old(state)@, now, tx_id),
        r@ == deadlock_packets(old(state)@, tx_id),
{
    let ghost m = state@;
    let is_top_prepare = check_queue_top(state.prepare_tx_queue.clone(), tx_id);
    let is_top_dirty = check_queue_top(state.dirty_tx_queue.clone(), tx_id);
    let mut msgs: Vec<Packet> = Vec::new();
    if !is_top_prepare && !is_top_dirty {
        let removed = remove_all_pending_elements(&mut state.prepare_tx_queue, tx_id);
        msgs = abort_all(state, now, &removed);
        if state.dirty_tx_queue.len() > 0 {
            let head = state.dirty_tx_queue[0];
            let ghost m1 = state@;
            let removed2 = remove_all_pending_elements(&mut state.prepare_tx_queue, head);
            let mut more = abort_all(state, now, &removed2);
            msgs.append(&mut more);
            proof {
                lemma_aborts_of_concat(m.channel_ids, removed@, removed2@);
                assert(m1.prepare_tx_queue == cut_prefix(m.prepare_tx_queue, tx_id));
            }
        }
    }
    msgs
}

/// The round once a dirty acknowledgement is counted.
pub open spec fn count_dirty_vote(m: RoundModel) -> RoundModel {
    RoundModel { dirty_votes: (m.dirty_votes + 1) as u32, ..m }
}

/// The round once a prepare acknowledgement is counted.
pub open spec fn count_prepare_vote(m: RoundModel) -> RoundModel {
    RoundModel { prepare_votes: (m.prepare_votes + 1) as u32, ..m }
}

/// The round once `id` is submitted locally at `now`, with the local vote.
pub open spec fn submit_round(m: RoundModel, now: BlockTime, id: u32) -> RoundModel {
    RoundModel {
        dirty_tx_queue: m.dirty_tx_queue.push(id),
        start_time: now,
        dirty_votes: (m.dirty_votes + 1) as u32,
        ..m
    }
}

/// The round after a local submission of `id` at `now`. Where the submission
/// completes a dirty quorum and promotes its own id, the local prepare vote
/// that follows may complete a prepare quorum, which is then evaluated too.
pub open spec fn submission_round(m: RoundModel, now: BlockTime, id: u32) -> RoundModel {
    let m1 = submit_round(m, now, id);
    if promotes(m1, id) {
        commit_head(check_dirty_round(m1, now, id), now)
    } else {
        check_dirty_round(m1, now, id)
    }
}

/// The round once a peer connects over `channel_id`.
pub open spec fn connect_round(m: RoundModel, channel_id: String) -> RoundModel {
    RoundModel {
        node_number: (m.node_number + 1) as u32,
        channel_ids: m.channel_ids.push(channel_id),
        ..m
    }
}

/// Local submission of `input`: it joins the dirty queue, the round restarts
/// at `now`, the local dirty vote is counted and its dirty acknowledgement is
/// sent to every peer. The local vote counts toward quorum like any other, so
/// the dirty quorum is evaluated at once; where that promotes the submitted
/// id, the prepare quorum that its local prepare vote may complete is
/// evaluated as well.
pub fn handle_execute_input(state: &mut State, now: BlockTime, input: Transaction) -> (r: Vec<
    Packet,
>)
    requires
        old(state).dirty_votes < u32::MAX,
        promotes(submit_round(old(state)@, now, input.tx_id), input.tx_id) ==> old(
            state,
        ).prepare_votes < u32::MAX,
    ensures
        final(state)@ == submission_round(old(state)@, now, input.tx_id),
        r@ == broadcast_of(old(state)@.channel_ids, Op::DirtySuccess { value: input.tx_id })
            + check_dirty_packets(submit_round(old(state)@, now, input.tx_id), input.tx_id),
{
    state.dirty_tx_queue.push(input.tx_id);
    state.start_time = now;
    state.dirty_votes = state.dirty_votes + 1;
    let mut msgs = broadcast(&state.channel_ids, Op::DirtySuccess { value: input.tx_id });
    let promoted = state.dirty_votes == state.node_number && check_queue_top(
        state.dirty_tx_queue.clone(),
        input.tx_id,
    );
    let mut more = check_dirty(state, now, input.tx_id);
    msgs.append(&mut more);
    if promoted {
        commit_on_quorum(state, now);
    }
    msgs
}

/// Routes a local operation to its handler.
pub fn execute(state: &mut State, now: BlockTime, msg: ExecuteMsg) -> (r: Vec<Packet>)
    requires
        old(state).dirty_votes < u32::MAX,
        match msg {
            ExecuteMsg::Input { value } => promotes(
                submit_round(old(state)@, now, value.tx_id),
                value.tx_id,
            ) ==> old(state).prepare_votes < u32::MAX,
        },
    ensures
        match msg {
            ExecuteMsg::Input { value } => {
                &&& final(state)@ == submission_round(old(state)@, now, value.tx_id)
                &&& r@ == broadcast_of(old(state)@.channel_ids, Op::DirtySuccess { value: value.tx_id })
                    + check_dirty_packets(submit_round(old(state)@, now, value.tx_id), value.tx_id)
            },
        },
{
    match msg {
        ExecuteMsg::Input { value } => handle_execute_input(state, now, value),
    }
}

/// A peer's dirty acknowledgement of `value`: counts the vote, then evaluates
/// quorum.
pub fn handle_dirty_success(state: &mut State, now: BlockTime, value: u32) -> (r: Vec<Packet>)
    requires
        old(state).dirty_votes < u32::MAX,
        promotes(count_dirty_vote(old(state)@), value) ==> old(state).prepare_votes < u32::MAX,
    ensures
        final(state)@ == check_dirty_round(count_dirty_vote(old(state)@), now, value),
        r@ == check_dirty_packets(count_dirty_vote(old(state)@), value),
{
    state.dirty_votes = state.dirty_votes + 1;
    check_dirty(state, now, value)
}

/// A peer's prepare acknowledgement of `value`: counts the vote, handles a
/// deadlock, then commits the head of the prepare queue at quorum.
pub fn handle_prepare_success(state: &mut State, now: BlockTime, value: u32) -> (r: Vec<Packet>)
    requires
        old(state).prepare_votes < u32::MAX,
    ensures
        final(state)@ == commit_head(
            deadlock_round(count_prepare_vote(old(state)@), now, value),
            now,
        ),
        r@ == deadlock_packets(count_prepare_vote(old(state)@), value),
{
    state.prepare_votes = state.prepare_votes + 1;
    let msgs = handle_deadlock(state, now, value);
    commit_on_quorum(state, now);
    msgs
}

/// A peer's abort of `value`: recorded, with no change to the local queues.
pub fn handle_abortion(state: &mut State, value: u32)
    ensures
        final(state)@ == old(state)@,
{
}

/// A new peer connection over `channel_id`: the peer count grows by one, the
/// channel is recorded, and this node's identity is sent over it.
pub fn connect_peer(state: &mut State, channel_id: String) -> (r: Packet)
    requires
        old(state).node_number < u32::MAX,
    ensures
        final(state)@ == connect_round(old(state)@, channel_id),
        r == (Packet { channel_id, op: Op::WhoAmI { chain_id: old(state).chain_id } }),
        old(state)@.wf() ==> final(state)@.wf(),
{
    state.node_number = state.node_number + 1;
    state.channel_ids.push(channel_id.clone());
    Packet { channel_id, op: Op::WhoAmI { chain_id: state.chain_id } }
}

/// Routes a message that arrived over `channel_id` to its handler and
/// returns what the handler sends.
pub fn receive_packet(
    state: &mut State,
    registry: &mut PeerRegistry,
    now: BlockTime,
    channel_id: String,
    op: Op,
) -> (r: Vec<Packet>)
    requires
        match op {
            Op::DirtySuccess { value } => {
                &&& old(state).dirty_votes < u32::MAX
                &&& promotes(count_dirty_vote(old(state)@), value) ==> old(state).prepare_votes
                    < u32::MAX
            },
            Op::PrepareSuccess { .. } => old(state).prepare_votes < u32::MAX,
            _ => true,
        },
    ensures
        match op {
            Op::DirtySuccess { value } => {
                &&& final(state)@ == check_dirty_round(count_dirty_vote(old(state)@), now, value)
                &&& r@ == check_dirty_packets(count_dirty_vote(old(state)@), value)
                &&& final(registry)@ == old(registry)@
            },
            Op::PrepareSuccess { value } => {
                &&& final(state)@ == commit_head(
                    deadlock_round(count_prepare_vote(old(state)@), now, value),
                    now,
                )
                &&& r@ == deadlock_packets(count_prepare_vote(old(state)@), value)
                &&& final(registry)@ == old(registry)@
            },
            Op::Abortion { value } => {
                &&& final(state)@ == old(state)@
                &&& r@.len() == 0
                &&& final(registry)@ == old(registry)@
            },
            Op::WhoAmI { chain_id } => {
                &&& final(state)@ == old(state)@
                &&& r@.len() == 0
                &&& final(registry)@ == after_handshake(old(registry)@, chain_id, channel_id)
            },
        },
{
    match op {
        Op::DirtySuccess { value } => handle_dirty_success(state, now, value),
        Op::PrepareSuccess { value } => handle_prepare_success(state, now, value),
        Op::Abortion { value } => {
            handle_abortion(state, value);
            Vec::new()
        },
        Op::WhoAmI { chain_id } => {
            receive_who_am_i(registry, channel_id, chain_id);
            Vec::new()
        },
    }
}

/// This node's identity.
pub fn handle_query_getchainid(state: &State) -> (r: u32)
    ensures
        r == state.chain_id,
{
    state.chain_id
}

/// The current peer count.
pub fn handle_query_getnodenumber(state: &State) -> (r: u32)
    ensures
        r == state.node_number,
{
    state.node_number
}

/// The ids in the prepare phase, head first.
pub fn handle_query_getpreparetx(state: &State) -> (r: Vec<u32>)
    ensures
        r@ == state.prepare_tx_queue@,
{
    let r = state.prepare_tx_queue.clone();
    assert(r@ =~= state.prepare_tx_queue@);
    r
}

/// The ids in the dirty phase, head first.
pub fn handle_query_getdirtytx(state: &State) -> (r: Vec<u32>)
    ensures
        r@ == state.dirty_tx_queue@,
{
    let r = state.dirty_tx_queue.clone();
    assert(r@ =~= state.dirty_tx_queue@);
    r
}

/// Snapshot of the round's votes, outcome flags and timestamps.
pub fn handle_query_gettx(state: &State) -> (r: GetTxResponse)
    ensures
        r == (GetTxResponse {
            dirty_votes: Some(state.dirty_votes),
            prepare_votes: Some(state.prepare_votes),
            committed: Some(state.committed),
            aborted: Some(state.aborted),
            time: Some(state.time),
            start_time: state.start_time,
            end_time: state.end_time,
        }),
{
    GetTxResponse {
        dirty_votes: Some(state.dirty_votes),
        prepare_votes: Some(state.prepare_votes),
        committed: Some(state.committed),
        aborted: Some(state.aborted),
        time: Some(state.time),
        start_time: state.start_time,
        end_time: state.end_time,
    }
}

} // verus!
