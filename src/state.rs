use vstd::prelude::*;

use crate::time::BlockTime;

verus! {

/// The single in-flight coordination record of a node.
///
/// `dirty_votes` and `prepare_votes` are round-wide counters: they refer to
/// whichever id heads the matching queue when quorum is evaluated, not to a
/// particular id.
#[derive(Debug)]
pub struct State {
    /// Quorum size: this node plus every connected peer.
    pub node_number: u32,
    /// This node's identity.
    pub chain_id: u32,
    /// Channels of the connected peers, in order of connection.
    pub channel_ids: Vec<String>,
    pub dirty_tx_queue: Vec<u32>,
    pub prepare_tx_queue: Vec<u32>,
    pub commit_tx_queue: Vec<u32>,
    pub dirty_votes: u32,
    pub prepare_votes: u32,
    pub start_time: BlockTime,
    pub end_time: Option<BlockTime>,
    pub committed: bool,
    pub aborted: bool,
    pub time: u64,
}

/// A transaction as a local caller submits it.
#[derive(Clone, Copy, Debug, PartialEq, Eq, Structural, Hash)]
pub struct Transaction {
    pub tx_id: u32,
}

/// The mathematical content of a [`State`]: its queues as sequences.
pub struct RoundModel {
    pub node_number: u32,
    pub chain_id: u32,
    pub channel_ids: Seq<String>,
    pub dirty_tx_queue: Seq<u32>,
    pub prepare_tx_queue: Seq<u32>,
    pub commit_tx_queue: Seq<u32>,
    pub dirty_votes: u32,
    pub prepare_votes: u32,
    pub start_time: BlockTime,
    pub end_time: Option<BlockTime>,
    pub committed: bool,
    pub aborted: bool,
    pub time: u64,
}

impl View for State {
    type V = RoundModel;

    open spec fn view(&self) -> RoundModel {
        RoundModel {
            node_number: self.node_number,
            chain_id: self.chain_id,
            channel_ids: self.channel_ids@,
            dirty_tx_queue: self.dirty_tx_queue@,
            prepare_tx_queue: self.prepare_tx_queue@,
            commit_tx_queue: self.commit_tx_queue@,
            dirty_votes: self.dirty_votes,
            prepare_votes: self.prepare_votes,
            start_time: self.start_time,
            end_time: self.end_time,
            committed: self.committed,
            aborted: self.aborted,
            time: self.time,
        }
    }
}

impl RoundModel {
    /// The peer count is this node plus one per connected channel.
    pub open spec fn wf(&self) -> bool {
        self.node_number as int == self.channel_ids.len() + 1
    }
}

impl State {
    /// The peer count is this node plus one per connected channel.
    pub open spec fn wf(&self) -> bool {
        self.node_number as int == self.channel_ids@.len() + 1
    }

    /// A fresh record: no peers, empty queues, no votes, no outcome.
    pub fn new(chain_id: u32, start: BlockTime) -> (r: State)
        ensures
            r.wf(),
            r.node_number == 1,
            r.chain_id == chain_id,
            r.channel_ids@.len() == 0,
            r.dirty_tx_queue@.len() == 0,
            r.prepare_tx_queue@.len() == 0,
            r.commit_tx_queue@.len() == 0,
            r.dirty_votes == 0,
            r.prepare_votes == 0,
            r.start_time == start,
            r.end_time.is_none(),
            !r.committed,
            !r.aborted,
            r.time == 0,
    {
        State {
            node_number: 1,
            chain_id,
            channel_ids: Vec::new(),
            dirty_tx_queue: Vec::new(),
            prepare_tx_queue: Vec::new(),
            commit_tx_queue: Vec::new(),
            dirty_votes: 0,
            prepare_votes: 0,
            start_time: start,
            end_time: None,
            committed: false,
            aborted: false,
            time: 0,
        }
    }
}

} // verus!
