use vstd::prelude::*;

use crate::state::Transaction;
use crate::time::BlockTime;

verus! {

/// Configuration a node starts from.
#[derive(Clone, Copy, Debug, PartialEq, Eq, Structural, Hash)]
pub struct InstantiateMsg {
    pub chain_id: u32,
}

/// Local operations that change state.
#[derive(Clone, Copy, Debug, PartialEq, Eq, Structural, Hash)]
pub enum ExecuteMsg {
    Input { value: Transaction },
}

/// Local read-only queries.
#[derive(Clone, Copy, Debug, PartialEq, Eq, Structural, Hash)]
pub enum QueryMsg {
    GetTx {},
    GetChainId {},
    GetNodeNumber {},
    GetDirtyTx {},
    GetPrepareTx {},
}

/// Snapshot of the round: votes, outcome flags and timestamps.
#[derive(Clone, Copy, Debug, PartialEq, Eq, Structural)]
pub struct GetTxResponse {
    pub dirty_votes: Option<u32>,
    pub prepare_votes: Option<u32>,
    pub committed: Option<bool>,
    pub aborted: Option<bool>,
    pub time: Option<u64>,
    pub start_time: BlockTime,
    pub end_time: Option<BlockTime>,
}

/// Messages exchanged between nodes.
#[derive(Clone, Copy, Debug, PartialEq, Eq, Structural)]
pub enum Op {
    /// The sender has recorded the id in its dirty phase.
    DirtySuccess { value: u32 },
    /// The sender aborts the id.
    Abortion { value: u32 },
    /// The sender has recorded the id in its prepare phase.
    PrepareSuccess { value: u32 },
    /// Handshake: the sender's identity.
    WhoAmI { chain_id: u32 },
}

/// Acknowledgement payload of a handshake.
#[derive(Clone, Copy, Debug, PartialEq, Eq, Structural)]
pub struct WhoAmIResponse {}

/// Acknowledgement payload of a protocol message.
#[derive(Clone, Copy, Debug, PartialEq, Eq, Structural)]
pub struct MsgQueueResponse {}

} // verus!
