use vstd::prelude::*;

use std::collections::HashMap;

verus! {

/// What a node knows of one peer: where to reach it, and the highest id it
/// is known to have aborted (-1 before any).
#[derive(Debug)]
pub struct PeerEntry {
    pub channel_id: String,
    pub highest_abort: i32,
}

impl PeerEntry {
    pub fn duplicate(&self) -> (r: PeerEntry)
        ensures
            r == *self,
    {
        PeerEntry { channel_id: self.channel_id.clone(), highest_abort: self.highest_abort }
    }
}

/// The entry a handshake over `channel_id` records.
pub open spec fn handshake_entry(channel_id: String) -> PeerEntry {
    PeerEntry { channel_id, highest_abort: -1i32 }
}

/// The registry after a handshake from `chain_id` arrives over `channel_id`.
pub open spec fn after_handshake(
    peers: Map<u32, PeerEntry>,
    chain_id: u32,
    channel_id: String,
) -> Map<u32, PeerEntry> {
    peers.insert(chain_id, handshake_entry(channel_id))
}

/// Peers by their declared identity.
pub struct PeerRegistry {
    peers: HashMap<u32, PeerEntry>,
}

impl View for PeerRegistry {
    type V = Map<u32, PeerEntry>;

    closed spec fn view(&self) -> Map<u32, PeerEntry> {
        self.peers@
    }
}

impl PeerRegistry {
    pub fn new() -> (r: PeerRegistry)
        ensures
            r@ == Map::<u32, PeerEntry>::empty(),
    {
        PeerRegistry { peers: HashMap::new() }
    }

    /// Records `entry` for `chain_id`, replacing what was there.
    pub fn record(&mut self, chain_id: u32, entry: PeerEntry)
        ensures
            final(self)@ == old(self)@.insert(chain_id, entry),
    {
        self.peers.insert(chain_id, entry);
    }

    /// The entry of `chain_id`, if one was recorded.
    pub fn lookup(&self, chain_id: u32) -> (r: Option<PeerEntry>)
        ensures
            r == (if self@.contains_key(chain_id) {
                Some(self@[chain_id])
            } else {
                None::<PeerEntry>
            }),
    {
        match self.peers.get(&chain_id) {
            Some(e) => Some(e.duplicate()),
            None => None,
        }
    }

    /// Number of peers recorded.
    pub fn len(&self) -> (r: usize)
        ensures
            r == self@.len(),
    {
        self.peers.len()
    }
}

/// Handles a peer's self-identification: maps its declared identity to the
/// channel it came over, with no abort known yet. A second handshake from the
/// same identity overwrites the first; the peer count is not touched.
pub fn receive_who_am_i(
    registry: &mut PeerRegistry,
    channel_id: String,
    chain_id: u32,
) -> (r: crate::msg::WhoAmIResponse)
    ensures
        final(registry)@ == after_handshake(old(registry)@, chain_id, channel_id),
{
    registry.record(chain_id, PeerEntry { channel_id, highest_abort: -1 });
    crate::msg::WhoAmIResponse {}
}

/// A repeated handshake leaves the registry as one handshake left it, and
/// every other identity's entry as it was.
pub proof fn lemma_handshake_idempotent(
    peers: Map<u32, PeerEntry>,
    chain_id: u32,
    channel_id: String,
)
    ensures
        after_handshake(after_handshake(peers, chain_id, channel_id), chain_id, channel_id)
            == after_handshake(peers, chain_id, channel_id),
        after_handshake(peers, chain_id, channel_id).dom() == peers.dom().insert(chain_id),
        forall|k: u32|
            k != chain_id && peers.contains_key(k) ==> after_handshake(peers, chain_id, channel_id)[k]
                == peers[k],
{
    assert(after_handshake(after_handshake(peers, chain_id, channel_id), chain_id, channel_id)
        =~= after_handshake(peers, chain_id, channel_id));
    assert(after_handshake(peers, chain_id, channel_id).dom() =~= peers.dom().insert(chain_id));
}

} // verus!
