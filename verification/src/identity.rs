//! Who a peer is: the network it is reached on and its address.

use vstd::prelude::*;

verus! {

/// The network partition a connection belongs to.
#[derive(Clone, Copy, Debug, PartialEq, Eq, Hash, Structural)]
pub enum NetworkId {
    Validator,
    Vfn,
    Public,
}

/// The role this node plays; it only labels what is reported about traffic.
#[derive(Clone, Copy, Debug, PartialEq, Eq, Hash, Structural)]
pub enum RoleType {
    Validator,
    FullNode,
}

/// A peer's stable 256-bit address, held as its upper and lower half.
#[derive(Clone, Copy, Debug, PartialEq, Eq, Hash, Structural)]
pub struct PeerId {
    pub high: u128,
    pub low: u128,
}

/// A peer as the connection table knows it: network and address together.
/// Two identities are the same exactly when both parts are.
#[derive(Clone, Copy, Debug, PartialEq, Eq, Hash, Structural)]
pub struct PeerNetworkId {
    pub network_id: NetworkId,
    pub peer_id: PeerId,
}

impl PeerNetworkId {
    pub fn new(network_id: NetworkId, peer_id: PeerId) -> (r: Self)
        ensures
            r == (PeerNetworkId { network_id, peer_id }),
    {
        PeerNetworkId { network_id, peer_id }
    }

    pub fn network_id(&self) -> (r: NetworkId)
        ensures
            r == self.network_id,
    {
        self.network_id
    }

    pub fn peer_id(&self) -> (r: PeerId)
        ensures
            r == self.peer_id,
    {
        self.peer_id
    }
}

} // verus!
