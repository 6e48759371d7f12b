//! Protocol tags: which application protocol a payload belongs to.

use vstd::prelude::*;

verus! {

/// The tag that travels with every direct message and every rpc request.
#[derive(Clone, Copy, Debug, PartialEq, Eq, Hash, Structural)]
pub enum ProtocolId {
    ConsensusRpcBcs,
    ConsensusDirectSendBcs,
    MempoolDirectSend,
    StateSyncDirectSend,
    DiscoveryDirectSend,
    HealthCheckerRpc,
    ConsensusDirectSendJson,
    ConsensusRpcJson,
    StorageServiceRpc,
    MempoolRpc,
    PeerMonitoringServiceRpc,
    ConsensusRpcCompressed,
    ConsensusDirectSendCompressed,
    NetbenchDirectSend,
    NetbenchRpc,
}

impl ProtocolId {
    /// The tag's name as text.
    pub open spec fn name(self) -> Seq<char> {
        match self {
            ProtocolId::ConsensusRpcBcs => "ConsensusRpcBcs"@,
            ProtocolId::ConsensusDirectSendBcs => "ConsensusDirectSendBcs"@,
            ProtocolId::MempoolDirectSend => "MempoolDirectSend"@,
            ProtocolId::StateSyncDirectSend => "StateSyncDirectSend"@,
            ProtocolId::DiscoveryDirectSend => "DiscoveryDirectSend"@,
            ProtocolId::HealthCheckerRpc => "HealthCheckerRpc"@,
            ProtocolId::ConsensusDirectSendJson => "ConsensusDirectSendJson"@,
            ProtocolId::ConsensusRpcJson => "ConsensusRpcJson"@,
            ProtocolId::StorageServiceRpc => "StorageServiceRpc"@,
            ProtocolId::MempoolRpc => "MempoolRpc"@,
            ProtocolId::PeerMonitoringServiceRpc => "PeerMonitoringServiceRpc"@,
            ProtocolId::ConsensusRpcCompressed => "ConsensusRpcCompressed"@,
            ProtocolId::ConsensusDirectSendCompressed => "ConsensusDirectSendCompressed"@,
            ProtocolId::NetbenchDirectSend => "NetbenchDirectSend"@,
            ProtocolId::NetbenchRpc => "NetbenchRpc"@,
        }
    }

    /// Whether traffic under this tag travels on a peer's high-priority
    /// channel: the consensus protocols do, every other protocol does not.
    pub open spec fn high_priority(self) -> bool {
        match self {
            ProtocolId::ConsensusRpcBcs
            | ProtocolId::ConsensusDirectSendBcs
            | ProtocolId::ConsensusDirectSendJson
            | ProtocolId::ConsensusRpcJson
            | ProtocolId::ConsensusRpcCompressed
            | ProtocolId::ConsensusDirectSendCompressed => true,
            _ => false,
        }
    }

    pub fn as_str(self) -> (r: &'static str)
        ensures
            r@ == self.name(),
    {
        match self {
            ProtocolId::ConsensusRpcBcs => "ConsensusRpcBcs",
            ProtocolId::ConsensusDirectSendBcs => "ConsensusDirectSendBcs",
            ProtocolId::MempoolDirectSend => "MempoolDirectSend",
            ProtocolId::StateSyncDirectSend => "StateSyncDirectSend",
            ProtocolId::DiscoveryDirectSend => "DiscoveryDirectSend",
            ProtocolId::HealthCheckerRpc => "HealthCheckerRpc",
            ProtocolId::ConsensusDirectSendJson => "ConsensusDirectSendJson",
            ProtocolId::ConsensusRpcJson => "ConsensusRpcJson",
            ProtocolId::StorageServiceRpc => "StorageServiceRpc",
            ProtocolId::MempoolRpc => "MempoolRpc",
            ProtocolId::PeerMonitoringServiceRpc => "PeerMonitoringServiceRpc",
            ProtocolId::ConsensusRpcCompressed => "ConsensusRpcCompressed",
            ProtocolId::ConsensusDirectSendCompressed => "ConsensusDirectSendCompressed",
            ProtocolId::NetbenchDirectSend => "NetbenchDirectSend",
            ProtocolId::NetbenchRpc => "NetbenchRpc",
        }
    }
}

/// The static priority policy of the send path.
pub fn protocol_is_high_priority(protocol_id: ProtocolId) -> (r: bool)
    ensures
        r == protocol_id.high_priority(),
{
    match protocol_id {
        ProtocolId::ConsensusRpcBcs
        | ProtocolId::ConsensusDirectSendBcs
        | ProtocolId::ConsensusDirectSendJson
        | ProtocolId::ConsensusRpcJson
        | ProtocolId::ConsensusRpcCompressed
        | ProtocolId::ConsensusDirectSendCompressed => true,
        _ => false,
    }
}

} // verus!
