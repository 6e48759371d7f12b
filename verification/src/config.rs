//! What an application registers with the network layer: the protocols it
//! speaks, in order of preference, the size of the queue behind each, and
//! the networks it wants traffic from.

use vstd::prelude::*;
use crate::identity::NetworkId;
use crate::protocol::ProtocolId;

verus! {

/// The queue size of a protocol that names none.
pub const DEFAULT_QUEUE_SIZE: usize = 1000;

#[derive(Clone, Copy, Debug, PartialEq, Eq, Structural)]
pub struct ApplicationProtocolConfig {
    pub protocol_id: ProtocolId,
    pub queue_size: usize,
}

/// Configuration needed for the service side of an application.
#[derive(Clone, Debug)]
pub struct NetworkApplicationConfig {
    /// Direct send protocols for the application (sorted by preference, highest to lowest)
    pub direct_send_protocols_and_preferences: Vec<ApplicationProtocolConfig>,
    /// RPC protocols for the application (sorted by preference, highest to lowest)
    pub rpc_protocols_and_preferences: Vec<ApplicationProtocolConfig>,
    /// Which networks do we want traffic from? Empty for all.
    pub networks: Vec<NetworkId>,
}

/// The protocols of `protocol_ids`, in their order, each with `queue_size`.
pub open spec fn configs_with(protocol_ids: Seq<ProtocolId>, queue_size: usize) -> Seq<
    ApplicationProtocolConfig,
> {
    Seq::new(
        protocol_ids.len(),
        |i: int| ApplicationProtocolConfig { protocol_id: protocol_ids[i], queue_size },
    )
}

pub fn protocol_configs_for_queue_size(protocol_ids: Vec<ProtocolId>, queue_size: usize) -> (r: Vec<
    ApplicationProtocolConfig,
>)
    ensures
        r@ == configs_with(protocol_ids@, queue_size),
{
    let mut configs: Vec<ApplicationProtocolConfig> = Vec::new();
    let mut i: usize = 0;
    while i < protocol_ids.len()
        invariant
            i <= protocol_ids.len(),
            configs@ == configs_with(protocol_ids@.take(i as int), queue_size),
        decreases protocol_ids.len() - i,
    {
        configs.push(ApplicationProtocolConfig { protocol_id: protocol_ids[i], queue_size });
        i = i + 1;
        assert(configs@ == configs_with(protocol_ids@.take(i as int), queue_size));
    }
    assert(protocol_ids@.take(protocol_ids.len() as int) == protocol_ids@);
    configs
}

pub fn default_protocol_configs(protocol_ids: Vec<ProtocolId>) -> (r: Vec<ApplicationProtocolConfig>)
    ensures
        r@ == configs_with(protocol_ids@, DEFAULT_QUEUE_SIZE),
{
    protocol_configs_for_queue_size(protocol_ids, DEFAULT_QUEUE_SIZE)
}

impl NetworkApplicationConfig {
    /// New NetworkApplicationConfig which talks to all peers on all networks
    pub fn new(
        direct_send_protocols_and_preferences: Vec<ProtocolId>,
        rpc_protocols_and_preferences: Vec<ProtocolId>,
    ) -> (r: Self)
        ensures
            r.direct_send_protocols_and_preferences@ == configs_with(
                direct_send_protocols_and_preferences@,
                DEFAULT_QUEUE_SIZE,
            ),
            r.rpc_protocols_and_preferences@ == configs_with(
                rpc_protocols_and_preferences@,
                DEFAULT_QUEUE_SIZE,
            ),
            r.networks@.len() == 0,
    {
        NetworkApplicationConfig {
            direct_send_protocols_and_preferences: default_protocol_configs(
                direct_send_protocols_and_preferences,
            ),
            rpc_protocols_and_preferences: default_protocol_configs(rpc_protocols_and_preferences),
            networks: Vec::new(),
        }
    }

    /// New NetworkApplicationConfig which talks to peers only on selected networks
    pub fn new_for_networks(
        direct_send_protocols_and_preferences: Vec<ProtocolId>,
        rpc_protocols_and_preferences: Vec<ProtocolId>,
        networks: Vec<NetworkId>,
        queue_size: usize,
    ) -> (r: Self)
        ensures
            r.direct_send_protocols_and_preferences@ == configs_with(
                direct_send_protocols_and_preferences@,
                queue_size,
            ),
            r.rpc_protocols_and_preferences@ == configs_with(
                rpc_protocols_and_preferences@,
                queue_size,
            ),
            r.networks == networks,
    {
        NetworkApplicationConfig {
            direct_send_protocols_and_preferences: protocol_configs_for_queue_size(
                direct_send_protocols_and_preferences,
                queue_size,
            ),
            rpc_protocols_and_preferences: protocol_configs_for_queue_size(
                rpc_protocols_and_preferences,
                queue_size,
            ),
            networks,
        }
    }

    /// Whether the application wants traffic from `network`: from every
    /// network if it has named none, else from those it has named.
    pub fn wants_network(&self, network: NetworkId) -> (r: bool)
        ensures
            r == (self.networks@.len() == 0 || self.networks@.contains(network)),
    {
        if self.networks.len() == 0 {
            return true;
        }
        let mut i: usize = 0;
        while i < self.networks.len()
            invariant
                i <= self.networks.len(),
                forall|j: int| 0 <= j < i ==> self.networks@[j] != network,
            decreases self.networks.len() - i,
        {
            if self.networks[i] == network {
                return true;
            }
            i = i + 1;
        }
        false
    }
}

} // verus!
