use aptos_network::config::{
    default_protocol_configs, protocol_configs_for_queue_size, ApplicationProtocolConfig,
    NetworkApplicationConfig, DEFAULT_QUEUE_SIZE,
};
use aptos_network::identity::{NetworkId, PeerId, PeerNetworkId};
use aptos_network::indexer::{GetTransactionsRequest, Transaction, TransactionsResponse};
use aptos_network::protocol::ProtocolId;
use aptos_network::wire::{
    DirectSendMsg, ErrorCode, NetworkMessage, ReceivedMessage, RpcRequest, RpcResponse,
};

fn received(message: NetworkMessage) -> ReceivedMessage {
    ReceivedMessage {
        message,
        sender: PeerNetworkId::new(NetworkId::Public, PeerId { high: 1, low: 2 }),
    }
}

#[test]
fn protocol_id_of_each_kind_of_envelope() {
    let request = received(NetworkMessage::RpcRequest(RpcRequest {
        protocol_id: ProtocolId::StorageServiceRpc,
        request_id: 1,
        priority: 0,
        raw_request: vec![1, 2, 3],
    }));
    assert_eq!(request.protocol_id(), Some(ProtocolId::StorageServiceRpc));
    assert_eq!(request.protocol_id_as_str(), "StorageServiceRpc");
    assert_eq!(request.message.data_len(), 3);
    assert_eq!(request.message.protocol_id_as_str(), "StorageServiceRpc");

    let direct = received(NetworkMessage::DirectSendMsg(DirectSendMsg {
        protocol_id: ProtocolId::StateSyncDirectSend,
        priority: 0,
        raw_msg: vec![],
    }));
    assert_eq!(direct.protocol_id(), Some(ProtocolId::StateSyncDirectSend));
    assert_eq!(direct.protocol_id_as_str(), "StateSyncDirectSend");
    assert_eq!(direct.message.data_len(), 0);

    let response = received(NetworkMessage::RpcResponse(RpcResponse {
        request_id: 1,
        priority: 0,
        raw_response: vec![9; 10],
    }));
    assert_eq!(response.protocol_id(), None);
    assert_eq!(response.protocol_id_as_str(), "rpc response");
    assert_eq!(response.message.data_len(), 10);

    let error = received(NetworkMessage::Error(ErrorCode::NotSupported));
    assert_eq!(error.protocol_id(), None);
    assert_eq!(error.protocol_id_as_str(), "error");
    assert_eq!(error.message.data_len(), 0);
}

#[test]
fn a_config_for_all_networks_uses_the_default_queue_size() {
    let config = NetworkApplicationConfig::new(
        vec![ProtocolId::MempoolDirectSend, ProtocolId::ConsensusDirectSendBcs],
        vec![ProtocolId::MempoolRpc],
    );
    assert_eq!(DEFAULT_QUEUE_SIZE, 1000);
    assert_eq!(
        config.direct_send_protocols_and_preferences,
        vec![
            ApplicationProtocolConfig { protocol_id: ProtocolId::MempoolDirectSend, queue_size: 1000 },
            ApplicationProtocolConfig {
                protocol_id: ProtocolId::ConsensusDirectSendBcs,
                queue_size: 1000
            },
        ]
    );
    assert_eq!(
        config.rpc_protocols_and_preferences,
        vec![ApplicationProtocolConfig { protocol_id: ProtocolId::MempoolRpc, queue_size: 1000 }]
    );
    assert!(config.networks.is_empty());
    for network in [NetworkId::Validator, NetworkId::Vfn, NetworkId::Public] {
        assert!(config.wants_network(network));
    }
}

#[test]
fn a_config_for_some_networks_wants_only_those() {
    let config = NetworkApplicationConfig::new_for_networks(
        vec![],
        vec![ProtocolId::NetbenchRpc, ProtocolId::HealthCheckerRpc],
        vec![NetworkId::Vfn, NetworkId::Public],
        7,
    );
    assert!(config.direct_send_protocols_and_preferences.is_empty());
    assert_eq!(
        config.rpc_protocols_and_preferences,
        vec![
            ApplicationProtocolConfig { protocol_id: ProtocolId::NetbenchRpc, queue_size: 7 },
            ApplicationProtocolConfig { protocol_id: ProtocolId::HealthCheckerRpc, queue_size: 7 },
        ]
    );
    assert_eq!(config.networks, vec![NetworkId::Vfn, NetworkId::Public]);
    assert!(!config.wants_network(NetworkId::Validator));
    assert!(config.wants_network(NetworkId::Vfn));
    assert!(config.wants_network(NetworkId::Public));
}

#[test]
fn protocol_configs_keep_the_order_of_preference() {
    let ids = vec![ProtocolId::NetbenchRpc, ProtocolId::MempoolRpc, ProtocolId::NetbenchRpc];
    let sized = protocol_configs_for_queue_size(ids.clone(), 3);
    assert_eq!(sized.iter().map(|c| c.protocol_id).collect::<Vec<_>>(), ids);
    assert!(sized.iter().all(|c| c.queue_size == 3));
    assert!(default_protocol_configs(ids).iter().all(|c| c.queue_size == 1000));
    assert!(default_protocol_configs(vec![]).is_empty());
}

#[test]
fn indexer_messages_hold_their_fields() {
    let request = GetTransactionsRequest {
        starting_version: Some(5),
        transactions_count: None,
        batch_size: Some(1000),
    };
    assert_eq!(request, request.clone());
    assert_eq!(request.starting_version, Some(5));
    let response = TransactionsResponse {
        transactions: vec![Transaction { version: 5, epoch: 1, block_height: 2, timestamp_secs: 9 }],
        chain_id: Some(4),
    };
    assert_eq!(response.transactions[0].version, 5);
    assert_eq!(response.chain_id, Some(4));
}
