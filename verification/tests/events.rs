use aptos_network::closer::Closer;
use aptos_network::codec::{Message, RawMessage};
use aptos_network::error::{CodecError, RpcError};
use aptos_network::events::{
    Event, NetworkEvents, NewNetworkEvents, Polled, Step, MAX_PULLS_PER_POLL,
};
use aptos_network::identity::{NetworkId, PeerId, PeerNetworkId};
use aptos_network::matcher::OutboundRpcMatcher;
use aptos_network::protocol::ProtocolId;
use aptos_network::registry::{OutboundPeerConnections, PeerStub};
use aptos_network::source::NetworkSource;
use aptos_network::wire::{
    DirectSendMsg, ErrorCode, NetworkMessage, ReceivedMessage, RpcRequest, RpcResponse,
};
use bytes::Bytes;
use std::task::{Context, Poll};
use tokio::sync::mpsc::{channel, Receiver, Sender};

/// A payload that only the mempool protocols carry: four bytes, big endian.
#[derive(Debug, PartialEq, Eq)]
struct Number(u32);

impl Message for Number {
    fn to_bytes(&self, protocol: ProtocolId) -> Result<Vec<u8>, CodecError> {
        match protocol {
            ProtocolId::MempoolDirectSend | ProtocolId::MempoolRpc => {
                Ok(self.0.to_be_bytes().to_vec())
            }
            _ => Err(CodecError::UnknownProtocol),
        }
    }

    fn from_bytes(protocol: ProtocolId, bytes: &[u8]) -> Result<Self, CodecError> {
        match protocol {
            ProtocolId::MempoolDirectSend | ProtocolId::MempoolRpc => {
                let raw: [u8; 4] = bytes.try_into().map_err(|_| CodecError::Decode)?;
                Ok(Number(u32::from_be_bytes(raw)))
            }
            _ => Err(CodecError::UnknownProtocol),
        }
    }
}

fn peer(low: u128) -> PeerNetworkId {
    PeerNetworkId::new(NetworkId::Validator, PeerId { high: 0, low })
}

fn direct(from: u128, protocol: ProtocolId, bytes: &[u8]) -> ReceivedMessage {
    ReceivedMessage {
        message: NetworkMessage::DirectSendMsg(DirectSendMsg {
            protocol_id: protocol,
            priority: 0,
            raw_msg: bytes.to_vec(),
        }),
        sender: peer(from),
    }
}

fn request(from: u128, protocol: ProtocolId, request_id: u32, bytes: &[u8]) -> ReceivedMessage {
    ReceivedMessage {
        message: NetworkMessage::RpcRequest(RpcRequest {
            protocol_id: protocol,
            request_id,
            priority: 0,
            raw_request: bytes.to_vec(),
        }),
        sender: peer(from),
    }
}

fn error(from: u128) -> ReceivedMessage {
    ReceivedMessage { message: NetworkMessage::Error(ErrorCode::ParsingError), sender: peer(from) }
}

fn connect(registry: &mut OutboundPeerConnections, low: u128) -> Receiver<NetworkMessage> {
    let (sender, normal) = channel(4);
    let (sender_high_prio, _urgent) = channel(4);
    registry.insert(
        peer(low),
        PeerStub::new(sender, sender_high_prio, OutboundRpcMatcher::new(), Closer::new()),
    );
    normal
}

fn events<T: Message>(capacity: usize) -> (Sender<ReceivedMessage>, NetworkEvents<T>) {
    let (inbound, receiver) = channel(capacity);
    (inbound, NetworkEvents::new(NetworkSource::new_single_source(receiver), "test"))
}

fn poll<T: Message>(events: &mut NetworkEvents<T>, registry: &OutboundPeerConnections) -> Polled<T> {
    let waker = futures::task::noop_waker();
    let mut cx = Context::from_waker(&waker);
    events.poll_next(registry, &mut cx)
}

fn poll_source(source: &mut NetworkSource) -> Poll<Option<ReceivedMessage>> {
    let waker = futures::task::noop_waker();
    let mut cx = Context::from_waker(&waker);
    source.poll_next(&mut cx)
}

#[test]
fn a_direct_message_becomes_a_message_event() {
    let registry = OutboundPeerConnections::new();
    let (inbound, mut events) = events::<Number>(4);
    assert!(matches!(poll(&mut events, &registry), Polled::Pending));
    inbound.try_send(direct(1, ProtocolId::MempoolDirectSend, &[0, 0, 1, 2])).unwrap();
    match poll(&mut events, &registry) {
        Polled::Message(event) => assert_eq!(event, Event::Message(peer(1), Number(258))),
        other => panic!("unexpected {:?}", other),
    }
    assert!(matches!(poll(&mut events, &registry), Polled::Pending));
    assert!(!events.is_terminated());
    assert_eq!(events.label(), "test");
}

#[test]
fn an_unregistered_protocol_tag_ends_the_stream_for_good() {
    let registry = OutboundPeerConnections::new();
    let (inbound, mut events) = events::<Number>(4);
    inbound.try_send(direct(1, ProtocolId::NetbenchDirectSend, &[0, 0, 0, 1])).unwrap();
    inbound.try_send(direct(1, ProtocolId::MempoolDirectSend, &[0, 0, 0, 2])).unwrap();
    assert!(matches!(poll(&mut events, &registry), Polled::Finished));
    assert!(events.is_terminated());
    for _ in 0..3 {
        assert!(matches!(poll(&mut events, &registry), Polled::Finished));
    }
    // a stream that has ended does not touch its source any more
    assert_eq!(inbound.capacity(), 3);
}

#[test]
fn a_payload_that_does_not_decode_ends_the_stream() {
    let mut registry = OutboundPeerConnections::new();
    let _normal = connect(&mut registry, 1);
    let (inbound, mut events) = events::<Number>(4);
    inbound.try_send(request(1, ProtocolId::MempoolRpc, 3, &[1, 2])).unwrap();
    assert!(matches!(poll(&mut events, &registry), Polled::Finished));
    assert!(events.is_terminated());
}

#[test]
fn the_end_of_the_source_ends_the_stream() {
    let registry = OutboundPeerConnections::new();
    let (inbound, mut events) = events::<Number>(4);
    inbound.try_send(direct(1, ProtocolId::MempoolDirectSend, &[0, 0, 0, 5])).unwrap();
    drop(inbound);
    assert!(matches!(poll(&mut events, &registry), Polled::Message(_)));
    assert!(!events.is_terminated());
    assert!(matches!(poll(&mut events, &registry), Polled::Finished));
    assert!(events.is_terminated());
    assert!(matches!(poll(&mut events, &registry), Polled::Finished));
}

#[test]
fn error_envelopes_are_dropped() {
    let registry = OutboundPeerConnections::new();
    let (inbound, mut events) = events::<Number>(16);
    inbound.try_send(error(1)).unwrap();
    inbound.try_send(error(2)).unwrap();
    inbound.try_send(direct(1, ProtocolId::MempoolDirectSend, &[0, 0, 0, 7])).unwrap();
    match poll(&mut events, &registry) {
        Polled::Message(event) => assert_eq!(event, Event::Message(peer(1), Number(7))),
        other => panic!("unexpected {:?}", other),
    }
}

#[test]
fn one_poll_drops_a_bounded_number_of_error_envelopes() {
    assert_eq!(MAX_PULLS_PER_POLL, 9);
    let registry = OutboundPeerConnections::new();
    let (inbound, mut events) = events::<Number>(16);
    for _ in 0..MAX_PULLS_PER_POLL {
        inbound.try_send(error(1)).unwrap();
    }
    inbound.try_send(direct(1, ProtocolId::MempoolDirectSend, &[0, 0, 0, 7])).unwrap();
    assert!(matches!(poll(&mut events, &registry), Polled::Pending));
    assert_eq!(inbound.capacity(), 15);
    assert!(matches!(poll(&mut events, &registry), Polled::Message(_)));
    assert!(!events.is_terminated());
}

#[test]
fn an_rpc_request_comes_with_the_relay_for_its_response() {
    let mut registry = OutboundPeerConnections::new();
    let mut normal = connect(&mut registry, 1);
    let (inbound, mut events) = events::<Number>(4);
    inbound.try_send(request(1, ProtocolId::MempoolRpc, 42, &[0, 0, 0, 9])).unwrap();
    let (event, mut relay) = match poll(&mut events, &registry) {
        Polled::Request(event, relay) => (event, relay),
        other => panic!("unexpected {:?}", other),
    };
    let (other_slot, _other_wait) = futures::channel::oneshot::channel();
    assert_eq!(
        event,
        Event::RpcRequest(peer(1), Number(9), ProtocolId::MempoolRpc, other_slot)
    );
    assert_eq!(relay.rpc_id, 42);
    assert_eq!(relay.sender, peer(1));
    assert_eq!(relay.protocol_id, ProtocolId::MempoolRpc);

    // the application answers, the relay turns the answer into a response envelope
    let slot = match event {
        Event::RpcRequest(_, _, _, slot) => slot,
        Event::Message(..) => unreachable!(),
    };
    slot.send(Ok(Bytes::from_static(b"pong"))).unwrap();
    let filled = relay.receiver.try_recv().unwrap();
    let response = relay.response(filled).unwrap();
    assert_eq!(
        response,
        NetworkMessage::RpcResponse(RpcResponse {
            request_id: 42,
            priority: 0,
            raw_response: b"pong".to_vec(),
        })
    );
    relay.peer.sender.try_send(response).unwrap();
    assert!(matches!(normal.try_recv().unwrap(), NetworkMessage::RpcResponse(_)));
}

#[test]
fn a_relay_sends_nothing_for_an_error_or_a_dropped_slot() {
    let mut registry = OutboundPeerConnections::new();
    let _normal = connect(&mut registry, 1);
    let (inbound, mut events) = events::<Number>(4);
    inbound.try_send(request(1, ProtocolId::MempoolRpc, 1, &[0, 0, 0, 9])).unwrap();
    let relay = match poll(&mut events, &registry) {
        Polled::Request(_, relay) => relay,
        other => panic!("unexpected {:?}", other),
    };
    assert_eq!(relay.response(Some(Err(RpcError::ApplicationError("no".to_string())))), None);
    assert_eq!(relay.response(Some(Err(RpcError::TimedOut))), None);
    assert_eq!(relay.response(None), None);
    assert_eq!(
        relay.response(Some(Ok(Bytes::new()))),
        Some(NetworkMessage::RpcResponse(RpcResponse {
            request_id: 1,
            priority: 0,
            raw_response: vec![],
        }))
    );
}

#[test]
fn an_rpc_request_from_a_peer_without_a_handle_is_held_back() {
    let mut registry = OutboundPeerConnections::new();
    let _normal = connect(&mut registry, 2);
    let (inbound, mut events) = events::<Number>(4);
    inbound.try_send(request(1, ProtocolId::MempoolRpc, 1, &[0, 0, 0, 9])).unwrap();
    assert!(matches!(poll(&mut events, &registry), Polled::Pending));
    assert!(!events.is_terminated());
}

#[test]
fn the_stream_sees_peers_that_connect_later() {
    let mut registry = OutboundPeerConnections::new();
    let (inbound, mut events) = events::<Number>(4);
    inbound.try_send(request(1, ProtocolId::MempoolRpc, 1, &[0, 0, 0, 9])).unwrap();
    assert!(matches!(poll(&mut events, &registry), Polled::Pending));
    let _normal = connect(&mut registry, 1);
    inbound.try_send(request(1, ProtocolId::MempoolRpc, 2, &[0, 0, 0, 9])).unwrap();
    assert!(matches!(poll(&mut events, &registry), Polled::Request(..)));
}

#[test]
fn a_response_envelope_in_the_event_stream_is_reported() {
    let registry = OutboundPeerConnections::new();
    let (inbound, mut events) = events::<Number>(4);
    inbound
        .try_send(ReceivedMessage {
            message: NetworkMessage::RpcResponse(RpcResponse {
                request_id: 5,
                priority: 0,
                raw_response: vec![1],
            }),
            sender: peer(3),
        })
        .unwrap();
    match poll(&mut events, &registry) {
        Polled::StrayResponse(from, request_id) => {
            assert_eq!(from, peer(3));
            assert_eq!(request_id, 5);
        }
        other => panic!("unexpected {:?}", other),
    }
    assert!(!events.is_terminated());
}

#[test]
fn on_message_handles_one_message() {
    let registry = OutboundPeerConnections::new();
    let (_inbound, mut events) = events::<RawMessage>(1);
    assert!(matches!(events.on_message(&registry, error(1)), Step::Discard));
    match events.on_message(&registry, direct(4, ProtocolId::NetbenchDirectSend, b"raw")) {
        Step::Yield(Polled::Message(event)) => {
            assert_eq!(event, Event::Message(peer(4), RawMessage { bytes: b"raw".to_vec() }))
        }
        other => panic!("unexpected {:?}", other),
    }
    assert!(!events.is_terminated());
}

#[test]
fn events_compare_without_their_completion_slot() {
    let (a, _a_wait) = futures::channel::oneshot::channel();
    let (b, _b_wait) = futures::channel::oneshot::channel();
    let (c, _c_wait) = futures::channel::oneshot::channel();
    let (d, _d_wait) = futures::channel::oneshot::channel();
    let request = Event::RpcRequest(peer(1), Number(1), ProtocolId::MempoolRpc, a);
    assert_eq!(request, Event::RpcRequest(peer(1), Number(1), ProtocolId::MempoolRpc, b));
    assert_ne!(request, Event::RpcRequest(peer(1), Number(1), ProtocolId::NetbenchRpc, c));
    assert_ne!(request, Event::RpcRequest(peer(2), Number(1), ProtocolId::MempoolRpc, d));
    assert_ne!(request, Event::Message(peer(1), Number(1)));
    assert_eq!(Event::Message(peer(1), Number(1)), Event::Message(peer(1), Number(1)));
    assert_ne!(Event::Message(peer(1), Number(1)), Event::Message(peer(1), Number(2)));
}

#[test]
fn a_merged_source_yields_every_message_in_each_peers_order() {
    let (first, first_rx) = channel(4);
    let (second, second_rx) = channel(4);
    for n in 0..3u8 {
        first.try_send(direct(1, ProtocolId::MempoolDirectSend, &[n])).unwrap();
        second.try_send(direct(2, ProtocolId::MempoolDirectSend, &[n])).unwrap();
    }
    let mut source = NetworkSource::new_multi_source(vec![first_rx, second_rx]);
    let mut seen: Vec<ReceivedMessage> = Vec::new();
    while let Poll::Ready(Some(message)) = poll_source(&mut source) {
        seen.push(message);
    }
    assert_eq!(seen.len(), 6);
    for from in [1u128, 2] {
        let of_peer: Vec<&ReceivedMessage> =
            seen.iter().filter(|m| m.sender == peer(from)).collect();
        let expected: Vec<ReceivedMessage> =
            (0..3u8).map(|n| direct(from, ProtocolId::MempoolDirectSend, &[n])).collect();
        assert_eq!(of_peer, expected.iter().collect::<Vec<_>>());
    }
    // both queues are still open: nothing yet, not the end
    assert!(matches!(poll_source(&mut source), Poll::Pending));
}

#[test]
fn a_merged_source_ends_when_every_queue_has_closed() {
    let (first, first_rx) = channel(4);
    let (second, second_rx) = channel(4);
    let mut source = NetworkSource::new_multi_source(vec![first_rx, second_rx]);
    first.try_send(direct(1, ProtocolId::MempoolDirectSend, &[1])).unwrap();
    drop(first);
    assert!(matches!(poll_source(&mut source), Poll::Ready(Some(_))));
    assert!(matches!(poll_source(&mut source), Poll::Pending));
    second.try_send(direct(2, ProtocolId::MempoolDirectSend, &[2])).unwrap();
    assert_eq!(
        poll_source(&mut source),
        Poll::Ready(Some(direct(2, ProtocolId::MempoolDirectSend, &[2])))
    );
    drop(second);
    assert_eq!(poll_source(&mut source), Poll::Ready(None));
}

#[test]
fn a_single_source_ends_when_its_queue_closes() {
    let (inbound, receiver) = channel(4);
    let mut source = NetworkSource::new_single_source(receiver);
    assert!(matches!(poll_source(&mut source), Poll::Pending));
    inbound.try_send(direct(1, ProtocolId::MempoolDirectSend, &[1])).unwrap();
    drop(inbound);
    assert!(matches!(poll_source(&mut source), Poll::Ready(Some(_))));
    assert_eq!(poll_source(&mut source), Poll::Ready(None));
}

#[test]
fn a_merged_source_of_no_queues_has_ended() {
    let mut source = NetworkSource::new_multi_source(vec![]);
    assert_eq!(poll_source(&mut source), Poll::Ready(None));
}

#[test]
fn on_answer_decides_how_a_poll_ends() {
    let registry = OutboundPeerConnections::new();
    let (_inbound, mut events) = events::<Number>(1);
    // nothing yet
    assert!(matches!(events.on_answer(&registry, Poll::Pending, 0), Step::Yield(Polled::Pending)));
    // an error envelope is dropped and the poll goes on, but for the last one that a poll takes
    for pulls in 0..MAX_PULLS_PER_POLL - 1 {
        assert!(matches!(
            events.on_answer(&registry, Poll::Ready(Some(error(1))), pulls),
            Step::Discard
        ));
    }
    assert!(matches!(
        events.on_answer(&registry, Poll::Ready(Some(error(1))), MAX_PULLS_PER_POLL - 1),
        Step::Yield(Polled::Pending)
    ));
    // a message is an event, whenever it comes
    match events.on_answer(
        &registry,
        Poll::Ready(Some(direct(2, ProtocolId::MempoolDirectSend, &[0, 0, 0, 3]))),
        MAX_PULLS_PER_POLL - 1,
    ) {
        Step::Yield(Polled::Message(event)) => assert_eq!(event, Event::Message(peer(2), Number(3))),
        other => panic!("unexpected {:?}", other),
    }
    // a response envelope is handed on
    let stray = ReceivedMessage {
        message: NetworkMessage::RpcResponse(RpcResponse {
            request_id: 11,
            priority: 0,
            raw_response: vec![],
        }),
        sender: peer(3),
    };
    match events.on_answer(&registry, Poll::Ready(Some(stray)), 0) {
        Step::Yield(Polled::StrayResponse(from, request_id)) => {
            assert_eq!((from, request_id), (peer(3), 11))
        }
        other => panic!("unexpected {:?}", other),
    }
    assert!(!events.is_terminated());
    // the end of the source is the end of the stream
    assert!(matches!(
        events.on_answer(&registry, Poll::Ready(None), 4),
        Step::Yield(Polled::Finished)
    ));
    assert!(events.is_terminated());
}

#[test]
fn a_relay_sends_on_the_normal_queue_of_its_peer() {
    let mut registry = OutboundPeerConnections::new();
    let mut normal = connect(&mut registry, 1);
    let (inbound, mut events) = events::<Number>(4);
    inbound.try_send(request(1, ProtocolId::MempoolRpc, 6, &[0, 0, 0, 9])).unwrap();
    let relay = match poll(&mut events, &registry) {
        Polled::Request(_, relay) => relay,
        other => panic!("unexpected {:?}", other),
    };
    let response = relay.response(Some(Ok(Bytes::from_static(b"r")))).unwrap();
    relay.channel().try_send(response).unwrap();
    assert_eq!(
        normal.try_recv().unwrap(),
        NetworkMessage::RpcResponse(RpcResponse {
            request_id: 6,
            priority: 0,
            raw_response: b"r".to_vec(),
        })
    );
}
