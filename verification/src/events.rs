//! The receive side: inbound envelopes become events for the application.
//! Error envelopes are dropped, direct messages and rpc requests are decoded
//! and handed on, and a payload that cannot be decoded ends the stream for
//! good.

use vstd::prelude::*;
use vstd::std_specs::cmp::{PartialEqSpec, PartialEqSpecImpl};
use std::marker::PhantomData;
use std::sync::Arc;
use std::task::{Context, Poll};
use crate::channel::{
    bytes_as_slice,
    bytes_of,
    completion_slot,
    CompletionReceiver,
    CompletionSender,
    PeerChannel,
    RpcResult,
};
use crate::codec::{decodes, Message, RawMessage};
use crate::error::CodecError;
use crate::identity::PeerNetworkId;
use crate::protocol::ProtocolId;
use crate::registry::{OutboundPeerConnections, PeerStub, PeerTable, RegistryState};
use crate::source::NetworkSource;
use crate::wire::{Envelope, NetworkMessage, ReceivedMessage, RequestId, RpcResponse};

verus! {

/// Event is a typed wrapper around a direct message or an rpc request, as
/// the application sees them. Peers coming and going are not events: they
/// show in the connection table.
#[derive(Debug)]
pub enum Event<TMessage> {
    /// New inbound direct-send message from peer.
    Message(PeerNetworkId, TMessage),
    /// New inbound rpc request. The request is fulfilled by sending the
    /// serialized response over the completion slot's sender; the network
    /// layer handles sending the response over the wire.
    RpcRequest(PeerNetworkId, TMessage, ProtocolId, CompletionSender),
}

/// Two events are equal when they are of the same kind, from the same peer,
/// with equal payloads and, for requests, the same protocol. The
/// completion slot of a request takes no part in the comparison.
impl<TMessage: PartialEq> PartialEq for Event<TMessage> {
    fn eq(&self, other: &Event<TMessage>) -> (r: bool) {
        match (self, other) {
            (Event::Message(pid1, msg1), Event::Message(pid2, msg2)) => *pid1 == *pid2 && *msg1
                == *msg2,
            (Event::RpcRequest(pid1, msg1, proto1, _), Event::RpcRequest(pid2, msg2, proto2, _)) => {
                *pid1 == *pid2 && *msg1 == *msg2 && *proto1 == *proto2
            },
            _ => false,
        }
    }
}

impl<TMessage: PartialEq> PartialEqSpecImpl for Event<TMessage> {
    open spec fn obeys_eq_spec() -> bool {
        <TMessage as PartialEqSpec>::obeys_eq_spec()
    }

    open spec fn eq_spec(&self, other: &Event<TMessage>) -> bool {
        match (self, other) {
            (Event::Message(pid1, msg1), Event::Message(pid2, msg2)) => *pid1 == *pid2 && <
                TMessage as PartialEqSpec
            >::eq_spec(msg1, msg2),
            (Event::RpcRequest(pid1, msg1, proto1, _), Event::RpcRequest(pid2, msg2, proto2, _)) => {
                *pid1 == *pid2 && <TMessage as PartialEqSpec>::eq_spec(msg1, msg2) && *proto1
                    == *proto2
            },
            _ => false,
        }
    }
}

/// How many messages one poll takes from the source at most.
pub const MAX_PULLS_PER_POLL: usize = 9;

/// What carries the application's response to an rpc request back to the
/// peer: it waits on `receiver` and sends on the peer's normal queue. It
/// holds nothing of the event stream, and outlives it.
#[derive(Debug)]
pub struct ResponseRelay {
    pub receiver: CompletionReceiver,
    pub rpc_id: RequestId,
    pub peer: Arc<PeerStub>,
    pub sender: PeerNetworkId,
    pub protocol_id: ProtocolId,
}

impl ResponseRelay {
    /// The queue the response goes into: the peer's normal one.
    pub fn channel(&self) -> (r: &PeerChannel)
        ensures
            *r == self.peer.sender,
    {
        &self.peer.sender
    }

    /// The envelope to send once the wait on the slot has ended: `filled`
    /// is what the slot was filled with, or `None` if it was dropped. Only
    /// response bytes go out, under the id of the request; for a slot
    /// filled with an error, or dropped, nothing is sent.
    pub fn response(&self, filled: Option<RpcResult>) -> (r: Option<NetworkMessage>)
        ensures
            match filled {
                Some(Ok(bytes)) => r matches Some(message) && message@ == (Envelope::RpcResponse {
                    request_id: self.rpc_id,
                    priority: 0,
                    payload: bytes_of(bytes),
                }),
                _ => r is None,
            },
    {
        match filled {
            Some(Ok(bytes)) => Some(
                NetworkMessage::RpcResponse(
                    RpcResponse {
                        request_id: self.rpc_id,
                        priority: 0,
                        raw_response: vstd::slice::slice_to_vec(bytes_as_slice(&bytes)),
                    },
                ),
            ),
            _ => None,
        }
    }
}

/// What one poll of the event stream yields.
#[derive(Debug)]
pub enum Polled<TMessage> {
    /// No event yet.
    Pending,
    /// The stream has ended.
    Finished,
    /// A direct message.
    Message(Event<TMessage>),
    /// An rpc request, with the relay for its response, to be run as a task
    /// of its own.
    Request(Event<TMessage>, ResponseRelay),
    /// A response envelope, which the layer below should have matched with
    /// its request: that layer's invariant is broken.
    StrayResponse(PeerNetworkId, RequestId),
}

/// What became of one message taken from the source.
#[derive(Debug)]
pub enum Step<TMessage> {
    /// It was an error envelope and is dropped: take the next one.
    Discard,
    /// The poll ends with this.
    Yield(Polled<TMessage>),
}

/// The event stream as a mathematical value: whether it has ended, and its
/// copy of the connection table.
pub struct EventsState {
    pub done: bool,
    pub peers: Map<PeerNetworkId, PeerStub>,
    pub generation: u32,
}

impl EventsState {
    /// The stream after it has asked the registry for news.
    pub open spec fn refresh(self, registry: RegistryState) -> EventsState {
        match registry.snapshot_if_stale(self.generation) {
            Some((peers, generation)) => EventsState { peers, generation, ..self },
            None => self,
        }
    }

    /// The stream, ended.
    pub open spec fn finished(self) -> EventsState {
        EventsState { done: true, ..self }
    }
}

/// Whether taking `message` can turn a stream in state `before` into
/// `after` and come out as `step`, beside a registry in state `registry`.
/// A response envelope is not the stream's to take: responses are matched
/// with their requests below it.
pub open spec fn step_allowed<T: Message>(
    before: EventsState,
    registry: RegistryState,
    message: ReceivedMessage,
    after: EventsState,
    step: Step<T>,
) -> bool {
    match message.message@ {
        Envelope::Error { .. } => step is Discard && after == before,
        Envelope::RpcResponse { .. } => false,
        Envelope::DirectSend { protocol_id, payload, .. } => match step {
            Step::Yield(Polled::Message(Event::Message(from, app_msg))) => {
                &&& from == message.sender
                &&& decodes(protocol_id, payload, Ok::<T, CodecError>(app_msg))
                &&& after == before
            },
            Step::Yield(Polled::Finished) => {
                &&& exists|e: CodecError| decodes(protocol_id, payload, Err::<T, CodecError>(e))
                &&& after == before.finished()
            },
            _ => false,
        },
        Envelope::RpcRequest { protocol_id, request_id, payload, .. } => match step {
            Step::Yield(Polled::Request(Event::RpcRequest(from, app_msg, protocol, _), relay)) => {
                &&& from == message.sender
                &&& protocol == protocol_id
                &&& decodes(protocol_id, payload, Ok::<T, CodecError>(app_msg))
                &&& after == before.refresh(registry)
                &&& after.peers.contains_key(message.sender)
                &&& *relay.peer == after.peers[message.sender]
                &&& relay.rpc_id == request_id
                &&& relay.sender == message.sender
                &&& relay.protocol_id == protocol_id
            },
            Step::Yield(Polled::Pending) => {
                &&& exists|app_msg: T| decodes(protocol_id, payload, Ok::<T, CodecError>(app_msg))
                &&& after == before.refresh(registry)
                &&& !after.peers.contains_key(message.sender)
            },
            Step::Yield(Polled::Finished) => {
                &&& exists|e: CodecError| decodes(protocol_id, payload, Err::<T, CodecError>(e))
                &&& after == before.finished()
            },
            _ => false,
        },
    }
}

/// A direct-send envelope with a raw payload always becomes a message
/// event, from the envelope's sender and with the payload's bytes, and the
/// stream goes on as it was.
pub proof fn raw_direct_send_is_delivered(
    before: EventsState,
    registry: RegistryState,
    message: ReceivedMessage,
    after: EventsState,
    step: Step<RawMessage>,
)
    requires
        message.message@ is DirectSend,
        step_allowed(before, registry, message, after, step),
    ensures
        step matches Step::Yield(Polled::Message(Event::Message(from, delivered))) && from
            == message.sender && delivered.bytes@ == message.message@->DirectSend_payload,
        after == before,
{
}

/// Whether the source's `answer`, the one after `pulls` messages taken in
/// this poll, can turn a stream in state `before` into `after` and come out
/// as `step`, beside a registry in state `registry`.
///  - Nothing yet: the poll ends with `Pending`, the stream is unchanged.
///  - The end of the source: the stream ends with it.
///  - A response envelope: it is handed on as a stray response.
///  - An error envelope: it is dropped, and the poll goes on to the next
///    answer unless this was the last message that one poll takes; then
///    the poll ends with `Pending`.
///  - Any other envelope: what `step_allowed` says of it.
pub open spec fn answer_allowed<T: Message>(
    before: EventsState,
    registry: RegistryState,
    answer: Poll<Option<ReceivedMessage>>,
    pulls: nat,
    after: EventsState,
    step: Step<T>,
) -> bool {
    match answer {
        Poll::Pending => step matches Step::Yield(Polled::Pending) && after == before,
        Poll::Ready(None) => step matches Step::Yield(Polled::Finished) && after
            == before.finished(),
        Poll::Ready(Some(message)) => match message.message@ {
            Envelope::RpcResponse { request_id, .. } => {
                &&& step matches Step::Yield(Polled::StrayResponse(from, id))
                &&& from == message.sender
                &&& id == request_id
                &&& after == before
            },
            Envelope::Error { .. } => {
                &&& after == before
                &&& if pulls + 1 < MAX_PULLS_PER_POLL {
                    step is Discard
                } else {
                    step matches Step::Yield(Polled::Pending)
                }
            },
            _ => step_allowed(before, registry, message, after, step),
        },
    }
}

/// Whether a poll can turn a stream in state `before` into `after` and
/// come out as `polled`, beside a registry in state `registry`. A stream
/// that has ended stays as it is and says `Finished`. Otherwise the poll
/// ends with what became of one answer of its source, one of the first
/// `MAX_PULLS_PER_POLL`; the answers before that one were error envelopes,
/// which leave the stream as it was.
pub open spec fn poll_allowed<T: Message>(
    before: EventsState,
    registry: RegistryState,
    after: EventsState,
    polled: Polled<T>,
) -> bool {
    if before.done {
        polled is Finished && after == before
    } else {
        exists|answer: Poll<Option<ReceivedMessage>>, pulls: nat|
            pulls < MAX_PULLS_PER_POLL && #[trigger] answer_allowed(
                before,
                registry,
                answer,
                pulls,
                after,
                Step::Yield(polled),
            )
    }
}

/// The stream of events of one application, over the messages of its
/// source.
#[derive(Debug)]
pub struct NetworkEvents<TMessage> {
    network_source: NetworkSource,
    done: bool,
    peers: PeerTable,
    peers_generation: u32,
    phantom: PhantomData<TMessage>,
    label: String,
}

/// Trait specifying the signature for `new()` `NetworkEvents`
pub trait NewNetworkEvents: Sized {
    fn new(network_source: NetworkSource, label: &str) -> Self;
}

impl<TMessage> View for NetworkEvents<TMessage> {
    type V = EventsState;

    closed spec fn view(&self) -> EventsState {
        EventsState { done: self.done, peers: self.peers@, generation: self.peers_generation }
    }
}

impl<TMessage: Message> NewNetworkEvents for NetworkEvents<TMessage> {
    /// A stream that has not ended and has not looked at any registry yet.
    fn new(network_source: NetworkSource, label: &str) -> (r: Self)
        ensures
            r@ == (EventsState { done: false, peers: Map::empty(), generation: 0 }),
            r.label_text() == label@,
    {
        NetworkEvents {
            network_source,
            done: false,
            peers: PeerTable::new(),
            peers_generation: 0,
            phantom: PhantomData,
            label: label.to_owned(),
        }
    }
}

impl<TMessage: Message> NetworkEvents<TMessage> {
    /// The source that the stream takes its messages from.
    pub closed spec fn source(&self) -> NetworkSource {
        self.network_source
    }

    /// The name under which the stream is reported, as text.
    pub closed spec fn label_text(&self) -> Seq<char> {
        self.label@
    }

    /// The name under which the stream is reported.
    pub fn label(&self) -> (r: &str)
        ensures
            r@ == self.label_text(),
    {
        self.label.as_str()
    }

    /// Renews the copy of the connection table if the registry has moved on
    /// since the copy was taken.
    pub fn update_peers(&mut self, registry: &OutboundPeerConnections)
        ensures
            final(self)@ == old(self)@.refresh(registry@),
            final(self).source() == old(self).source(),
            final(self).label_text() == old(self).label_text(),
    {
        if let Some((new_peers, new_generation)) = registry.get_generational(
            self.peers_generation,
        ) {
            self.peers_generation = new_generation;
            self.peers = new_peers;
        }
    }

    /// Whether the stream has ended. Once it has, it stays so.
    pub fn is_terminated(&self) -> (r: bool)
        ensures
            r == self@.done,
    {
        self.done
    }

    /// Takes one message that the source has yielded, other than a response
    /// envelope.
    pub fn on_message(&mut self, registry: &OutboundPeerConnections, message: ReceivedMessage) -> (r:
        Step<TMessage>)
        requires
            !(message.message@ is RpcResponse),
        ensures
            step_allowed(old(self)@, registry@, message, final(self)@, r),
            final(self).source() == old(self).source(),
            final(self).label_text() == old(self).label_text(),
    {
        let sender = message.sender;
        let ghost before = self@;
        match message.message {
            NetworkMessage::Error(_) => Step::Discard,
            NetworkMessage::RpcRequest(request) => {
                let ghost payload = request.raw_request@;
                match request.protocol_id.from_bytes::<TMessage>(request.raw_request.as_slice()) {
                    Err(e) => {
                        assert(decodes(request.protocol_id, payload, Err::<TMessage, CodecError>(e)));
                        self.done = true;
                        let r = Step::Yield(Polled::Finished);
                        assert(message.message@->RpcRequest_payload == payload);
                        assert(step_allowed(before, registry@, message, self@, r));
                        r
                    },
                    Ok(app_msg) => {
                        assert(decodes(
                            request.protocol_id,
                            payload,
                            Ok::<TMessage, CodecError>(app_msg),
                        ));
                        let (responder, response_reader) = completion_slot();
                        self.update_peers(registry);
                        match self.peers.get_shared(&sender) {
                            None => {
                                let r = Step::Yield(Polled::Pending);
                                assert(message.message@->RpcRequest_payload == payload);
                                assert(step_allowed(before, registry@, message, self@, r));
                                r
                            },
                            Some(peer) => {
                                let r = Step::Yield(
                                    Polled::Request(
                                        Event::RpcRequest(
                                            sender,
                                            app_msg,
                                            request.protocol_id,
                                            responder,
                                        ),
                                        ResponseRelay {
                                            receiver: response_reader,
                                            rpc_id: request.request_id,
                                            peer,
                                            sender,
                                            protocol_id: request.protocol_id,
                                        },
                                    ),
                                );
                                assert(step_allowed(before, registry@, message, self@, r));
                                r
                            },
                        }
                    },
                }
            },
            NetworkMessage::RpcResponse(_) => vstd::pervasive::unreached(),
            NetworkMessage::DirectSendMsg(direct) => {
                let ghost payload = direct.raw_msg@;
                match direct.protocol_id.from_bytes::<TMessage>(direct.raw_msg.as_slice()) {
                    Err(e) => {
                        assert(decodes(direct.protocol_id, payload, Err::<TMessage, CodecError>(e)));
                        self.done = true;
                        let r = Step::Yield(Polled::Finished);
                        assert(message.message@->DirectSend_payload == payload);
                        assert(step_allowed(before, registry@, message, self@, r));
                        r
                    },
                    Ok(app_msg) => {
                        let r = Step::Yield(Polled::Message(Event::Message(sender, app_msg)));
                        assert(step_allowed(before, registry@, message, self@, r));
                        r
                    },
                }
            },
        }
    }

    /// Takes one answer of the source, the one after `pulls` messages taken
    /// in this poll; see `answer_allowed`.
    pub fn on_answer(
        &mut self,
        registry: &OutboundPeerConnections,
        answer: Poll<Option<ReceivedMessage>>,
        pulls: usize,
    ) -> (r: Step<TMessage>)
        ensures
            answer_allowed(old(self)@, registry@, answer, pulls as nat, final(self)@, r),
            final(self).source() == old(self).source(),
            final(self).label_text() == old(self).label_text(),
    {
        match answer {
            Poll::Pending => Step::Yield(Polled::Pending),
            Poll::Ready(None) => {
                self.done = true;
                Step::Yield(Polled::Finished)
            },
            Poll::Ready(Some(message)) => {
                if let NetworkMessage::RpcResponse(response) = &message.message {
                    return Step::Yield(Polled::StrayResponse(message.sender, response.request_id));
                }
                let ghost envelope = message.message@;
                match self.on_message(registry, message) {
                    Step::Discard => {
                        assert(envelope is Error);
                        if pulls < MAX_PULLS_PER_POLL - 1 {
                            Step::Discard
                        } else {
                            Step::Yield(Polled::Pending)
                        }
                    },
                    Step::Yield(polled) => {
                        assert(!(envelope is Error));
                        Step::Yield(polled)
                    },
                }
            },
        }
    }

    /// Asks for the next event. A stream that has ended says so at once,
    /// without asking its source. Otherwise the source is asked, and asked
    /// again after each error envelope, up to `MAX_PULLS_PER_POLL` times,
    /// and each answer is taken by `on_answer`, which decides how the poll
    /// ends. The stream ends, for good, when the source ends or a payload
    /// cannot be decoded, and only then.
    pub fn poll_next(&mut self, registry: &OutboundPeerConnections, cx: &mut Context<'_>) -> (r:
        Polled<TMessage>)
        ensures
            poll_allowed(old(self)@, registry@, final(self)@, r),
            old(self)@.done ==> final(self).source() == old(self).source(),
            final(self)@.done <==> r is Finished,
            final(self).label_text() == old(self).label_text(),
    {
        if self.done {
            return Polled::Finished;
        }
        let mut pulls: usize = 0;
        loop
            invariant
                pulls < MAX_PULLS_PER_POLL,
                !self@.done,
                self@ == old(self)@,
                self.label_text() == old(self).label_text(),
            decreases MAX_PULLS_PER_POLL - pulls,
        {
            let answer = self.network_source.poll_next(cx);
            let ghost given = answer;
            match self.on_answer(registry, answer, pulls) {
                Step::Discard => {
                    pulls = pulls + 1;
                },
                Step::Yield(polled) => {
                    assert(answer_allowed(
                        old(self)@,
                        registry@,
                        given,
                        pulls as nat,
                        self@,
                        Step::Yield(polled),
                    ));
                    return polled;
                },
            }
        }
    }
}

} // verus!
