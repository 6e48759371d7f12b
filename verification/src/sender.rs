//! The send side: direct messages to one peer or to many, and rpc requests,
//! over a copy of the connection table that is renewed when the table has
//! moved on.

use vstd::prelude::*;
use std::marker::PhantomData;
use std::sync::Arc;
use crate::channel::{
    bytes_as_slice,
    bytes_of,
    completion_slot,
    guarded,
    try_send,
    CompletionReceiver,
    CompletionSender,
    PeerChannel,
    RpcResult,
    TrySend,
};
use crate::codec::{decodes, encodes, Message};
use crate::error::{CodecError, NetworkError, RpcError};
use crate::identity::{NetworkId, PeerId, PeerNetworkId, RoleType};
use crate::matcher::{Nanos, OpenRpcRequestState, OutboundRpcMatcher, RpcTable};
use crate::protocol::{protocol_is_high_priority, ProtocolId};
use crate::registry::{
    generation_counts_changes,
    OutboundPeerConnections,
    PeerStub,
    PeerTable,
    RegistryChange,
    RegistryState,
};
use crate::wire::{DirectSendMsg, Envelope, NetworkMessage, RequestId, RpcRequest};

verus! {

/// A sender as a mathematical value: whom it sends for, and its copy of the
/// connection table with the generation at which the copy was taken.
pub struct SenderState {
    pub network_id: NetworkId,
    pub role_type: RoleType,
    pub peers: Map<PeerNetworkId, PeerStub>,
    pub generation: u32,
}

impl SenderState {
    /// The sender after it has asked the registry for news.
    pub open spec fn refresh(self, registry: RegistryState) -> SenderState {
        match registry.snapshot_if_stale(self.generation) {
            Some((peers, generation)) => SenderState { peers, generation, ..self },
            None => self,
        }
    }

    /// The copy is what the registry held at the copy's generation: if that
    /// is still the registry's generation, the copy is the registry's map.
    pub open spec fn in_sync(self, registry: RegistryState) -> bool {
        self.generation == registry.generation ==> self.peers == registry.peers
    }

    /// The identity under which this sender addresses `recipient`.
    pub open spec fn peer(self, recipient: PeerId) -> PeerNetworkId {
        PeerNetworkId { network_id: self.network_id, peer_id: recipient }
    }
}

/// A sender in sync with the registry sees, after asking for news, exactly
/// the registry's peers.
pub proof fn refresh_shows_the_registry(sender: SenderState, registry: RegistryState)
    requires
        sender.in_sync(registry),
    ensures
        sender.refresh(registry).peers == registry.peers,
        sender.refresh(registry).generation == registry.generation,
        sender.refresh(registry).in_sync(registry),
{
}

/// A sender whose copy is no newer than the registry and in sync with it
/// stays in sync however the registry changes, as long as the generation
/// counter does not run over: a changed registry has a generation that the
/// sender has not seen.
pub proof fn sender_stays_in_sync(
    sender: SenderState,
    registry: RegistryState,
    changes: Seq<RegistryChange>,
)
    requires
        sender.in_sync(registry),
        sender.generation <= registry.generation,
        registry.generation + changes.len() <= u32::MAX,
    ensures
        sender.in_sync(registry.after(changes)),
        sender.generation <= registry.after(changes).generation,
{
    generation_counts_changes(registry, changes);
    if changes.len() == 0 {
        assert(registry.after(changes) == registry);
    }
}

/// The interface from the applications above to the network layer below:
/// direct sends and rpc requests to the peers of one network.
#[derive(Debug)]
pub struct NetworkSender<TMessage> {
    network_id: NetworkId,
    peers: PeerTable,
    peers_generation: u32,
    role_type: RoleType,
    _marker: PhantomData<TMessage>,
}

/// Trait specifying the signature for `new()` `NetworkSender`s
pub trait NewNetworkSender: Sized {
    fn new(network_id: NetworkId, role_type: RoleType) -> Self;
}

impl<TMessage> View for NetworkSender<TMessage> {
    type V = SenderState;

    closed spec fn view(&self) -> SenderState {
        SenderState {
            network_id: self.network_id,
            role_type: self.role_type,
            peers: self.peers@,
            generation: self.peers_generation,
        }
    }
}

impl<TMessage> NewNetworkSender for NetworkSender<TMessage> {
    /// A sender that has not looked at any registry yet.
    fn new(network_id: NetworkId, role_type: RoleType) -> (r: Self)
        ensures
            r@ == (SenderState { network_id, role_type, peers: Map::empty(), generation: 0 }),
    {
        NetworkSender {
            network_id,
            peers: PeerTable::new(),
            peers_generation: 0,
            role_type,
            _marker: PhantomData,
        }
    }
}

impl<TMessage> Clone for NetworkSender<TMessage> {
    fn clone(&self) -> (r: Self)
        ensures
            r@ == self@,
    {
        NetworkSender {
            network_id: self.network_id,
            peers: self.peers.snapshot(),
            peers_generation: self.peers_generation,
            role_type: self.role_type,
            _marker: PhantomData,
        }
    }
}

/// A direct message that is ready to go: the peer it goes to, the queue of
/// that peer it goes into, and the envelope.
#[derive(Debug)]
pub struct StagedSend {
    pub peer: Arc<PeerStub>,
    pub high_priority: bool,
    pub message: NetworkMessage,
}

/// The queue of `peer` that traffic of the given priority goes into.
pub fn pick_channel(peer: &PeerStub, high_priority: bool) -> (r: &PeerChannel)
    ensures
        *r == (if high_priority {
            peer.sender_high_prio
        } else {
            peer.sender
        }),
{
    if high_priority {
        &peer.sender_high_prio
    } else {
        &peer.sender
    }
}

impl StagedSend {
    /// The queue the message goes into.
    pub fn channel(&self) -> (r: &PeerChannel)
        ensures
            *r == (if self.high_priority {
                self.peer.sender_high_prio
            } else {
                self.peer.sender
            }),
    {
        pick_channel(&*self.peer, self.high_priority)
    }

    /// Puts the message into its queue if there is room, without waiting.
    pub fn try_deliver(self) -> TrySend {
        try_send(pick_channel(&*self.peer, self.high_priority), self.message)
    }
}

/// The envelope of a direct message with the given payload.
pub fn direct_send_envelope(protocol: ProtocolId, payload: Vec<u8>) -> (r: NetworkMessage)
    ensures
        r@ == (Envelope::DirectSend { protocol_id: protocol, priority: 0, payload: payload@ }),
{
    NetworkMessage::DirectSendMsg(DirectSendMsg { protocol_id: protocol, priority: 0, raw_msg: payload })
}

/// The envelope of an rpc request with the given payload.
pub fn rpc_request_envelope(protocol: ProtocolId, request_id: RequestId, payload: Vec<u8>) -> (r:
    NetworkMessage)
    ensures
        r@ == (Envelope::RpcRequest {
            protocol_id: protocol,
            request_id,
            priority: 0,
            payload: payload@,
        }),
{
    NetworkMessage::RpcRequest(
        RpcRequest { protocol_id: protocol, request_id, priority: 0, raw_request: payload },
    )
}

/// What the end of a non-blocking enqueue means for a direct send.
pub fn send_verdict(outcome: TrySend) -> (r: Result<(), NetworkError>)
    ensures
        r == sent_as(outcome),
{
    match outcome {
        TrySend::Sent => Ok(()),
        TrySend::Full => Err(NetworkError::PeerFullCondition),
        TrySend::Closed => Err(NetworkError::NotConnected),
    }
}

/// A direct send succeeds when the queue took the message, reports a full
/// peer when the queue had no room, and a missing connection when the queue
/// is closed.
pub open spec fn sent_as(outcome: TrySend) -> Result<(), NetworkError> {
    match outcome {
        TrySend::Sent => Ok(()),
        TrySend::Full => Err(NetworkError::PeerFullCondition),
        TrySend::Closed => Err(NetworkError::NotConnected),
    }
}

/// Whether `attempt` can be how a direct send to `peer` ended, given the
/// sender's peers and that its payload was encoded: without the peer only
/// `NotConnected`; with it, whatever the peer's queue decided.
pub open spec fn attempt_allowed(
    peers: Map<PeerNetworkId, PeerStub>,
    peer: PeerNetworkId,
    attempt: Result<(), NetworkError>,
) -> bool {
    if peers.contains_key(peer) {
        exists|outcome: TrySend| attempt == #[trigger] sent_as(outcome)
    } else {
        attempt == Err::<(), NetworkError>(NetworkError::NotConnected)
    }
}

impl<TMessage> NetworkSender<TMessage> {
    /// Renews the copy of the connection table if the registry has moved on
    /// since the copy was taken.
    pub fn update_peers(&mut self, registry: &OutboundPeerConnections)
        ensures
            final(self)@ == old(self)@.refresh(registry@),
    {
        if let Some((new_peers, new_generation)) = registry.get_generational(
            self.peers_generation,
        ) {
            self.peers_generation = new_generation;
            self.peers = new_peers;
        }
    }

    pub fn network_id(&self) -> (r: NetworkId)
        ensures
            r == self@.network_id,
    {
        self.network_id
    }

    /// Whether the sender's copy of the table holds `recipient`.
    pub fn knows(&self, recipient: PeerId) -> (r: bool)
        ensures
            r == self@.peers.contains_key(self@.peer(recipient)),
    {
        self.peers.contains_key(&PeerNetworkId::new(self.network_id, recipient))
    }
}


/// Whether `r` can be what staging a direct send of `message` to
/// `recipient` returns, for a sender in state `sender`. Without the peer it
/// is `NotConnected`. With it, either the codec's error, handed on, or the
/// staged send: to that peer, into the queue that the protocol's priority
/// picks, with the encoded payload in a direct-send envelope of priority 0.
pub open spec fn staging_allowed<T: Message>(
    sender: SenderState,
    recipient: PeerId,
    protocol: ProtocolId,
    message: &T,
    r: Result<StagedSend, NetworkError>,
) -> bool {
    let peer = sender.peer(recipient);
    if !sender.peers.contains_key(peer) {
        r matches Err(NetworkError::NotConnected)
    } else {
        match r {
            Ok(staged) => {
                &&& *staged.peer == sender.peers[peer]
                &&& staged.high_priority == protocol.high_priority()
                &&& staged.message@ matches Envelope::DirectSend { protocol_id, priority, payload }
                &&& protocol_id == protocol
                &&& priority == 0
                &&& encodes(message, protocol, Ok(payload))
            },
            Err(NetworkError::Codec(e)) => encodes(message, protocol, Err(e)),
            Err(_) => false,
        }
    }
}

/// Whether `r` can be what a direct send of `message` to `recipient`
/// returns, for a sender in state `sender`. Without the peer it is
/// `NotConnected`. With it, either the codec's error, handed on, or, the
/// payload encoded, what the peer's queue decided.
pub open spec fn direct_send_allowed<T: Message>(
    sender: SenderState,
    recipient: PeerId,
    protocol: ProtocolId,
    message: &T,
    r: Result<(), NetworkError>,
) -> bool {
    let peer = sender.peer(recipient);
    if !sender.peers.contains_key(peer) {
        r matches Err(NetworkError::NotConnected)
    } else {
        ||| r matches Err(NetworkError::Codec(e)) && encodes(message, protocol, Err(e))
        ||| (exists|payload: Seq<u8>| encodes(message, protocol, Ok(payload))) && exists|
            outcome: TrySend,
        | r == #[trigger] sent_as(outcome)
    }
}

/// The first failure among `attempts`, or success if there is none.
pub open spec fn first_error(attempts: Seq<Result<(), NetworkError>>) -> Result<(), NetworkError>
    decreases attempts.len(),
{
    if attempts.len() == 0 {
        Ok(())
    } else if first_error(attempts.drop_last()) is Err {
        first_error(attempts.drop_last())
    } else {
        attempts.last()
    }
}

/// `first_error` is what its name says: the failed attempt that no failed
/// attempt precedes.
pub proof fn first_error_is_the_first(attempts: Seq<Result<(), NetworkError>>, i: int)
    requires
        0 <= i < attempts.len(),
        attempts[i] is Err,
        forall|j: int| 0 <= j < i ==> attempts[j] is Ok,
    ensures
        first_error(attempts) == attempts[i],
    decreases attempts.len(),
{
    if i == attempts.len() - 1 {
        none_failed(attempts.drop_last());
    } else {
        first_error_is_the_first(attempts.drop_last(), i);
    }
}

/// Without a failed attempt the result is success.
pub proof fn none_failed(attempts: Seq<Result<(), NetworkError>>)
    requires
        forall|j: int| 0 <= j < attempts.len() ==> attempts[j] is Ok,
    ensures
        first_error(attempts) is Ok,
    decreases attempts.len(),
{
    if attempts.len() > 0 {
        none_failed(attempts.drop_last());
    }
}

/// The first failure among the attempts, or success if there is none.
pub fn summarize(attempts: Vec<Result<(), NetworkError>>) -> (r: Result<(), NetworkError>)
    ensures
        r == first_error(attempts@),
{
    let ghost all = attempts@;
    let mut first: Result<(), NetworkError> = Ok(());
    for attempt in iter: attempts
        invariant
            iter.seq() == all,
            first == first_error(all.take(iter.index() as int)),
    {
        let ghost k = iter.index() as int;
        assert(all.take(k + 1).drop_last() == all.take(k));
        if first.is_ok() {
            first = attempt;
        }
    }
    assert(all.take(all.len() as int) == all);
    first
}

impl<TMessage: Message> NetworkSender<TMessage> {
    /// Makes a direct message ready for `recipient` without sending it:
    /// renews the copy of the connection table, finds the peer, encodes the
    /// payload.
    pub fn stage_send(
        &mut self,
        registry: &OutboundPeerConnections,
        recipient: PeerId,
        protocol: ProtocolId,
        message: &TMessage,
    ) -> (r: Result<StagedSend, NetworkError>)
        ensures
            final(self)@ == old(self)@.refresh(registry@),
            staging_allowed(final(self)@, recipient, protocol, message, r),
            old(self)@.in_sync(registry@) && !registry@.peers.contains_key(
                old(self)@.peer(recipient),
            ) ==> r matches Err(NetworkError::NotConnected),
    {
        self.update_peers(registry);
        let peer_network_id = PeerNetworkId::new(self.network_id, recipient);
        match self.peers.get_shared(&peer_network_id) {
            None => Err(NetworkError::NotConnected),
            Some(peer) => {
                match protocol.to_bytes(message) {
                    Err(e) => Err(NetworkError::Codec(e)),
                    Ok(payload) => Ok(
                        StagedSend {
                            peer,
                            high_priority: protocol_is_high_priority(protocol),
                            message: direct_send_envelope(protocol, payload),
                        },
                    ),
                }
            },
        }
    }

    /// Send a message to a single recipient, without waiting: a peer whose
    /// queue is full is reported, not waited for.
    pub fn send_to(
        &mut self,
        registry: &OutboundPeerConnections,
        recipient: PeerId,
        protocol: ProtocolId,
        message: TMessage,
    ) -> (r: Result<(), NetworkError>)
        ensures
            final(self)@ == old(self)@.refresh(registry@),
            direct_send_allowed(final(self)@, recipient, protocol, &message, r),
            old(self)@.in_sync(registry@) && !registry@.peers.contains_key(
                old(self)@.peer(recipient),
            ) ==> r matches Err(NetworkError::NotConnected),
    {
        match self.stage_send(registry, recipient, protocol, &message) {
            Err(e) => Err(e),
            Ok(staged) => {
                let outcome = staged.try_deliver();
                let r = send_verdict(outcome);
                assert(r == sent_as(outcome));
                r
            },
        }
    }

    /// Tries to send one payload to each of `recipients`, without waiting,
    /// and reports how each attempt ended, in the order of `recipients`.
    /// The copy of the connection table is renewed first.
    pub fn send_to_each(
        &mut self,
        registry: &OutboundPeerConnections,
        recipients: &[PeerId],
        protocol: ProtocolId,
        payload: &Vec<u8>,
    ) -> (r: Vec<Result<(), NetworkError>>)
        ensures
            final(self)@ == old(self)@.refresh(registry@),
            r@.len() == recipients@.len(),
            forall|i: int|
                0 <= i < recipients@.len() ==> attempt_allowed(
                    final(self)@.peers,
                    final(self)@.peer(recipients@[i]),
                    #[trigger] r@[i],
                ),
    {
        self.update_peers(registry);
        let high_priority = protocol_is_high_priority(protocol);
        let mut attempts: Vec<Result<(), NetworkError>> = Vec::new();
        let mut i: usize = 0;
        while i < recipients.len()
            invariant
                i <= recipients.len(),
                attempts@.len() == i,
                self@ == old(self)@.refresh(registry@),
                forall|j: int|
                    0 <= j < i ==> attempt_allowed(
                        self@.peers,
                        self@.peer(recipients@[j]),
                        #[trigger] attempts@[j],
                    ),
            decreases recipients.len() - i,
        {
            let peer_network_id = PeerNetworkId::new(self.network_id, recipients[i]);
            let attempt = match self.peers.get_shared(&peer_network_id) {
                None => Err(NetworkError::NotConnected),
                Some(peer) => {
                    let staged = StagedSend {
                        peer,
                        high_priority,
                        message: direct_send_envelope(protocol, payload.clone()),
                    };
                    let outcome = staged.try_deliver();
                    let verdict = send_verdict(outcome);
                    assert(verdict == sent_as(outcome));
                    verdict
                },
            };
            attempts.push(attempt);
            i = i + 1;
        }
        attempts
    }

    /// Send a message to many recipients. The payload is encoded once; a
    /// codec failure ends the call before anything is sent or renewed.
    /// Every recipient is tried, whatever became of the others, and the
    /// first failure in the order of `recipients` is what is returned.
    pub fn send_to_many(
        &mut self,
        registry: &OutboundPeerConnections,
        recipients: &[PeerId],
        protocol: ProtocolId,
        message: TMessage,
    ) -> (r: Result<(), NetworkError>)
        ensures
            (r matches Err(NetworkError::Codec(e)) && encodes(&message, protocol, Err(e))
                && final(self)@ == old(self)@) || ((exists|payload: Seq<u8>|
                encodes(&message, protocol, Ok(payload))) && final(self)@ == old(self)@.refresh(
                registry@,
            ) && exists|attempts: Seq<Result<(), NetworkError>>|
                {
                    &&& attempts.len() == recipients@.len()
                    &&& forall|i: int|
                        0 <= i < recipients@.len() ==> attempt_allowed(
                            final(self)@.peers,
                            final(self)@.peer(recipients@[i]),
                            #[trigger] attempts[i],
                        )
                    &&& r == first_error(attempts)
                }),
    {
        match protocol.to_bytes(&message) {
            Err(e) => Err(NetworkError::Codec(e)),
            Ok(payload) => {
                let attempts = self.send_to_each(registry, recipients, protocol, &payload);
                let ghost seen = attempts@;
                let r = summarize(attempts);
                assert(r == first_error(seen));
                r
            },
        }
    }
}


/// An rpc whose request is on its way: what the caller needs to wait for
/// the response and to end the rpc.
#[derive(Debug)]
pub struct PendingRpc {
    pub recipient: PeerId,
    pub protocol: ProtocolId,
    pub request_id: RequestId,
    /// When the caller stops waiting.
    pub deadline: Nanos,
    /// Where the response arrives.
    pub receiver: CompletionReceiver,
    /// The peer's table of open requests, which holds this one.
    pub matcher: OutboundRpcMatcher,
}

/// How the wait for a response ended.
#[derive(Debug)]
pub enum RpcWait {
    /// The completion slot was filled.
    Filled(RpcResult),
    /// The completion slot was dropped without a value.
    Dropped,
    /// The deadline passed first.
    TimedOut,
}

/// What a failed enqueue means for an rpc to `recipient`: a full queue
/// counts as one request too many, a closed one as a missing connection.
pub open spec fn rpc_refused_as(outcome: TrySend, recipient: PeerId) -> RpcError {
    if outcome is Full {
        RpcError::TooManyPending(1)
    } else {
        RpcError::NotConnected(recipient)
    }
}

/// What the end of a non-blocking enqueue means for an rpc request.
pub fn rpc_send_verdict(outcome: TrySend, recipient: PeerId) -> (r: Result<(), RpcError>)
    ensures
        r == (if outcome is Sent {
            Ok::<(), RpcError>(())
        } else {
            Err(rpc_refused_as(outcome, recipient))
        }),
{
    match outcome {
        TrySend::Sent => Ok(()),
        TrySend::Full => Err(RpcError::TooManyPending(1)),
        TrySend::Closed => Err(RpcError::NotConnected(recipient)),
    }
}

/// Whether `r` can be what sending an rpc request returns, for a sender in
/// state `sender`. Without the peer it is `NotConnected`. With it, the
/// codec's error, handed on; or, the payload encoded, the pending rpc, with
/// its deadline `timeout` after `now` and the peer's table of open
/// requests; or what a refused enqueue means; or `TimedOut` where the
/// peer's table could not be locked.
pub open spec fn rpc_start_allowed<T: Message>(
    sender: SenderState,
    recipient: PeerId,
    protocol: ProtocolId,
    message: &T,
    now: Nanos,
    timeout: Nanos,
    r: Result<PendingRpc, RpcError>,
) -> bool {
    let peer = sender.peer(recipient);
    let encoded = exists|payload: Seq<u8>| encodes(message, protocol, Ok(payload));
    if !sender.peers.contains_key(peer) {
        r == Err::<PendingRpc, RpcError>(RpcError::NotConnected(recipient))
    } else {
        match r {
            Ok(pending) => {
                &&& encoded
                &&& pending.recipient == recipient
                &&& pending.protocol == protocol
                &&& pending.deadline == now + timeout
                &&& pending.matcher == sender.peers[peer].open_outbound_rpc
            },
            Err(RpcError::Codec(e)) => encodes(message, protocol, Err(e)),
            Err(RpcError::TooManyPending(n)) => encoded && n == 1,
            Err(RpcError::NotConnected(p)) => encoded && p == recipient,
            Err(RpcError::TimedOut) => encoded,
            Err(_) => false,
        }
    }
}

/// Whether `r` can be what an rpc returns whose wait ended as `outcome`:
/// the decoded response, or the codec's error, for a slot filled with
/// bytes; the error the slot was filled with; `UnexpectedResponseChannelCancel`
/// for a dropped slot; `TimedOut` for a passed deadline.
pub open spec fn rpc_result_allowed<T: Message>(
    protocol: ProtocolId,
    outcome: RpcWait,
    r: Result<T, RpcError>,
) -> bool {
    match outcome {
        RpcWait::Filled(Ok(bytes)) => match r {
            Ok(response) => decodes(protocol, bytes_of(bytes), Ok::<T, CodecError>(response)),
            Err(RpcError::Codec(e)) => decodes(protocol, bytes_of(bytes), Err::<T, CodecError>(e)),
            Err(_) => false,
        },
        RpcWait::Filled(Err(e)) => r == Err::<T, RpcError>(e),
        RpcWait::Dropped => r == Err::<T, RpcError>(RpcError::UnexpectedResponseChannelCancel),
        RpcWait::TimedOut => r == Err::<T, RpcError>(RpcError::TimedOut),
    }
}

/// What an rpc under `protocol` returns whose wait ended as `outcome`.
pub fn rpc_result<T: Message>(protocol: ProtocolId, outcome: RpcWait) -> (r: Result<T, RpcError>)
    ensures
        rpc_result_allowed(protocol, outcome, r),
{
    match outcome {
        RpcWait::Filled(Ok(bytes)) => {
            match protocol.from_bytes::<T>(bytes_as_slice(&bytes)) {
                Ok(response) => Ok(response),
                Err(e) => Err(RpcError::Codec(e)),
            }
        },
        RpcWait::Filled(Err(e)) => Err(e),
        RpcWait::Dropped => Err(RpcError::UnexpectedResponseChannelCancel),
        RpcWait::TimedOut => Err(RpcError::TimedOut),
    }
}

/// A request whose envelope the queue refused is closed again; one whose
/// envelope is in the queue stays open.
pub fn close_if_refused(table: &mut RpcTable, request_id: RequestId, outcome: TrySend)
    ensures
        final(table)@ == (if outcome is Sent {
            old(table)@
        } else {
            old(table)@.remove(request_id)
        }),
{
    match outcome {
        TrySend::Sent => {},
        _ => {
            let _ = table.remove(request_id);
        },
    }
}

/// A request whose deadline has passed is closed, so that a response that
/// still comes meets no entry; however else the wait ended, the table stays
/// as it is.
pub fn close_if_timed_out(table: &mut RpcTable, request_id: RequestId, outcome: &RpcWait)
    ensures
        final(table)@ == (if *outcome is TimedOut {
            old(table)@.remove(request_id)
        } else {
            old(table)@
        }),
{
    match outcome {
        RpcWait::TimedOut => {
            let _ = table.remove(request_id);
        },
        _ => {},
    }
}

impl PendingRpc {
    /// How long the caller may still wait at time `now`: the time left to
    /// the deadline, or `None` once the deadline has passed.
    pub fn remaining(&self, now: Nanos) -> (r: Option<Nanos>)
        ensures
            r == (if now <= self.deadline {
                Some((self.deadline - now) as Nanos)
            } else {
                None
            }),
    {
        if now <= self.deadline {
            Some(self.deadline - now)
        } else {
            None
        }
    }

    /// What becomes of the rpc once the queue has answered for its
    /// envelope: with the envelope in the queue the rpc is pending; a
    /// refusal ends it, and the request is closed again in the peer's
    /// table (`close_if_refused`).
    pub fn settle(self, outcome: TrySend) -> (r: Result<PendingRpc, RpcError>)
        ensures
            r == (if outcome is Sent {
                Ok::<PendingRpc, RpcError>(self)
            } else {
                Err(rpc_refused_as(outcome, self.recipient))
            }),
    {
        match self.matcher.lock() {
            Some(mut guard) => close_if_refused(guarded(&mut guard), self.request_id, outcome),
            None => {},
        }
        match rpc_send_verdict(outcome, self.recipient) {
            Ok(()) => Ok(self),
            Err(e) => Err(e),
        }
    }

    /// Ends the rpc with how its wait ended. After a passed deadline the
    /// request is closed in the peer's table (`close_if_timed_out`).
    pub fn finish<T: Message>(self, outcome: RpcWait) -> (r: Result<T, RpcError>)
        ensures
            rpc_result_allowed(self.protocol, outcome, r),
    {
        match self.matcher.lock() {
            Some(mut guard) => close_if_timed_out(guarded(&mut guard), self.request_id, &outcome),
            None => {},
        }
        rpc_result(self.protocol, outcome)
    }
}

/// An rpc request that is ready to go: the peer it goes to, the queue of
/// that peer it goes into, the id it was given, and the envelope, which
/// carries that id.
#[derive(Debug)]
pub struct StagedRpc {
    pub recipient: PeerId,
    pub protocol: ProtocolId,
    pub peer: Arc<PeerStub>,
    pub high_priority: bool,
    pub request_id: RequestId,
    pub message: NetworkMessage,
}

/// Whether `r` can be what staging an rpc request to `recipient` returns,
/// for a sender in state `sender`. Without the peer it is `NotConnected`.
/// With it, either the codec's error, handed on, or the staged request: to
/// that peer, into the queue that `high_prio` picks, with the encoded
/// payload in a request envelope of priority 0 under the request's id.
pub open spec fn rpc_staging_allowed<T: Message>(
    sender: SenderState,
    recipient: PeerId,
    protocol: ProtocolId,
    message: &T,
    high_prio: bool,
    r: Result<StagedRpc, RpcError>,
) -> bool {
    let peer = sender.peer(recipient);
    if !sender.peers.contains_key(peer) {
        r == Err::<StagedRpc, RpcError>(RpcError::NotConnected(recipient))
    } else {
        match r {
            Ok(staged) => {
                &&& staged.recipient == recipient
                &&& staged.protocol == protocol
                &&& *staged.peer == sender.peers[peer]
                &&& staged.high_priority == high_prio
                &&& staged.message@ matches Envelope::RpcRequest {
                    protocol_id,
                    request_id,
                    priority,
                    payload,
                }
                &&& protocol_id == protocol
                &&& request_id == staged.request_id
                &&& priority == 0
                &&& encodes(message, protocol, Ok(payload))
            },
            Err(RpcError::Codec(e)) => encodes(message, protocol, Err(e)),
            Err(_) => false,
        }
    }
}

impl StagedRpc {
    /// The queue the request goes into.
    pub fn channel(&self) -> (r: &PeerChannel)
        ensures
            *r == (if self.high_priority {
                self.peer.sender_high_prio
            } else {
                self.peer.sender
            }),
    {
        pick_channel(&*self.peer, self.high_priority)
    }

    /// Opens the request in `table`, under its id, with the slot that its
    /// response goes to.
    pub fn open_in(
        &self,
        table: &mut RpcTable,
        slot: CompletionSender,
        started: Nanos,
        deadline: Nanos,
        network_id: NetworkId,
        role_type: RoleType,
    )
        ensures
            final(table)@ == old(table)@.insert(
                self.request_id,
                (OpenRpcRequestState {
                    sender: slot,
                    protocol_id: self.protocol,
                    started,
                    deadline,
                    network_id,
                    role_type,
                }),
            ),
    {
        let _ = table.insert(
            self.request_id,
            OpenRpcRequestState {
                sender: slot,
                protocol_id: self.protocol,
                started,
                deadline,
                network_id,
                role_type,
            },
        );
    }

    /// Opens the request in the peer's table of open requests (`open_in`).
    /// `false` when the table's lock is poisoned: then nothing was opened.
    pub fn open(
        &self,
        slot: CompletionSender,
        started: Nanos,
        deadline: Nanos,
        network_id: NetworkId,
        role_type: RoleType,
    ) -> bool {
        match self.peer.open_outbound_rpc.lock() {
            Some(mut guard) => {
                self.open_in(guarded(&mut guard), slot, started, deadline, network_id, role_type);
                true
            },
            None => false,
        }
    }

    /// What the caller holds of the request while it waits: the request's
    /// id, the peer's table, the deadline and the slot's waiting side.
    pub fn pending(&self, receiver: CompletionReceiver, deadline: Nanos) -> (r: PendingRpc)
        ensures
            r.recipient == self.recipient,
            r.protocol == self.protocol,
            r.request_id == self.request_id,
            r.deadline == deadline,
            r.receiver == receiver,
            r.matcher == self.peer.open_outbound_rpc,
    {
        PendingRpc {
            recipient: self.recipient,
            protocol: self.protocol,
            request_id: self.request_id,
            deadline,
            receiver,
            matcher: self.peer.open_outbound_rpc.share(),
        }
    }

    /// Puts the envelope into its queue if there is room, without waiting.
    pub fn try_deliver(self) -> TrySend {
        try_send(pick_channel(&*self.peer, self.high_priority), self.message)
    }
}

impl<TMessage: Message> NetworkSender<TMessage> {
    /// Makes an rpc request ready for `recipient` without sending it:
    /// renews the copy of the connection table, finds the peer, encodes the
    /// payload, and draws the request's id from the peer's counter.
    pub fn stage_rpc(
        &mut self,
        registry: &OutboundPeerConnections,
        recipient: PeerId,
        protocol: ProtocolId,
        req_msg: &TMessage,
        high_prio: bool,
    ) -> (r: Result<StagedRpc, RpcError>)
        ensures
            final(self)@ == old(self)@.refresh(registry@),
            rpc_staging_allowed(final(self)@, recipient, protocol, req_msg, high_prio, r),
            old(self)@.in_sync(registry@) && !registry@.peers.contains_key(
                old(self)@.peer(recipient),
            ) ==> r == Err::<StagedRpc, RpcError>(RpcError::NotConnected(recipient)),
    {
        let peer_network_id = PeerNetworkId::new(self.network_id, recipient);
        self.update_peers(registry);
        match self.peers.get_shared(&peer_network_id) {
            None => Err(RpcError::NotConnected(recipient)),
            Some(peer) => {
                match protocol.to_bytes(req_msg) {
                    Err(e) => Err(RpcError::Codec(e)),
                    Ok(payload) => {
                        let request_id = peer.rpc_counter.fetch_add(
                            1,
                            std::sync::atomic::Ordering::SeqCst,
                        );
                        Ok(
                            StagedRpc {
                                recipient,
                                protocol,
                                peer,
                                high_priority: high_prio,
                                request_id,
                                message: rpc_request_envelope(protocol, request_id, payload),
                            },
                        )
                    },
                }
            },
        }
    }

    /// Sends an rpc request to `recipient` and opens it in the peer's table
    /// of requests, without waiting for anything. `now` is the time of the
    /// call, `timeout` how long the caller will wait; `high_prio` picks the
    /// peer's high-priority queue. The request is staged (`stage_rpc`),
    /// opened under its id (`StagedRpc::open`), handed to its queue, and
    /// settled by the queue's answer (`PendingRpc::settle`): when the
    /// request cannot be queued, it is closed again before the call
    /// returns.
    pub fn send_rpc(
        &mut self,
        registry: &OutboundPeerConnections,
        recipient: PeerId,
        protocol: ProtocolId,
        req_msg: TMessage,
        now: Nanos,
        timeout: Nanos,
        high_prio: bool,
    ) -> (r: Result<PendingRpc, RpcError>)
        requires
            now + timeout <= u64::MAX,
        ensures
            final(self)@ == old(self)@.refresh(registry@),
            rpc_start_allowed(final(self)@, recipient, protocol, &req_msg, now, timeout, r),
            old(self)@.in_sync(registry@) && !registry@.peers.contains_key(
                old(self)@.peer(recipient),
            ) ==> r == Err::<PendingRpc, RpcError>(RpcError::NotConnected(recipient)),
    {
        let deadline = now + timeout;
        match self.stage_rpc(registry, recipient, protocol, &req_msg, high_prio) {
            Err(e) => Err(e),
            Ok(staged) => {
                let (slot, receiver) = completion_slot();
                if !staged.open(slot, now, deadline, self.network_id, self.role_type) {
                    return Err(RpcError::TimedOut);
                }
                let pending = staged.pending(receiver, deadline);
                let outcome = staged.try_deliver();
                pending.settle(outcome)
            },
        }
    }
}

} // verus!
