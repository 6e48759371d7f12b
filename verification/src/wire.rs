//! The envelopes that travel between peers, as this layer sees them.

use vstd::prelude::*;
use crate::identity::PeerNetworkId;
use crate::protocol::ProtocolId;

verus! {

/// Correlates an rpc response with its request; unique per peer connection.
pub type RequestId = u32;

/// The priority field of an envelope.
pub type Priority = u8;

/// What an error envelope reports.
#[derive(Clone, Copy, Debug, PartialEq, Eq, Structural)]
pub enum ErrorCode {
    ParsingError,
    NotSupported,
}

#[derive(Clone, Debug, PartialEq, Eq)]
pub struct RpcRequest {
    pub protocol_id: ProtocolId,
    pub request_id: RequestId,
    pub priority: Priority,
    pub raw_request: Vec<u8>,
}

#[derive(Clone, Debug, PartialEq, Eq)]
pub struct RpcResponse {
    pub request_id: RequestId,
    pub priority: Priority,
    pub raw_response: Vec<u8>,
}

#[derive(Clone, Debug, PartialEq, Eq)]
pub struct DirectSendMsg {
    pub protocol_id: ProtocolId,
    pub priority: Priority,
    pub raw_msg: Vec<u8>,
}

/// One envelope on the wire.
#[derive(Clone, Debug, PartialEq, Eq)]
pub enum NetworkMessage {
    Error(ErrorCode),
    RpcRequest(RpcRequest),
    RpcResponse(RpcResponse),
    DirectSendMsg(DirectSendMsg),
}

/// An envelope as a mathematical value.
pub enum Envelope {
    Error { code: ErrorCode },
    RpcRequest { protocol_id: ProtocolId, request_id: RequestId, priority: Priority, payload: Seq<u8> },
    RpcResponse { request_id: RequestId, priority: Priority, payload: Seq<u8> },
    DirectSend { protocol_id: ProtocolId, priority: Priority, payload: Seq<u8> },
}

impl Envelope {
    /// The protocol tag the envelope carries, if its kind carries one.
    pub open spec fn protocol_id(self) -> Option<ProtocolId> {
        match self {
            Envelope::Error { .. } => None,
            Envelope::RpcRequest { protocol_id, .. } => Some(protocol_id),
            Envelope::RpcResponse { .. } => None,
            Envelope::DirectSend { protocol_id, .. } => Some(protocol_id),
        }
    }

    /// The text under which traffic of this envelope is counted.
    pub open spec fn label(self) -> Seq<char> {
        match self {
            Envelope::Error { .. } => "error"@,
            Envelope::RpcRequest { protocol_id, .. } => protocol_id.name(),
            Envelope::RpcResponse { .. } => "rpc response"@,
            Envelope::DirectSend { protocol_id, .. } => protocol_id.name(),
        }
    }

    /// The number of payload bytes in the envelope.
    pub open spec fn data_len(self) -> nat {
        match self {
            Envelope::Error { .. } => 0,
            Envelope::RpcRequest { payload, .. } => payload.len(),
            Envelope::RpcResponse { payload, .. } => payload.len(),
            Envelope::DirectSend { payload, .. } => payload.len(),
        }
    }
}

impl View for NetworkMessage {
    type V = Envelope;

    open spec fn view(&self) -> Envelope {
        match *self {
            NetworkMessage::Error(code) => Envelope::Error { code },
            NetworkMessage::RpcRequest(req) => Envelope::RpcRequest {
                protocol_id: req.protocol_id,
                request_id: req.request_id,
                priority: req.priority,
                payload: req.raw_request@,
            },
            NetworkMessage::RpcResponse(resp) => Envelope::RpcResponse {
                request_id: resp.request_id,
                priority: resp.priority,
                payload: resp.raw_response@,
            },
            NetworkMessage::DirectSendMsg(msg) => Envelope::DirectSend {
                protocol_id: msg.protocol_id,
                priority: msg.priority,
                payload: msg.raw_msg@,
            },
        }
    }
}

impl NetworkMessage {
    pub fn data_len(&self) -> (r: usize)
        ensures
            r == self@.data_len(),
    {
        match self {
            NetworkMessage::Error(_) => 0,
            NetworkMessage::RpcRequest(req) => req.raw_request.len(),
            NetworkMessage::RpcResponse(resp) => resp.raw_response.len(),
            NetworkMessage::DirectSendMsg(msg) => msg.raw_msg.len(),
        }
    }

    pub fn protocol_id_as_str(&self) -> (r: &'static str)
        ensures
            r@ == self@.label(),
    {
        match self {
            NetworkMessage::Error(_) => "error",
            NetworkMessage::RpcRequest(req) => req.protocol_id.as_str(),
            NetworkMessage::RpcResponse(_) => "rpc response",
            NetworkMessage::DirectSendMsg(msg) => msg.protocol_id.as_str(),
        }
    }
}

/// An envelope together with the peer it came from.
#[derive(Clone, Debug, PartialEq, Eq)]
pub struct ReceivedMessage {
    pub message: NetworkMessage,
    pub sender: PeerNetworkId,
}

impl ReceivedMessage {
    pub fn protocol_id(&self) -> (r: Option<ProtocolId>)
        ensures
            r == self.message@.protocol_id(),
    {
        match &self.message {
            NetworkMessage::Error(_) => None,
            NetworkMessage::RpcRequest(req) => Some(req.protocol_id),
            NetworkMessage::RpcResponse(_) => None,
            NetworkMessage::DirectSendMsg(msg) => Some(msg.protocol_id),
        }
    }

    pub fn protocol_id_as_str(&self) -> (r: &'static str)
        ensures
            r@ == self.message@.label(),
    {
        match &self.message {
            NetworkMessage::Error(_) => "error",
            NetworkMessage::RpcRequest(req) => req.protocol_id.as_str(),
            NetworkMessage::RpcResponse(_) => "rpc response",
            NetworkMessage::DirectSendMsg(msg) => msg.protocol_id.as_str(),
        }
    }
}

} // verus!
