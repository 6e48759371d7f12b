//! What can go wrong on the send path and in an rpc.

use vstd::prelude::*;
use crate::identity::PeerId;

verus! {

/// A failure reported by a payload codec, handed on unchanged.
#[derive(Clone, Copy, Debug, PartialEq, Eq, Structural)]
pub enum CodecError {
    /// The payload type is not carried under this protocol tag.
    UnknownProtocol,
    /// The value cannot be put into bytes.
    Encode,
    /// The bytes are not a value of the payload type.
    Decode,
}

/// Why a direct send did not go out.
#[derive(Clone, Debug, PartialEq, Eq)]
pub enum NetworkError {
    /// The peer is not in the connection table, or its channel is closed.
    NotConnected,
    /// The peer's bounded channel has no room: the caller should back off.
    PeerFullCondition,
    /// The payload could not be encoded.
    Codec(CodecError),
}

/// Why an rpc did not yield a response.
#[derive(Clone, Debug, PartialEq, Eq)]
pub enum RpcError {
    /// The peer is not in the connection table, or its channel is closed.
    NotConnected(PeerId),
    /// The request could not be queued; the number says how many were in the way.
    TooManyPending(u32),
    /// The deadline passed before a response arrived.
    TimedOut,
    /// The completion slot was dropped without a value.
    UnexpectedResponseChannelCancel,
    /// The request could not be encoded, or the response not decoded.
    Codec(CodecError),
    /// The remote application answered with a failure of its own.
    ApplicationError(String),
}

} // verus!
