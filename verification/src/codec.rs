//! The codec boundary: how an application's payload type turns into bytes
//! under a protocol tag and back.

use vstd::prelude::*;
use bytes::Bytes;
use crate::channel::{bytes_as_slice, bytes_of};
use crate::error::CodecError;
use crate::protocol::ProtocolId;

verus! {

/// A payload type that can travel under protocol tags. The send path and the
/// event stream touch payload bytes only through these two functions, and
/// promise nothing of a codec beyond what it returned.
pub trait Message: Sized {
    fn to_bytes(&self, protocol: ProtocolId) -> Result<Vec<u8>, CodecError>;

    fn from_bytes(protocol: ProtocolId, bytes: &[u8]) -> Result<Self, CodecError>;
}

/// Whether encoding `message` under `protocol` may come out as `outcome`:
/// the payload bytes, or the codec's error.
pub open spec fn encodes<T: Message>(
    message: &T,
    protocol: ProtocolId,
    outcome: Result<Seq<u8>, CodecError>,
) -> bool {
    exists|r: Result<Vec<u8>, CodecError>|
        #[trigger] T::to_bytes.ensures((message, protocol), r) && outcome == match r {
            Ok(bytes) => Ok::<Seq<u8>, CodecError>(bytes@),
            Err(e) => Err(e),
        }
}

/// Whether decoding `bytes` under `protocol` may come out as `outcome`.
pub open spec fn decodes<T: Message>(
    protocol: ProtocolId,
    bytes: Seq<u8>,
    outcome: Result<T, CodecError>,
) -> bool {
    exists|s: &[u8]| s@ == bytes && #[trigger] T::from_bytes.ensures((protocol, s), outcome)
}

impl ProtocolId {
    /// Encodes `message` under this tag.
    pub fn to_bytes<T: Message>(self, message: &T) -> (r: Result<Vec<u8>, CodecError>)
        ensures
            encodes(
                message,
                self,
                match r {
                    Ok(bytes) => Ok::<Seq<u8>, CodecError>(bytes@),
                    Err(e) => Err(e),
                },
            ),
    {
        message.to_bytes(self)
    }

    /// Decodes `bytes` under this tag.
    pub fn from_bytes<T: Message>(self, bytes: &[u8]) -> (r: Result<T, CodecError>)
        ensures
            decodes(self, bytes@, r),
    {
        T::from_bytes(self, bytes)
    }
}

/// Generalized functionality for any request across direct sends and rpc:
/// payload bytes together with the tag to decode them under.
pub trait SerializedRequest {
    fn protocol_id(&self) -> ProtocolId;

    fn data(&self) -> &Bytes;

    /// Converts the serialized message into its deserialized version, by
    /// the codec of `TMessage` under the request's own tag.
    fn to_message<TMessage: Message>(&self) -> (r: Result<TMessage, CodecError>)
        ensures
            exists|protocol: ProtocolId, data: &Bytes|
                {
                    &&& #[trigger] Self::protocol_id.ensures((self,), protocol)
                    &&& #[trigger] Self::data.ensures((self,), data)
                    &&& decodes(protocol, bytes_of(*data), r)
                },
    {
        self.protocol_id().from_bytes(bytes_as_slice(self.data()))
    }
}

/// A payload that is already bytes: under every tag it is carried as it is.
#[derive(Debug, PartialEq, Eq)]
pub struct RawMessage {
    pub bytes: Vec<u8>,
}

impl Message for RawMessage {
    fn to_bytes(&self, protocol: ProtocolId) -> (r: Result<Vec<u8>, CodecError>)
        ensures
            r matches Ok(bytes) && bytes@ == self.bytes@,
    {
        Ok(self.bytes.clone())
    }

    fn from_bytes(protocol: ProtocolId, bytes: &[u8]) -> (r: Result<Self, CodecError>)
        ensures
            r matches Ok(message) && message.bytes@ == bytes@,
    {
        Ok(RawMessage { bytes: vstd::slice::slice_to_vec(bytes) })
    }
}

/// A raw message comes back from its encoding with the bytes it had: what
/// encoding gives is the bytes themselves, and decoding those never fails
/// and yields a message that holds them.
pub proof fn raw_message_round_trip(
    message: RawMessage,
    protocol: ProtocolId,
    encoded: Result<Seq<u8>, CodecError>,
    decoded: Result<RawMessage, CodecError>,
)
    requires
        encodes(&message, protocol, encoded),
        encoded matches Ok(bytes) ==> decodes(protocol, bytes, decoded),
    ensures
        encoded == Ok::<Seq<u8>, CodecError>(message.bytes@),
        decoded matches Ok(back) && back.bytes@ == message.bytes@,
{
}

} // verus!
