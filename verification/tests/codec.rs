use aptos_network::codec::{Message, RawMessage};
use aptos_network::error::CodecError;
use aptos_network::protocol::ProtocolId;

/// A payload that only the mempool protocols carry: four bytes, big endian.
#[derive(Debug, PartialEq, Eq)]
struct Counter(u32);

impl Message for Counter {
    fn to_bytes(&self, protocol: ProtocolId) -> Result<Vec<u8>, CodecError> {
        match protocol {
            ProtocolId::MempoolDirectSend | ProtocolId::MempoolRpc => {
                Ok(self.0.to_be_bytes().to_vec())
            }
            _ => Err(CodecError::UnknownProtocol),
        }
    }

    fn from_bytes(protocol: ProtocolId, bytes: &[u8]) -> Result<Self, CodecError> {
        match protocol {
            ProtocolId::MempoolDirectSend | ProtocolId::MempoolRpc => {
                let raw: [u8; 4] = bytes.try_into().map_err(|_| CodecError::Decode)?;
                Ok(Counter(u32::from_be_bytes(raw)))
            }
            _ => Err(CodecError::UnknownProtocol),
        }
    }
}

#[test]
fn raw_message_round_trips_under_every_tag() {
    let max = vec![0xabu8; 1 << 20];
    for payload in [vec![], vec![0u8], vec![1, 2, 3, 255], max] {
        for protocol in [
            ProtocolId::ConsensusRpcBcs,
            ProtocolId::MempoolDirectSend,
            ProtocolId::NetbenchRpc,
        ] {
            let message = RawMessage { bytes: payload.clone() };
            let bytes = message.to_bytes(protocol).unwrap();
            assert_eq!(bytes, payload);
            assert_eq!(RawMessage::from_bytes(protocol, &bytes), Ok(message));
        }
    }
}

#[test]
fn a_codec_of_the_application_round_trips_and_rejects_other_tags() {
    for value in [0u32, 1, 0xdead_beef, u32::MAX] {
        let bytes = Counter(value).to_bytes(ProtocolId::MempoolRpc).unwrap();
        assert_eq!(Counter::from_bytes(ProtocolId::MempoolRpc, &bytes), Ok(Counter(value)));
    }
    assert_eq!(Counter(1).to_bytes(ProtocolId::NetbenchRpc), Err(CodecError::UnknownProtocol));
    assert_eq!(
        Counter::from_bytes(ProtocolId::NetbenchRpc, &[0, 0, 0, 1]),
        Err(CodecError::UnknownProtocol)
    );
    assert_eq!(Counter::from_bytes(ProtocolId::MempoolRpc, &[0, 1]), Err(CodecError::Decode));
}

#[test]
fn protocol_names_and_priorities() {
    assert_eq!(ProtocolId::ConsensusRpcBcs.as_str(), "ConsensusRpcBcs");
    assert_eq!(ProtocolId::MempoolDirectSend.as_str(), "MempoolDirectSend");
    assert!(aptos_network::protocol::protocol_is_high_priority(ProtocolId::ConsensusDirectSendBcs));
    assert!(!aptos_network::protocol::protocol_is_high_priority(ProtocolId::MempoolRpc));
}
