use crate::quantum_cryptography::{decrypted_text, xor_cycle, QuantumCryptography};
use crate::quantum_network::NetworkError;
use vstd::prelude::*;
use vstd::utf8::{decode_utf8, encode_utf8, valid_utf8};

verus! {

/// The kinds of packet.
#[derive(Debug, Clone, Copy, PartialEq, Eq, Structural)]
pub enum QuantumPacketType {
    Entanglement,
    KeyExchange,
    EncryptedData,
    ErrorCorrection,
}

/// An envelope carrying a payload from one node to another.
#[derive(Debug, Clone)]
pub struct QuantumPacket {
    pub packet_type: QuantumPacketType,
    pub sender_id: u32,
    pub receiver_id: u32,
    pub payload: Vec<u8>,
}

/// The text that reading `bytes` as UTF-8, with each invalid sequence
/// replaced by U+FFFD, gives.
pub uninterp spec fn lossy_text(bytes: Seq<u8>) -> Seq<char>;

/// Relies on `String::from_utf8_lossy`: the characters the bytes encode, with
/// each invalid sequence replaced; valid UTF-8 is read as it is.
#[verifier::external_body]
fn string_from_utf8_lossy(bytes: &Vec<u8>) -> (r: String)
    ensures
        r@ == lossy_text(bytes@),
        valid_utf8(bytes@) ==> r@ == decode_utf8(bytes@),
{
    String::from_utf8_lossy(bytes.as_slice()).into_owned()
}

impl QuantumPacket {
    /// Builds a packet from its parts.
    pub fn new(packet_type: QuantumPacketType, sender_id: u32, receiver_id: u32, payload: Vec<u8>) -> (r:
        QuantumPacket)
        ensures
            r.packet_type == packet_type,
            r.sender_id == sender_id,
            r.receiver_id == receiver_id,
            r.payload == payload,
    {
        QuantumPacket { packet_type, sender_id, receiver_id, payload }
    }

    /// A copy of the packet whose payload is encrypted with `key`: the payload
    /// is read as text, invalid sequences replaced, and that text encrypted.
    /// Fails with `InvalidKey` exactly when the key is empty.
    pub fn encrypt(&self, key: &Vec<u8>) -> (r: Result<QuantumPacket, NetworkError>)
        ensures
            key@.len() == 0 ==> r == Err::<QuantumPacket, NetworkError>(NetworkError::InvalidKey),
            key@.len() > 0 ==> (r matches Ok(p) && p.packet_type == self.packet_type && p.sender_id
                == self.sender_id && p.receiver_id == self.receiver_id && p.payload@ == xor_cycle(
                encode_utf8(lossy_text(self.payload@)),
                key@,
            ) && (valid_utf8(self.payload@) ==> p.payload@ == xor_cycle(self.payload@, key@))),
    {
        proof {
            if valid_utf8(self.payload@) {
                vstd::utf8::decode_utf8_encode_utf8(self.payload@);
            }
        }
        let text = string_from_utf8_lossy(&self.payload);
        match QuantumCryptography::encrypt(text.as_str(), key) {
            Ok(payload) => Ok(
                QuantumPacket {
                    packet_type: self.packet_type,
                    sender_id: self.sender_id,
                    receiver_id: self.receiver_id,
                    payload,
                },
            ),
            Err(e) => Err(e),
        }
    }

    /// A copy of the packet whose payload is decrypted with `key`: the UTF-8
    /// bytes of the decrypted text (see `QuantumCryptography::decrypt`).
    /// Fails with `InvalidKey` exactly when the key is empty.
    pub fn decrypt(&self, key: &Vec<u8>) -> (r: Result<QuantumPacket, NetworkError>)
        ensures
            key@.len() == 0 ==> r == Err::<QuantumPacket, NetworkError>(NetworkError::InvalidKey),
            key@.len() > 0 ==> (r matches Ok(p) && p.packet_type == self.packet_type && p.sender_id
                == self.sender_id && p.receiver_id == self.receiver_id && p.payload@ == encode_utf8(
                decrypted_text(self.payload@, key@),
            )),
    {
        match QuantumCryptography::decrypt(&self.payload, key) {
            Ok(text) => Ok(
                QuantumPacket {
                    packet_type: self.packet_type,
                    sender_id: self.sender_id,
                    receiver_id: self.receiver_id,
                    payload: vstd::slice::slice_to_vec(text.as_str().as_bytes()),
                },
            ),
            Err(e) => Err(e),
        }
    }
}

} // verus!
