use crate::quantum_entanglement::{entangled_pair, QuantumEntanglement};
use crate::quantum_network::{NetworkError, QuantumNetwork, QuantumState};
use crate::random::random_below;
use vstd::prelude::*;
use vstd::utf8::{decode_utf8, encode_utf8, valid_utf8};

verus! {

/// The number of bytes in a distributed key.
pub const KEY_LEN: usize = 16;

/// One chance in this many that a key byte has its low bit flipped.
pub const NOISE_ODDS: u16 = 10;

/// Each byte of `data` combined by exclusive-or with the key byte at the same
/// position, the key repeated as often as needed.
pub open spec fn xor_cycle(data: Seq<u8>, key: Seq<u8>) -> Seq<u8>
    recommends
        key.len() > 0,
{
    Seq::new(data.len(), |i: int| data[i] ^ key[i % (key.len() as int)])
}

/// The text that decryption yields when the recovered bytes are not UTF-8.
pub open spec fn decryption_failed_text() -> Seq<char> {
    "Decryption failed"@
}

/// What decrypting `ciphertext` with a non-empty `key` gives: the recovered
/// bytes read as UTF-8, or the failure text.
pub open spec fn decrypted_text(ciphertext: Seq<u8>, key: Seq<u8>) -> Seq<char> {
    let plain = xor_cycle(ciphertext, key);
    if valid_utf8(plain) {
        decode_utf8(plain)
    } else {
        decryption_failed_text()
    }
}

/// A key byte after the simulated measurement noise.
pub open spec fn noisy_byte(b: u8, flip: bool) -> u8 {
    if flip {
        b ^ 1
    } else {
        b
    }
}

/// Why key distribution between two nodes of `m` fails, if it does.
pub open spec fn key_distribution_error(
    m: Map<u32, crate::quantum_network::QuantumNode>,
    id1: u32,
    id2: u32,
) -> Option<NetworkError> {
    if !m.contains_key(id1) || !m.contains_key(id2) {
        Some(NetworkError::NotFound)
    } else if !entangled_pair(m[id1].state, m[id2].state) {
        Some(NetworkError::NotEntangled)
    } else {
        None
    }
}

/// Relies on `String::from_utf8`: it succeeds exactly on valid UTF-8, and
/// then holds the characters that the bytes encode.
#[verifier::external_body]
fn string_from_utf8(bytes: Vec<u8>) -> (r: Option<String>)
    ensures
        r is Some <==> valid_utf8(bytes@),
        r matches Some(s) ==> s@ == decode_utf8(bytes@),
{
    String::from_utf8(bytes).ok()
}

/// Cryptographic operations: key distribution and the repeating-key cipher.
pub struct QuantumCryptography;

impl QuantumCryptography {
    /// Combines `data` with the repeated `key` by exclusive-or.
    pub fn xor_with_key(data: &[u8], key: &[u8]) -> (r: Vec<u8>)
        requires
            key@.len() > 0,
        ensures
            r@ == xor_cycle(data@, key@),
    {
        let mut out: Vec<u8> = Vec::new();
        let mut i: usize = 0;
        while i < data.len()
            invariant
                key@.len() > 0,
                i <= data@.len(),
                out@ =~= xor_cycle(data@.subrange(0, i as int), key@),
            decreases data@.len() - i,
        {
            let k = key[i % key.len()];
            out.push(data[i] ^ k);
            proof {
                assert(xor_cycle(data@.subrange(0, i + 1), key@) =~= xor_cycle(
                    data@.subrange(0, i as int),
                    key@,
                ).push(data[i as int] ^ k));
            }
            i = i + 1;
        }
        assert(data@.subrange(0, i as int) =~= data@);
        out
    }

    /// Encrypts the UTF-8 bytes of `message` with the repeated `key`. Fails
    /// with `InvalidKey` exactly when the key is empty.
    pub fn encrypt(message: &str, key: &Vec<u8>) -> (r: Result<Vec<u8>, NetworkError>)
        ensures
            key@.len() == 0 ==> r == Err::<Vec<u8>, NetworkError>(NetworkError::InvalidKey),
            key@.len() > 0 ==> (r matches Ok(c) && c@ == xor_cycle(encode_utf8(message@), key@)),
    {
        if key.len() == 0 {
            return Err(NetworkError::InvalidKey);
        }
        Ok(QuantumCryptography::xor_with_key(message.as_bytes(), key.as_slice()))
    }

    /// Decrypts `ciphertext` with the repeated `key` and reads the result as
    /// UTF-8; bytes that are not UTF-8 give the text "Decryption failed".
    /// Fails with `InvalidKey` exactly when the key is empty.
    pub fn decrypt(ciphertext: &Vec<u8>, key: &Vec<u8>) -> (r: Result<String, NetworkError>)
        ensures
            key@.len() == 0 ==> r == Err::<String, NetworkError>(NetworkError::InvalidKey),
            key@.len() > 0 ==> (r matches Ok(s) && s@ == decrypted_text(ciphertext@, key@)),
    {
        if key.len() == 0 {
            return Err(NetworkError::InvalidKey);
        }
        let plain = QuantumCryptography::xor_with_key(ciphertext.as_slice(), key.as_slice());
        match string_from_utf8(plain) {
            Some(s) => Ok(s),
            None => Ok("Decryption failed".to_owned()),
        }
    }

    /// Applies the measurement noise to a key: each byte whose flag is set
    /// has its low bit flipped.
    pub fn apply_noise(raw: &Vec<u8>, flips: &Vec<bool>) -> (r: Vec<u8>)
        requires
            raw@.len() == flips@.len(),
        ensures
            r@.len() == raw@.len(),
            forall|i: int| 0 <= i < raw@.len() ==> r@[i] == noisy_byte(#[trigger] raw@[i], flips@[i]),
    {
        let mut out: Vec<u8> = Vec::new();
        let mut i: usize = 0;
        while i < raw.len()
            invariant
                raw@.len() == flips@.len(),
                i <= raw@.len(),
                out@.len() == i,
                forall|k: int| 0 <= k < i ==> out@[k] == noisy_byte(#[trigger] raw@[k], flips@[k]),
            decreases raw@.len() - i,
        {
            let b = if flips[i] {
                raw[i] ^ 1
            } else {
                raw[i]
            };
            out.push(b);
            i = i + 1;
        }
        out
    }

    /// Draws the material of a key: `KEY_LEN` uniform bytes, and for each a
    /// flag that is set with a one in `NOISE_ODDS` chance.
    fn draw_key_material() -> (r: (Vec<u8>, Vec<bool>))
        ensures
            r.0@.len() == KEY_LEN,
            r.1@.len() == KEY_LEN,
    {
        let mut raw: Vec<u8> = Vec::new();
        let mut flips: Vec<bool> = Vec::new();
        let mut i: usize = 0;
        while i < KEY_LEN
            invariant
                i <= KEY_LEN,
                raw@.len() == i,
                flips@.len() == i,
            decreases KEY_LEN - i,
        {
            raw.push(random_below(256) as u8);
            flips.push(random_below(NOISE_ODDS) == 0);
            i = i + 1;
        }
        (raw, flips)
    }

    /// Draws a fresh key: `KEY_LEN` uniform bytes, each with a one in
    /// `NOISE_ODDS` chance of a flipped low bit.
    pub fn generate_key() -> (r: Vec<u8>)
        ensures
            r@.len() == KEY_LEN,
    {
        let (raw, flips) = QuantumCryptography::draw_key_material();
        QuantumCryptography::apply_noise(&raw, &flips)
    }

    /// Key distribution with the key material already drawn: where
    /// `node_id_2` holds the entangled copy of `node_id_1`'s state, the key is
    /// `raw` with the noise `flips` applied. Fails with `NotFound` if a node is
    /// missing and with `NotEntangled` if the pair is not entangled.
    pub fn quantum_key_distribution_with(
        network: &QuantumNetwork,
        node_id_1: u32,
        node_id_2: u32,
        raw: &Vec<u8>,
        flips: &Vec<bool>,
    ) -> (r: Result<Vec<u8>, NetworkError>)
        requires
            raw@.len() == flips@.len(),
        ensures
            match r {
                Ok(k) => key_distribution_error(network@, node_id_1, node_id_2) is None && k@.len()
                    == raw@.len() && forall|i: int|
                    0 <= i < raw@.len() ==> k@[i] == noisy_byte(#[trigger] raw@[i], flips@[i]),
                Err(e) => key_distribution_error(network@, node_id_1, node_id_2) == Some(e),
            },
    {
        let node_1 = match network.get_node(node_id_1) {
            Some(n) => n,
            None => return Err(NetworkError::NotFound),
        };
        let node_2 = match network.get_node(node_id_2) {
            Some(n) => n,
            None => return Err(NetworkError::NotFound),
        };
        if !QuantumEntanglement::are_entangled(node_1, node_2) {
            return Err(NetworkError::NotEntangled);
        }
        Ok(QuantumCryptography::apply_noise(raw, flips))
    }

    /// Key distribution: where `node_id_2` holds the entangled copy of
    /// `node_id_1`'s state, a fresh `KEY_LEN`-byte key. Fails with `NotFound`
    /// if a node is missing and with `NotEntangled` if the pair is not
    /// entangled. The network is left unchanged.
    pub fn quantum_key_distribution(network: &mut QuantumNetwork, node_id_1: u32, node_id_2: u32) -> (r:
        Result<Vec<u8>, NetworkError>)
        ensures
            *final(network) == *old(network),
            match r {
                Ok(k) => key_distribution_error(old(network)@, node_id_1, node_id_2) is None
                    && k@.len() == KEY_LEN,
                Err(e) => key_distribution_error(old(network)@, node_id_1, node_id_2) == Some(e),
            },
    {
        let (raw, flips) = QuantumCryptography::draw_key_material();
        QuantumCryptography::quantum_key_distribution_with(network, node_id_1, node_id_2, &raw, &flips)
    }
}

/// Decrypting what `xor_cycle` made with the same non-empty key gives the
/// data back.
pub proof fn lemma_xor_round_trip(data: Seq<u8>, key: Seq<u8>)
    requires
        key.len() > 0,
    ensures
        xor_cycle(xor_cycle(data, key), key) == data,
{
    let once = xor_cycle(data, key);
    assert forall|i: int| 0 <= i < data.len() implies #[trigger] xor_cycle(once, key)[i] == data[i] by {
        let b = data[i];
        let k = key[i % (key.len() as int)];
        assert((b ^ k) ^ k == b) by (bit_vector);
    }
    assert(xor_cycle(once, key) =~= data);
}

/// Decrypting the encryption of a message with the same non-empty key gives
/// the message back.
pub proof fn lemma_decrypt_encrypt(message: Seq<char>, key: Seq<u8>)
    requires
        key.len() > 0,
    ensures
        decrypted_text(xor_cycle(encode_utf8(message), key), key) == message,
{
    lemma_xor_round_trip(encode_utf8(message), key);
    vstd::utf8::encode_utf8_valid_utf8(message);
    vstd::utf8::encode_utf8_decode_utf8(message);
}

/// Two nodes just registered in state `Zero` are not entangled, so key
/// distribution between them fails with `NotEntangled`.
pub proof fn lemma_fresh_nodes_refuse_key(
    m: Map<u32, crate::quantum_network::QuantumNode>,
    id1: u32,
    id2: u32,
)
    requires
        m.contains_key(id1),
        m.contains_key(id2),
        m[id1].is_fresh(id1, QuantumState::Zero),
        m[id2].is_fresh(id2, QuantumState::Zero),
    ensures
        key_distribution_error(m, id1, id2) == Some(NetworkError::NotEntangled),
{
}

} // verus!
