use quantum_network::{
    NetworkError, QuantumCryptography, QuantumNetwork, QuantumPacket, QuantumPacketType,
    QuantumState,
};

#[test]
fn encrypt_then_decrypt_gives_message_back() {
    let key = vec![1u8, 2, 3];
    let c = QuantumCryptography::encrypt("hello world", &key).unwrap();
    assert_eq!(QuantumCryptography::decrypt(&c, &key).unwrap(), "hello world");
}

#[test]
fn xor_round_trip_on_arbitrary_bytes() {
    let key = vec![0xAAu8, 0x01];
    let data = vec![0u8, 0xFF, 0x80, 7, 9];
    let once = QuantumCryptography::xor_with_key(&data, &key);
    assert_eq!(once, vec![0xAA, 0xFE, 0x2A, 6, 0xA3]);
    assert_eq!(QuantumCryptography::xor_with_key(&once, &key), data);
}

#[test]
fn encrypt_repeats_the_key() {
    let key = vec![1u8];
    assert_eq!(QuantumCryptography::encrypt("AB", &key).unwrap(), vec![0x40, 0x43]);
    let key = vec![0x20u8, 0];
    assert_eq!(QuantumCryptography::encrypt("abc", &key).unwrap(), vec![0x41, 0x62, 0x43]);
}

#[test]
fn encrypt_empty_message() {
    assert_eq!(QuantumCryptography::encrypt("", &vec![5u8]).unwrap(), Vec::<u8>::new());
    assert_eq!(QuantumCryptography::decrypt(&Vec::new(), &vec![5u8]).unwrap(), "");
}

#[test]
fn encrypt_with_empty_key_is_invalid() {
    assert_eq!(QuantumCryptography::encrypt("x", &Vec::new()), Err(NetworkError::InvalidKey));
}

#[test]
fn decrypt_with_empty_key_is_invalid() {
    assert_eq!(QuantumCryptography::decrypt(&vec![1u8], &Vec::new()), Err(NetworkError::InvalidKey));
}

#[test]
fn decrypt_of_non_text_gives_failure_text() {
    let r = QuantumCryptography::decrypt(&vec![0xFFu8, 0xFE], &vec![0u8]).unwrap();
    assert_eq!(r, "Decryption failed");
}

#[test]
fn decrypt_recovers_multibyte_text() {
    let key = vec![9u8, 200, 31];
    let c = QuantumCryptography::encrypt("héllo ✓", &key).unwrap();
    assert_eq!(QuantumCryptography::decrypt(&c, &key).unwrap(), "héllo ✓");
}

#[test]
fn noise_flips_low_bit_where_flagged() {
    let raw = vec![0u8, 1, 2, 255];
    let flips = vec![true, true, false, true];
    assert_eq!(QuantumCryptography::apply_noise(&raw, &flips), vec![1, 0, 2, 254]);
}

#[test]
fn generated_key_has_sixteen_bytes() {
    assert_eq!(QuantumCryptography::generate_key().len(), 16);
}

#[test]
fn key_distribution_refuses_fresh_nodes() {
    let mut net = QuantumNetwork::new();
    net.add_node(1, QuantumState::Zero).unwrap();
    net.add_node(2, QuantumState::Zero).unwrap();
    assert_eq!(
        QuantumCryptography::quantum_key_distribution(&mut net, 1, 2),
        Err(NetworkError::NotEntangled)
    );
}

#[test]
fn key_distribution_missing_node() {
    let mut net = QuantumNetwork::new();
    net.add_node(1, QuantumState::Zero).unwrap();
    assert_eq!(
        QuantumCryptography::quantum_key_distribution(&mut net, 1, 2),
        Err(NetworkError::NotFound)
    );
    assert_eq!(
        QuantumCryptography::quantum_key_distribution(&mut net, 3, 1),
        Err(NetworkError::NotFound)
    );
}

#[test]
fn key_distribution_after_entanglement() {
    let mut net = QuantumNetwork::new();
    net.add_node(1, QuantumState::One).unwrap();
    net.add_node(2, QuantumState::Zero).unwrap();
    net.entangle_nodes(1, 2).unwrap();
    let key = QuantumCryptography::quantum_key_distribution(&mut net, 1, 2).unwrap();
    assert_eq!(key.len(), 16);
    assert_eq!(
        QuantumCryptography::quantum_key_distribution(&mut net, 2, 1),
        Err(NetworkError::NotEntangled)
    );
}

#[test]
fn key_distribution_with_given_draws() {
    let mut net = QuantumNetwork::new();
    net.add_node(1, QuantumState::Zero).unwrap();
    net.add_node(2, QuantumState::Zero).unwrap();
    net.entangle_nodes(1, 2).unwrap();
    let raw: Vec<u8> = (0u8..16).collect();
    let flips: Vec<bool> = (0..16).map(|i| i % 4 == 0).collect();
    let key = QuantumCryptography::quantum_key_distribution_with(&net, 1, 2, &raw, &flips).unwrap();
    assert_eq!(key, vec![1, 1, 2, 3, 5, 5, 6, 7, 9, 9, 10, 11, 13, 13, 14, 15]);
    assert_eq!(
        QuantumCryptography::quantum_key_distribution_with(&net, 2, 1, &raw, &flips),
        Err(NetworkError::NotEntangled)
    );
}

#[test]
fn packet_encrypt_then_decrypt() {
    let p = QuantumPacket::new(QuantumPacketType::KeyExchange, 4, 5, b"payload".to_vec());
    let key = vec![3u8, 141];
    let e = p.encrypt(&key).unwrap();
    assert_eq!(e.packet_type, QuantumPacketType::KeyExchange);
    assert_eq!(e.sender_id, 4);
    assert_eq!(e.receiver_id, 5);
    assert_ne!(e.payload, b"payload".to_vec());
    let d = e.decrypt(&key).unwrap();
    assert_eq!(d.payload, b"payload".to_vec());
}

#[test]
fn packet_encrypt_replaces_invalid_bytes() {
    let p = QuantumPacket::new(QuantumPacketType::EncryptedData, 1, 2, vec![0xFF]);
    let e = p.encrypt(&vec![0u8]).unwrap();
    assert_eq!(e.payload, vec![0xEF, 0xBF, 0xBD]);
}

#[test]
fn packet_decrypt_of_non_text_carries_failure_text() {
    let p = QuantumPacket::new(QuantumPacketType::EncryptedData, 1, 2, vec![0xFF]);
    let d = p.decrypt(&vec![0u8]).unwrap();
    assert_eq!(d.payload, b"Decryption failed".to_vec());
}

#[test]
fn packet_with_empty_key_is_invalid() {
    let p = QuantumPacket::new(QuantumPacketType::EncryptedData, 1, 2, vec![1]);
    assert!(matches!(p.encrypt(&Vec::new()), Err(NetworkError::InvalidKey)));
    assert!(matches!(p.decrypt(&Vec::new()), Err(NetworkError::InvalidKey)));
}
