use quantum_network::{
    NetworkError, QuantumAPI, QuantumEntanglement, QuantumError, QuantumErrorCorrection,
    QuantumNetwork, QuantumNode, QuantumSimulator, QuantumState,
};

fn entangled(s: QuantumState) -> QuantumState {
    QuantumState::Entangled(Box::new(s))
}

#[test]
fn add_node_twice_is_duplicate() {
    let mut net = QuantumNetwork::new();
    assert_eq!(net.add_node(7, QuantumState::One), Ok(()));
    assert_eq!(net.add_node(7, QuantumState::Zero), Err(NetworkError::DuplicateId));
    assert_eq!(net.len(), 1);
    assert_eq!(net.get_node(7).unwrap().state, QuantumState::One);
}

#[test]
fn register_twice_keeps_first_node() {
    let mut api = QuantumAPI::new();
    assert!(api.register_node(1));
    assert!(api.register_node(2));
    assert!(api.entangle_nodes(1, 2));
    assert!(!api.register_node(1));
    assert_eq!(api.get_node_status(1), Some((vec![2], 0)));
}

#[test]
fn get_missing_node() {
    let net = QuantumNetwork::new();
    assert!(net.get_node(3).is_none());
}

#[test]
fn entangle_is_directed() {
    let mut net = QuantumNetwork::new();
    net.add_node(1, QuantumState::One).unwrap();
    net.add_node(2, QuantumState::Zero).unwrap();
    QuantumEntanglement::entangle_nodes(&mut net, 1, 2).unwrap();
    let a = net.get_node(1).unwrap();
    let b = net.get_node(2).unwrap();
    assert_eq!(a.state, QuantumState::One);
    assert_eq!(b.state, entangled(QuantumState::One));
    assert!(QuantumEntanglement::are_entangled(a, b));
    assert!(!QuantumEntanglement::are_entangled(b, a));
}

#[test]
fn entangle_missing_node() {
    let mut net = QuantumNetwork::new();
    net.add_node(1, QuantumState::Zero).unwrap();
    assert_eq!(net.entangle_nodes(1, 9), Err(NetworkError::NotFound));
    assert_eq!(QuantumEntanglement::entangle_nodes(&mut net, 9, 1), Err(NetworkError::NotFound));
    assert_eq!(net.get_node(1).unwrap().state, QuantumState::Zero);
}

#[test]
fn entangle_node_with_itself_nests() {
    let mut net = QuantumNetwork::new();
    net.add_node(1, QuantumState::Zero).unwrap();
    net.entangle_nodes(1, 1).unwrap();
    assert_eq!(net.get_node(1).unwrap().state, entangled(QuantumState::Zero));
}

#[test]
fn break_entanglement_cases() {
    let mut net = QuantumNetwork::new();
    net.add_node(1, QuantumState::Zero).unwrap();
    net.add_node(2, QuantumState::One).unwrap();
    assert_eq!(QuantumEntanglement::break_entanglement(&mut net, 1), Err(NetworkError::NotEntangled));
    assert_eq!(QuantumEntanglement::break_entanglement(&mut net, 2), Err(NetworkError::NotEntangled));
    assert_eq!(net.get_node(2).unwrap().state, QuantumState::One);
    net.entangle_nodes(2, 1).unwrap();
    assert_eq!(QuantumEntanglement::break_entanglement(&mut net, 1), Ok(()));
    assert_eq!(net.get_node(1).unwrap().state, QuantumState::Zero);
    assert_eq!(QuantumEntanglement::break_entanglement(&mut net, 5), Err(NetworkError::NotFound));
}

#[test]
fn tunneling_with_given_draw() {
    let mut net = QuantumNetwork::new();
    net.add_node(1, QuantumState::Zero).unwrap();
    net.add_node(2, QuantumState::One).unwrap();
    assert_eq!(net.quantum_tunneling_with(1, 2, false), Err(NetworkError::TunnelingFailed));
    assert_eq!(net.get_node(1).unwrap().state, QuantumState::Zero);
    assert_eq!(net.quantum_tunneling_with(1, 2, true), Ok(()));
    assert_eq!(net.get_node(1).unwrap().state, QuantumState::One);
    assert_eq!(net.get_node(2).unwrap().state, QuantumState::One);
    assert_eq!(net.quantum_tunneling_with(1, 3, true), Err(NetworkError::NotFound));
}

#[test]
fn tunneling_with_random_draw() {
    let mut net = QuantumNetwork::new();
    net.add_node(1, QuantumState::Zero).unwrap();
    net.add_node(2, QuantumState::One).unwrap();
    match net.quantum_tunneling(1, 2) {
        Ok(()) => assert_eq!(net.get_node(1).unwrap().state, QuantumState::One),
        Err(e) => {
            assert_eq!(e, NetworkError::TunnelingFailed);
            assert_eq!(net.get_node(1).unwrap().state, QuantumState::Zero);
        }
    }
    assert_eq!(net.quantum_tunneling(4, 2), Err(NetworkError::NotFound));
}

#[test]
fn apply_each_error_kind() {
    let mut n = QuantumNode::new(1);
    assert_eq!(QuantumErrorCorrection::apply_error(&mut n, QuantumError::BitFlip), QuantumError::BitFlip);
    assert_eq!(n.state, QuantumState::One);
    QuantumErrorCorrection::apply_error(&mut n, QuantumError::BitFlip);
    assert_eq!(n.state, QuantumState::Zero);
    QuantumErrorCorrection::apply_error(&mut n, QuantumError::PhaseFlip);
    assert_eq!(n.state, QuantumState::Zero);
    n.state = entangled(QuantumState::One);
    QuantumErrorCorrection::apply_error(&mut n, QuantumError::BitFlip);
    assert_eq!(n.state, entangled(QuantumState::One));
    QuantumErrorCorrection::apply_error(&mut n, QuantumError::PhaseFlip);
    assert_eq!(n.state, QuantumState::Zero);
    n.state = QuantumState::One;
    QuantumErrorCorrection::apply_error(&mut n, QuantumError::Depolarizing);
    assert_eq!(n.state, QuantumState::Zero);
}

#[test]
fn detect_error_is_coarse() {
    assert_eq!(QuantumErrorCorrection::detect_error(&QuantumState::One, &QuantumState::One), None);
    assert_eq!(
        QuantumErrorCorrection::detect_error(&QuantumState::One, &QuantumState::Zero),
        Some(QuantumError::Depolarizing)
    );
    assert_eq!(
        QuantumErrorCorrection::detect_error(&entangled(QuantumState::Zero), &entangled(QuantumState::One)),
        Some(QuantumError::Depolarizing)
    );
}

#[test]
fn correct_after_changing_error_restores() {
    let mut n = QuantumNode::new(1);
    n.state = QuantumState::One;
    let expected = n.state.clone();
    QuantumErrorCorrection::apply_error(&mut n, QuantumError::BitFlip);
    assert!(QuantumErrorCorrection::correct_error(&mut n, &expected));
    assert_eq!(n.state, expected);
}

#[test]
fn correct_after_no_op_error_reports_nothing() {
    let mut n = QuantumNode::new(1);
    n.state = entangled(QuantumState::Zero);
    let expected = n.state.clone();
    QuantumErrorCorrection::apply_error(&mut n, QuantumError::BitFlip);
    assert!(!QuantumErrorCorrection::correct_error(&mut n, &expected));
    assert_eq!(n.state, expected);
}

#[test]
fn correct_after_random_error() {
    let mut n = QuantumNode::new(1);
    n.state = entangled(QuantumState::One);
    let expected = n.state.clone();
    let e = QuantumErrorCorrection::introduce_error(&mut n);
    let changed = n.state != expected;
    assert_eq!(changed, e != QuantumError::BitFlip);
    assert_eq!(QuantumErrorCorrection::correct_error(&mut n, &expected), changed);
    assert_eq!(n.state, expected);
}

#[test]
fn end_to_end_message() {
    let mut api = QuantumAPI::new();
    assert!(api.register_node(1));
    assert!(api.register_node(2));
    assert!(!api.exchange_keys(1, 2));
    assert!(api.send_message(1, 2, "hello").is_none());
    assert!(api.entangle_nodes(1, 2));
    assert!(api.exchange_keys(1, 2));
    let packet = api.send_message(1, 2, "hello").unwrap();
    assert_eq!(packet.sender_id, 1);
    assert_eq!(packet.receiver_id, 2);
    assert!(!packet.payload.is_empty());
    assert_ne!(packet.payload, b"hello".to_vec());
    assert_eq!(packet.payload.len(), 5);
    assert_eq!(api.receive_message(2, packet), Some("hello".to_string()));
    assert_eq!(api.get_node_status(1), Some((vec![2], 1)));
    assert_eq!(api.get_node_status(2), Some((vec![1], 1)));
    assert_eq!(api.get_node_status(3), None);
}

#[test]
fn api_with_given_key() {
    let mut api = QuantumAPI::new();
    api.register_node(1);
    api.register_node(2);
    api.register_node(3);
    assert!(!api.entangle_nodes(1, 4));
    api.entangle_nodes(1, 2);
    assert!(!api.exchange_keys_with(1, 3, vec![1]));
    assert!(api.exchange_keys_with(1, 2, vec![0x20]));
    let packet = api.send_message(1, 2, "ab").unwrap();
    assert_eq!(packet.payload, vec![0x41, 0x42]);
    assert_eq!(api.receive_message(2, packet.clone()), Some("ab".to_string()));
    assert_eq!(api.receive_message(3, packet), None);
    assert!(api.send_message(9, 2, "x").is_none());
}

#[test]
fn node_keys_need_a_peer() {
    let mut n = QuantumNode::new(1);
    assert!(!n.exchange_keys(2, vec![1, 2]));
    assert!(n.send_packet(2, "hi").is_none());
    assert!(n.entangle_with(2));
    assert!(n.entangle_with(2));
    assert_eq!(n.entangled_nodes, vec![2]);
    assert!(n.exchange_keys(2, vec![1, 2]));
    let p = n.send_packet(2, "hi").unwrap();
    assert_eq!(p.payload, vec![b'h' ^ 1, b'i' ^ 2]);
}

#[test]
fn simulator_scenario() {
    let mut sim = QuantumSimulator::new();
    assert_eq!(sim.add_node(1), Ok(()));
    assert_eq!(sim.add_node(2), Ok(()));
    assert_eq!(sim.add_node(1), Err(NetworkError::DuplicateId));
    assert_eq!(sim.perform_qkd(1, 2), None);
    assert!(sim.entangle_nodes(1, 2));
    assert!(!sim.entangle_nodes(1, 3));
    let key = sim.perform_qkd(1, 2).unwrap();
    assert_eq!(key.len(), 16);
    let c = sim.secure_transmit("msg", &vec![7u8]).unwrap();
    assert_eq!(c, vec![b'm' ^ 7, b's' ^ 7, b'g' ^ 7]);
    assert_eq!(sim.secure_receive(&c, &vec![7u8]).unwrap(), "msg");
    assert_eq!(sim.secure_transmit("msg", &Vec::new()), Err(NetworkError::InvalidKey));
    assert!(sim.detect_and_correct_errors(2));
    assert_eq!(sim.network().get_node(2).unwrap().state, QuantumState::Zero);
    assert!(!sim.detect_and_correct_errors(2));
    assert!(!sim.detect_and_correct_errors(5));
}

#[test]
fn simulator_names_errors() {
    let mut sim = QuantumSimulator::new();
    sim.add_node(1).unwrap();
    let name = sim.introduce_errors(1).unwrap();
    assert!(name == "BitFlip" || name == "PhaseFlip" || name == "Depolarizing");
    assert_eq!(sim.introduce_errors(2), None);
    assert_eq!(QuantumError::PhaseFlip.name(), "PhaseFlip");
}
