use crate::quantum_cryptography::{
    decrypted_text, key_distribution_error, xor_cycle, QuantumCryptography, KEY_LEN,
};
use crate::quantum_error_correction::{error_name, state_after_error, QuantumErrorCorrection};
use crate::quantum_network::{
    add_outcome, entangle_outcome, NetworkError, QuantumNetwork, QuantumNode, QuantumState,
};
use vstd::prelude::*;
use vstd::utf8::encode_utf8;

verus! {

/// Runs scripted scenarios over one network.
pub struct QuantumSimulator {
    network: QuantumNetwork,
}

impl View for QuantumSimulator {
    type V = Map<u32, QuantumNode>;

    closed spec fn view(&self) -> Map<u32, QuantumNode> {
        self.network@
    }
}

impl QuantumSimulator {
    /// Every node is filed under its own identifier.
    pub closed spec fn wf(&self) -> bool {
        self.network.wf()
    }

    /// A simulator over an empty network.
    pub fn new() -> (r: QuantumSimulator)
        ensures
            r.wf(),
            r@ == Map::<u32, QuantumNode>::empty(),
    {
        QuantumSimulator { network: QuantumNetwork::new() }
    }

    /// The network the simulator runs on.
    pub fn network(&self) -> (r: &QuantumNetwork)
        ensures
            r@ == self@,
            self.wf() ==> r.wf(),
    {
        &self.network
    }

    /// Adds a node in state `Zero`; fails with `DuplicateId`, changing
    /// nothing, when the identifier is taken.
    pub fn add_node(&mut self, node_id: u32) -> (r: Result<(), NetworkError>)
        requires
            old(self).wf(),
        ensures
            final(self).wf(),
            add_outcome(old(self)@, final(self)@, node_id, QuantumState::Zero, r),
    {
        self.network.add_node(node_id, QuantumState::Zero)
    }

    /// Entangles `node_id_2` with `node_id_1`; false, changing nothing, when
    /// either node is missing.
    pub fn entangle_nodes(&mut self, node_id_1: u32, node_id_2: u32) -> (r: bool)
        requires
            old(self).wf(),
        ensures
            final(self).wf(),
            r == (old(self)@.contains_key(node_id_1) && old(self)@.contains_key(node_id_2)),
            entangle_outcome(
                old(self)@,
                final(self)@,
                node_id_1,
                node_id_2,
                if r {
                    Ok(())
                } else {
                    Err(NetworkError::NotFound)
                },
            ),
    {
        let res = self.network.entangle_nodes(node_id_1, node_id_2);
        res.is_ok()
    }

    /// A fresh key for the pair, where `node_id_2` holds the entangled copy
    /// of `node_id_1`'s state; `None` otherwise.
    pub fn perform_qkd(&mut self, node_id_1: u32, node_id_2: u32) -> (r: Option<Vec<u8>>)
        ensures
            final(self)@ == old(self)@,
            final(self).wf() == old(self).wf(),
            r is Some <==> key_distribution_error(old(self)@, node_id_1, node_id_2) is None,
            r matches Some(k) ==> k@.len() == KEY_LEN,
    {
        match QuantumCryptography::quantum_key_distribution(&mut self.network, node_id_1, node_id_2) {
            Ok(key) => Some(key),
            Err(_) => None,
        }
    }

    /// Encrypts `message` with `key` (see `QuantumCryptography::encrypt`).
    pub fn secure_transmit(&self, message: &str, key: &Vec<u8>) -> (r: Result<Vec<u8>, NetworkError>)
        ensures
            key@.len() == 0 ==> r == Err::<Vec<u8>, NetworkError>(NetworkError::InvalidKey),
            key@.len() > 0 ==> (r matches Ok(c) && c@ == xor_cycle(encode_utf8(message@), key@)),
    {
        QuantumCryptography::encrypt(message, key)
    }

    /// Decrypts `ciphertext` with `key` (see `QuantumCryptography::decrypt`).
    pub fn secure_receive(&self, ciphertext: &Vec<u8>, key: &Vec<u8>) -> (r: Result<String, NetworkError>)
        ensures
            key@.len() == 0 ==> r == Err::<String, NetworkError>(NetworkError::InvalidKey),
            key@.len() > 0 ==> (r matches Ok(s) && s@ == decrypted_text(ciphertext@, key@)),
    {
        QuantumCryptography::decrypt(ciphertext, key)
    }

    /// Introduces a random error into a node and names its kind; `None`,
    /// changing nothing, when the node is missing.
    pub fn introduce_errors(&mut self, node_id: u32) -> (r: Option<String>)
        requires
            old(self).wf(),
        ensures
            final(self).wf(),
            r is Some <==> old(self)@.contains_key(node_id),
            r is None ==> final(self)@ == old(self)@,
            r matches Some(name) ==> exists|e: crate::quantum_error_correction::QuantumError|
                name@ == error_name(e) && final(self)@ == old(self)@.insert(
                    node_id,
                    old(self)@[node_id].with_state(state_after_error(old(self)@[node_id].state, e)),
                ),
    {
        match self.network.take_node(node_id) {
            Some(mut node) => {
                let error = QuantumErrorCorrection::introduce_error(&mut node);
                self.network.put_node(node);
                proof {
                    assert(self.network@ =~= old(self)@.insert(
                        node_id,
                        old(self)@[node_id].with_state(state_after_error(old(self)@[node_id].state, error)),
                    ));
                }
                Some(error.name())
            },
            None => None,
        }
    }

    /// Restores a node to the state a new node has, `Zero`, and says whether
    /// it differed; false, changing nothing, when the node is missing.
    pub fn detect_and_correct_errors(&mut self, node_id: u32) -> (r: bool)
        requires
            old(self).wf(),
        ensures
            final(self).wf(),
            !old(self)@.contains_key(node_id) ==> !r && final(self)@ == old(self)@,
            old(self)@.contains_key(node_id) ==> r == (old(self)@[node_id].state
                != QuantumState::Zero) && final(self)@ == old(self)@.insert(
                node_id,
                old(self)@[node_id].with_state(QuantumState::Zero),
            ),
    {
        match self.network.take_node(node_id) {
            Some(mut node) => {
                let expected = QuantumNode::new(node_id).state;
                let r = QuantumErrorCorrection::correct_error(&mut node, &expected);
                self.network.put_node(node);
                proof {
                    assert(self.network@ =~= old(self)@.insert(
                        node_id,
                        old(self)@[node_id].with_state(QuantumState::Zero),
                    ));
                }
                r
            },
            None => false,
        }
    }
}

} // verus!
