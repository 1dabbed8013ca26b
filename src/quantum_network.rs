use std::collections::HashMap;
use vstd::prelude::*;
use crate::random::random_below;
use crate::quantum_cryptography::{decrypted_text, xor_cycle, QuantumCryptography};
use crate::quantum_packet::{QuantumPacket, QuantumPacketType};
use vstd::utf8::encode_utf8;

verus! {

/// The abstract condition of a node.
#[derive(Debug)]
pub enum QuantumState {
    Zero,
    One,
    Entangled(Box<QuantumState>),
}

impl QuantumState {
    /// Structural equality of two states.
    pub fn same_as(&self, other: &QuantumState) -> (r: bool)
        ensures
            r == (*self == *other),
        decreases self,
    {
        match (self, other) {
            (QuantumState::Zero, QuantumState::Zero) => true,
            (QuantumState::One, QuantumState::One) => true,
            (QuantumState::Entangled(a), QuantumState::Entangled(b)) => {
                let r = (**a).same_as(&**b);
                proof {
                    if !r {
                        assert(*a != *b);
                    }
                }
                r
            },
            _ => false,
        }
    }
}

impl QuantumState {
    /// Whether the state is `Entangled`.
    pub fn is_entangled(&self) -> (r: bool)
        ensures
            r == (*self is Entangled),
    {
        match self {
            QuantumState::Entangled(_) => true,
            _ => false,
        }
    }
}

impl Clone for QuantumState {
    fn clone(&self) -> (r: Self)
        ensures
            r == *self,
        decreases self,
    {
        match self {
            QuantumState::Zero => QuantumState::Zero,
            QuantumState::One => QuantumState::One,
            QuantumState::Entangled(inner) => QuantumState::Entangled(Box::new((**inner).clone())),
        }
    }
}

impl PartialEq for QuantumState {
    fn eq(&self, other: &QuantumState) -> (r: bool) {
        self.same_as(other)
    }
}

impl vstd::std_specs::cmp::PartialEqSpecImpl for QuantumState {
    open spec fn obeys_eq_spec() -> bool {
        true
    }

    open spec fn eq_spec(&self, other: &QuantumState) -> bool {
        *self == *other
    }
}

impl Eq for QuantumState {}

/// The ways in which an operation on the network can fail.
#[derive(Debug, Clone, Copy, PartialEq, Eq, Structural)]
pub enum NetworkError {
    /// No node has the given identifier.
    NotFound,
    /// A node with the given identifier is already registered.
    DuplicateId,
    /// The operation needs an entanglement that is not there.
    NotEntangled,
    /// An empty key was handed to the cipher.
    InvalidKey,
    /// The random draw decided against tunneling.
    TunnelingFailed,
}


/// A node of the network: its identifier, its current state, the peers it has
/// recorded as entangled, and one symmetric key per peer.
#[derive(Debug, Clone)]
pub struct QuantumNode {
    pub id: u32,
    pub state: QuantumState,
    pub entangled_nodes: Vec<u32>,
    pub key_store: HashMap<u32, Vec<u8>>,
}

impl QuantumNode {
    /// The same node with its state replaced.
    pub open spec fn with_state(self, s: QuantumState) -> QuantumNode {
        QuantumNode { state: s, ..self }
    }

    /// A node as it is right after creation.
    pub open spec fn is_fresh(self, id: u32, s: QuantumState) -> bool {
        &&& self.id == id
        &&& self.state == s
        &&& self.entangled_nodes@ == Seq::<u32>::empty()
        &&& self.key_store@ == Map::<u32, Vec<u8>>::empty()
    }

    /// Creates a node in state `Zero`, with no peers and no keys.
    pub fn new(id: u32) -> (r: QuantumNode)
        ensures
            r.is_fresh(id, QuantumState::Zero),
    {
        QuantumNode::with_initial_state(id, QuantumState::Zero)
    }

    /// Creates a node in the given state, with no peers and no keys.
    pub fn with_initial_state(id: u32, state: QuantumState) -> (r: QuantumNode)
        ensures
            r.is_fresh(id, state),
    {
        QuantumNode { id, state, entangled_nodes: Vec::new(), key_store: HashMap::new() }
    }

    /// Whether `peer_id` is among the recorded peers.
    pub fn has_peer(&self, peer_id: u32) -> (r: bool)
        ensures
            r == self.entangled_nodes@.contains(peer_id),
    {
        let mut i: usize = 0;
        while i < self.entangled_nodes.len()
            invariant
                i <= self.entangled_nodes@.len(),
                forall|k: int| 0 <= k < i ==> self.entangled_nodes@[k] != peer_id,
            decreases self.entangled_nodes@.len() - i,
        {
            if self.entangled_nodes[i] == peer_id {
                return true;
            }
            i = i + 1;
        }
        false
    }

    /// Records `peer_id` as an entangled peer, once. Always succeeds.
    pub fn entangle_with(&mut self, peer_id: u32) -> (r: bool)
        ensures
            r,
            final(self).id == old(self).id,
            final(self).state == old(self).state,
            final(self).key_store == old(self).key_store,
            final(self).entangled_nodes@ == recorded_peers(old(self).entangled_nodes@, peer_id),
    {
        if !self.has_peer(peer_id) {
            self.entangled_nodes.push(peer_id);
        }
        true
    }

    /// Installs `key` as the key shared with `peer_id`, replacing any earlier
    /// one, provided `peer_id` is a recorded peer; says whether it did.
    pub fn exchange_keys(&mut self, peer_id: u32, key: Vec<u8>) -> (r: bool)
        ensures
            r == old(self).entangled_nodes@.contains(peer_id),
            r ==> *final(self) == (QuantumNode {
                key_store: final(self).key_store,
                ..*old(self)
            }) && final(self).key_store@ == old(self).key_store@.insert(peer_id, key),
            !r ==> *final(self) == *old(self),
    {
        broadcast use vstd::std_specs::hash::group_hash_axioms;
        if self.has_peer(peer_id) {
            self.key_store.insert(peer_id, key);
            true
        } else {
            false
        }
    }

    /// An `EncryptedData` packet to `receiver_id` carrying `data` encrypted
    /// with the key held for the receiver; `None` when no usable key is held.
    pub fn send_packet(&self, receiver_id: u32, data: &str) -> (r: Option<QuantumPacket>)
        ensures
            r is Some <==> has_usable_key(self.key_store@, receiver_id),
            r matches Some(p) ==> p.packet_type == QuantumPacketType::EncryptedData && p.sender_id
                == self.id && p.receiver_id == receiver_id && p.payload@ == xor_cycle(
                encode_utf8(data@),
                self.key_store@[receiver_id]@,
            ),
    {
        broadcast use vstd::std_specs::hash::group_hash_axioms;
        match self.key_store.get(&receiver_id) {
            Some(key) => match QuantumCryptography::encrypt(data, key) {
                Ok(payload) => Some(
                    QuantumPacket::new(QuantumPacketType::EncryptedData, self.id, receiver_id, payload),
                ),
                Err(_) => None,
            },
            None => None,
        }
    }

    /// The text of `packet`, decrypted with the key held for its sender;
    /// `None` when no usable key is held.
    pub fn receive_packet(&self, packet: &QuantumPacket) -> (r: Option<String>)
        ensures
            r is Some <==> has_usable_key(self.key_store@, packet.sender_id),
            r matches Some(s) ==> s@ == decrypted_text(
                packet.payload@,
                self.key_store@[packet.sender_id]@,
            ),
    {
        broadcast use vstd::std_specs::hash::group_hash_axioms;
        match self.key_store.get(&packet.sender_id) {
            Some(key) => match QuantumCryptography::decrypt(&packet.payload, key) {
                Ok(text) => Some(text),
                Err(_) => None,
            },
            None => None,
        }
    }
}

/// The peer list after recording `peer` once.
pub open spec fn recorded_peers(peers: Seq<u32>, peer: u32) -> Seq<u32> {
    if peers.contains(peer) {
        peers
    } else {
        peers.push(peer)
    }
}

/// The contents of each key in a key store.
pub open spec fn key_views(keys: Map<u32, Vec<u8>>) -> Map<u32, Seq<u8>> {
    keys.map_values(|v: Vec<u8>| v@)
}

/// Whether a non-empty key is held for `peer`.
pub open spec fn has_usable_key(keys: Map<u32, Vec<u8>>, peer: u32) -> bool {
    keys.contains_key(peer) && keys[peer]@.len() > 0
}

/// The registry of nodes, keyed by identifier.
pub struct QuantumNetwork {
    nodes: HashMap<u32, QuantumNode>,
}

impl View for QuantumNetwork {
    type V = Map<u32, QuantumNode>;

    closed spec fn view(&self) -> Map<u32, QuantumNode> {
        self.nodes@
    }
}

impl QuantumNetwork {
    /// Every node is filed under its own identifier.
    pub open spec fn wf(&self) -> bool {
        forall|k: u32| #[trigger] self@.contains_key(k) ==> self@[k].id == k
    }

    /// Creates an empty network.
    pub fn new() -> (r: QuantumNetwork)
        ensures
            r.wf(),
            r@ == Map::<u32, QuantumNode>::empty(),
    {
        QuantumNetwork { nodes: HashMap::new() }
    }

    /// The number of registered nodes.
    pub fn len(&self) -> (r: usize)
        ensures
            r == self@.len(),
    {
        broadcast use vstd::std_specs::hash::group_hash_axioms;
        self.nodes.len()
    }

    /// Registers a node with the given identifier and initial state.
    /// Fails with `DuplicateId`, changing nothing, if the identifier is taken.
    pub fn add_node(&mut self, id: u32, state: QuantumState) -> (r: Result<(), NetworkError>)
        requires
            old(self).wf(),
        ensures
            final(self).wf(),
            add_outcome(old(self)@, final(self)@, id, state, r),
    {
        broadcast use vstd::std_specs::hash::group_hash_axioms;
        if self.nodes.contains_key(&id) {
            return Err(NetworkError::DuplicateId);
        }
        let node = QuantumNode::with_initial_state(id, state);
        self.nodes.insert(id, node);
        Ok(())
    }

    /// Looks a node up by identifier.
    pub fn get_node(&self, id: u32) -> (r: Option<&QuantumNode>)
        ensures
            match r {
                Some(n) => self@.contains_key(id) && *n == self@[id],
                None => !self@.contains_key(id),
            },
    {
        broadcast use vstd::std_specs::hash::group_hash_axioms;
        self.nodes.get(&id)
    }

    /// Takes the node filed under `id` out of the registry, if it is there.
    pub fn take_node(&mut self, id: u32) -> (r: Option<QuantumNode>)
        requires
            old(self).wf(),
        ensures
            final(self).wf(),
            final(self)@ == old(self)@.remove(id),
            match r {
                Some(n) => old(self)@.contains_key(id) && n == old(self)@[id],
                None => !old(self)@.contains_key(id),
            },
    {
        broadcast use vstd::std_specs::hash::group_hash_axioms;
        self.nodes.remove(&id)
    }

    /// Files `node` under its own identifier, replacing any node there.
    pub fn put_node(&mut self, node: QuantumNode)
        requires
            old(self).wf(),
        ensures
            final(self).wf(),
            final(self)@ == old(self)@.insert(node.id, node),
    {
        broadcast use vstd::std_specs::hash::group_hash_axioms;
        self.nodes.insert(node.id, node);
    }

    /// Records `peer_id` as a peer of the node filed under `id`, which must be
    /// there.
    pub fn record_peer(&mut self, id: u32, peer_id: u32)
        requires
            old(self).wf(),
            old(self)@.contains_key(id),
        ensures
            final(self).wf(),
            final(self)@.dom() == old(self)@.dom(),
            forall|k: u32| k != id && #[trigger] old(self)@.contains_key(k) ==> final(self)@[k] == old(self)@[k],
            final(self)@[id].id == id,
            final(self)@[id].state == old(self)@[id].state,
            final(self)@[id].key_store == old(self)@[id].key_store,
            final(self)@[id].entangled_nodes@ == recorded_peers(old(self)@[id].entangled_nodes@, peer_id),
    {
        broadcast use vstd::std_specs::hash::group_hash_axioms;
        let node = self.nodes.remove(&id);
        match node {
            Some(mut n) => {
                n.entangle_with(peer_id);
                self.nodes.insert(id, n);
            },
            None => {},
        }
    }

    /// Installs `key` in the node filed under `id`, which must be there, as
    /// the key shared with `peer_id`, provided `peer_id` is a recorded peer.
    pub fn install_key(&mut self, id: u32, peer_id: u32, key: Vec<u8>) -> (r: bool)
        requires
            old(self).wf(),
            old(self)@.contains_key(id),
        ensures
            final(self).wf(),
            r == old(self)@[id].entangled_nodes@.contains(peer_id),
            !r ==> final(self)@ == old(self)@,
            r ==> final(self)@ == old(self)@.insert(id, QuantumNode {
                key_store: final(self)@[id].key_store,
                ..old(self)@[id]
            }) && final(self)@[id].key_store@ == old(self)@[id].key_store@.insert(peer_id, key),
    {
        broadcast use vstd::std_specs::hash::group_hash_axioms;
        let node = self.nodes.remove(&id);
        match node {
            Some(mut n) => {
                let r = n.exchange_keys(peer_id, key);
                self.nodes.insert(id, n);
                proof {
                    if !r {
                        assert(self.nodes@ =~= old(self)@);
                    }
                }
                r
            },
            None => false,
        }
    }

    /// Sets the state of the node filed under `id`, which must be there.
    pub fn set_state(&mut self, id: u32, state: QuantumState)
        requires
            old(self).wf(),
            old(self)@.contains_key(id),
        ensures
            final(self).wf(),
            final(self)@ == old(self)@.insert(id, old(self)@[id].with_state(state)),
    {
        broadcast use vstd::std_specs::hash::group_hash_axioms;
        let node = self.nodes.remove(&id);
        match node {
            Some(mut n) => {
                n.state = state;
                self.nodes.insert(id, n);
                assert(self.nodes@ == old(self)@.insert(id, old(self)@[id].with_state(state)));
            },
            None => {},
        }
    }

    /// Entangles the node `node_id_2` with `node_id_1`: the second node's state
    /// becomes `Entangled` of a copy of the first node's state. The first node
    /// is left as it was. Fails with `NotFound` if either node is missing.
    pub fn entangle_nodes(&mut self, node_id_1: u32, node_id_2: u32) -> (r: Result<(), NetworkError>)
        requires
            old(self).wf(),
        ensures
            final(self).wf(),
            entangle_outcome(old(self)@, final(self)@, node_id_1, node_id_2, r),
    {
        broadcast use vstd::std_specs::hash::group_hash_axioms;
        let first = match self.nodes.get(&node_id_1) {
            Some(n) => n.state.clone(),
            None => return Err(NetworkError::NotFound),
        };
        if !self.nodes.contains_key(&node_id_2) {
            return Err(NetworkError::NotFound);
        }
        self.set_state(node_id_2, QuantumState::Entangled(Box::new(first)));
        Ok(())
    }

    /// Tunneling between two nodes, with the draw already made: where
    /// `tunnels` holds, the first node takes a copy of the second node's
    /// state; otherwise the attempt fails with `TunnelingFailed`. Fails with
    /// `NotFound` if either node is missing.
    pub fn quantum_tunneling_with(&mut self, node_id_1: u32, node_id_2: u32, tunnels: bool) -> (r:
        Result<(), NetworkError>)
        requires
            old(self).wf(),
        ensures
            final(self).wf(),
            !(old(self)@.contains_key(node_id_1) && old(self)@.contains_key(node_id_2)) ==> r
                == Err::<(), NetworkError>(NetworkError::NotFound) && final(self)@ == old(self)@,
            old(self)@.contains_key(node_id_1) && old(self)@.contains_key(node_id_2) && !tunnels
                ==> r == Err::<(), NetworkError>(NetworkError::TunnelingFailed) && final(self)@
                == old(self)@,
            old(self)@.contains_key(node_id_1) && old(self)@.contains_key(node_id_2) && tunnels
                ==> r is Ok && final(self)@ == old(self)@.insert(
                node_id_1,
                old(self)@[node_id_1].with_state(old(self)@[node_id_2].state),
            ),
    {
        broadcast use vstd::std_specs::hash::group_hash_axioms;
        if !self.nodes.contains_key(&node_id_1) {
            return Err(NetworkError::NotFound);
        }
        let second = match self.nodes.get(&node_id_2) {
            Some(n) => n.state.clone(),
            None => return Err(NetworkError::NotFound),
        };
        if !tunnels {
            return Err(NetworkError::TunnelingFailed);
        }
        self.set_state(node_id_1, second);
        Ok(())
    }

    /// Tunneling between two nodes: with even odds the first node takes a
    /// copy of the second node's state, else `TunnelingFailed`. Fails with
    /// `NotFound` if either node is missing.
    pub fn quantum_tunneling(&mut self, node_id_1: u32, node_id_2: u32) -> (r: Result<(), NetworkError>)
        requires
            old(self).wf(),
        ensures
            final(self).wf(),
            !(old(self)@.contains_key(node_id_1) && old(self)@.contains_key(node_id_2)) ==> r
                == Err::<(), NetworkError>(NetworkError::NotFound) && final(self)@ == old(self)@,
            r == Err::<(), NetworkError>(NetworkError::TunnelingFailed) ==> final(self)@ == old(self)@,
            r is Ok ==> final(self)@ == old(self)@.insert(
                node_id_1,
                old(self)@[node_id_1].with_state(old(self)@[node_id_2].state),
            ),
            r is Ok || r == Err::<(), NetworkError>(NetworkError::NotFound) || r == Err::<
                (),
                NetworkError,
            >(NetworkError::TunnelingFailed),
    {
        let draw = random_below(2);
        self.quantum_tunneling_with(node_id_1, node_id_2, draw == 0)
    }
}

/// What registering `id` in state `state` does to the registry `before`,
/// giving `after` and the result `r`.
pub open spec fn add_outcome(
    before: Map<u32, QuantumNode>,
    after: Map<u32, QuantumNode>,
    id: u32,
    state: QuantumState,
    r: Result<(), NetworkError>,
) -> bool {
    if before.contains_key(id) {
        &&& r == Err::<(), NetworkError>(NetworkError::DuplicateId)
        &&& after == before
    } else {
        &&& r is Ok
        &&& after == before.insert(id, after[id])
        &&& after[id].is_fresh(id, state)
    }
}

/// Registering an identifier a second time fails with `DuplicateId` and
/// leaves the registry, and the node first registered, as they were.
pub proof fn lemma_register_twice(
    m0: Map<u32, QuantumNode>,
    m1: Map<u32, QuantumNode>,
    m2: Map<u32, QuantumNode>,
    id: u32,
    s1: QuantumState,
    s2: QuantumState,
    r1: Result<(), NetworkError>,
    r2: Result<(), NetworkError>,
)
    requires
        add_outcome(m0, m1, id, s1, r1),
        add_outcome(m1, m2, id, s2, r2),
    ensures
        r2 == Err::<(), NetworkError>(NetworkError::DuplicateId),
        m2 == m1,
        m2[id] == m1[id],
{
}

/// What entangling `id2` with `id1` does to the registry `before`, giving `after`
/// and the result `r`.
pub open spec fn entangle_outcome(
    before: Map<u32, QuantumNode>,
    after: Map<u32, QuantumNode>,
    id1: u32,
    id2: u32,
    r: Result<(), NetworkError>,
) -> bool {
    if before.contains_key(id1) && before.contains_key(id2) {
        &&& r is Ok
        &&& after == before.insert(
            id2,
            before[id2].with_state(QuantumState::Entangled(Box::new(before[id1].state))),
        )
    } else {
        &&& r == Err::<(), NetworkError>(NetworkError::NotFound)
        &&& after == before
    }
}

} // verus!
