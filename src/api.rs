use crate::quantum_cryptography::{decrypted_text, xor_cycle, QuantumCryptography, KEY_LEN};
use crate::quantum_network::{
    has_usable_key, key_views, recorded_peers, QuantumNetwork, QuantumNode, QuantumState,
};
use crate::quantum_packet::{QuantumPacket, QuantumPacketType};
use vstd::prelude::*;
use vstd::utf8::encode_utf8;

verus! {

/// A request to register a node.
pub struct RegisterNodeRequest {
    pub node_id: u32,
}

/// A request to entangle two nodes.
pub struct EntangleNodesRequest {
    pub node1: u32,
    pub node2: u32,
}

/// A request to exchange keys between two nodes.
pub struct KeyExchangeRequest {
    pub node1: u32,
    pub node2: u32,
}

/// A request to send a message from one node to another.
pub struct SendMessageRequest {
    pub sender_id: u32,
    pub receiver_id: u32,
    pub message: String,
}

/// The status of a node: its recorded peers and how many keys it holds.
pub struct NodeStatusResponse {
    pub entangled_nodes: Vec<u32>,
    pub key_count: usize,
}

/// The peers of node `k` after `id1` and `id2` were linked: `id1` records
/// `id2`, then `id2` records `id1`.
pub open spec fn linked_peers(peers: Seq<u32>, k: u32, id1: u32, id2: u32) -> Seq<u32> {
    let first = if k == id1 {
        recorded_peers(peers, id2)
    } else {
        peers
    };
    if k == id2 {
        recorded_peers(first, id1)
    } else {
        first
    }
}

/// The keys of node `k` after `key` was installed for the pair: in `id1` for
/// `id2`, then in `id2` for `id1`.
pub open spec fn installed_keys(keys: Map<u32, Seq<u8>>, k: u32, id1: u32, id2: u32, key: Seq<u8>) -> Map<
    u32,
    Seq<u8>,
> {
    let first = if k == id1 {
        keys.insert(id2, key)
    } else {
        keys
    };
    if k == id2 {
        first.insert(id1, key)
    } else {
        first
    }
}

/// Whether each of the two nodes has recorded the other as a peer.
pub open spec fn mutually_linked(m: Map<u32, QuantumNode>, id1: u32, id2: u32) -> bool {
    &&& m.contains_key(id1)
    &&& m.contains_key(id2)
    &&& m[id1].entangled_nodes@.contains(id2)
    &&& m[id2].entangled_nodes@.contains(id1)
}

/// The node-centric service over one registry: registration, two-sided
/// entanglement, shared keys and encrypted messages.
pub struct QuantumAPI {
    network: QuantumNetwork,
}

impl View for QuantumAPI {
    type V = Map<u32, QuantumNode>;

    closed spec fn view(&self) -> Map<u32, QuantumNode> {
        self.network@
    }
}

impl QuantumAPI {
    /// Every node is filed under its own identifier.
    pub closed spec fn wf(&self) -> bool {
        self.network.wf()
    }

    /// A service with no nodes.
    pub fn new() -> (r: QuantumAPI)
        ensures
            r.wf(),
            r@ == Map::<u32, QuantumNode>::empty(),
    {
        QuantumAPI { network: QuantumNetwork::new() }
    }

    /// Registers a node in state `Zero`; false, changing nothing, when the
    /// identifier is taken.
    pub fn register_node(&mut self, node_id: u32) -> (r: bool)
        requires
            old(self).wf(),
        ensures
            final(self).wf(),
            r == !old(self)@.contains_key(node_id),
            !r ==> final(self)@ == old(self)@,
            r ==> final(self)@ == old(self)@.insert(node_id, final(self)@[node_id])
                && final(self)@[node_id].is_fresh(node_id, QuantumState::Zero),
    {
        self.network.add_node(node_id, QuantumState::Zero).is_ok()
    }

    /// Entangles `node2` with `node1` and has each record the other as a
    /// peer; false, changing nothing, when either node is missing.
    pub fn entangle_nodes(&mut self, node1: u32, node2: u32) -> (r: bool)
        requires
            old(self).wf(),
        ensures
            final(self).wf(),
            r == (old(self)@.contains_key(node1) && old(self)@.contains_key(node2)),
            !r ==> final(self)@ == old(self)@,
            r ==> final(self)@.dom() == old(self)@.dom(),
            r ==> forall|k: u32| #[trigger]
                old(self)@.contains_key(k) ==> {
                    &&& final(self)@[k].id == old(self)@[k].id
                    &&& final(self)@[k].key_store == old(self)@[k].key_store
                    &&& final(self)@[k].state == if k == node2 {
                        QuantumState::Entangled(Box::new(old(self)@[node1].state))
                    } else {
                        old(self)@[k].state
                    }
                    &&& final(self)@[k].entangled_nodes@ == linked_peers(
                        old(self)@[k].entangled_nodes@,
                        k,
                        node1,
                        node2,
                    )
                },
    {
        if self.network.get_node(node1).is_none() || self.network.get_node(node2).is_none() {
            return false;
        }
        let _ = self.network.entangle_nodes(node1, node2);
        self.network.record_peer(node1, node2);
        self.network.record_peer(node2, node1);
        true
    }

    /// Installs `key` in both nodes, each for the other, provided each has
    /// recorded the other as a peer; false, changing nothing, otherwise.
    pub fn exchange_keys_with(&mut self, node1: u32, node2: u32, key: Vec<u8>) -> (r: bool)
        requires
            old(self).wf(),
        ensures
            final(self).wf(),
            r == mutually_linked(old(self)@, node1, node2),
            !r ==> final(self)@ == old(self)@,
            r ==> final(self)@.dom() == old(self)@.dom(),
            r ==> forall|k: u32| #[trigger]
                old(self)@.contains_key(k) ==> {
                    &&& final(self)@[k].id == old(self)@[k].id
                    &&& final(self)@[k].state == old(self)@[k].state
                    &&& final(self)@[k].entangled_nodes == old(self)@[k].entangled_nodes
                    &&& key_views(final(self)@[k].key_store@) == installed_keys(
                        key_views(old(self)@[k].key_store@),
                        k,
                        node1,
                        node2,
                        key@,
                    )
                },
    {
        let linked = match (self.network.get_node(node1), self.network.get_node(node2)) {
            (Some(a), Some(b)) => a.has_peer(node2) && b.has_peer(node1),
            _ => false,
        };
        if !linked {
            return false;
        }
        let copy = key.clone();
        assert(copy@ =~= key@);
        let ghost m0 = self.network@;
        let ghost key_view = key@;
        let r1 = self.network.install_key(node1, node2, copy);
        let ghost m1 = self.network@;
        assert(r1);
        assert(m1[node2].entangled_nodes == m0[node2].entangled_nodes);
        let r2 = self.network.install_key(node2, node1, key);
        assert(r2);
        assert forall|k: u32| #[trigger] m0.contains_key(k) implies {
            &&& self@[k].id == m0[k].id
            &&& self@[k].state == m0[k].state
            &&& self@[k].entangled_nodes == m0[k].entangled_nodes
            &&& key_views(self@[k].key_store@) == installed_keys(
                key_views(m0[k].key_store@),
                k,
                node1,
                node2,
                key_view,
            )
        } by {
            assert(m1.contains_key(k));
            let ks1 = if k == node1 {
                key_views(m0[k].key_store@).insert(node2, key_view)
            } else {
                key_views(m0[k].key_store@)
            };
            if k == node1 {
                assert(key_views(m1[k].key_store@) =~= ks1);
            }
            assert(key_views(m1[k].key_store@) == ks1);
            if k == node2 {
                assert(key_views(self@[k].key_store@) =~= ks1.insert(node1, key_view));
            }
        }
        true
    }

    /// Draws a fresh key and installs it in both nodes, each for the other,
    /// provided each has recorded the other as a peer; false, changing
    /// nothing, otherwise.
    pub fn exchange_keys(&mut self, node1: u32, node2: u32) -> (r: bool)
        requires
            old(self).wf(),
        ensures
            final(self).wf(),
            r == mutually_linked(old(self)@, node1, node2),
            !r ==> final(self)@ == old(self)@,
            r ==> final(self)@.dom() == old(self)@.dom(),
            r ==> final(self)@[node1].key_store@.contains_key(node2),
            r ==> final(self)@[node2].key_store@.contains_key(node1),
            r ==> final(self)@[node1].key_store@[node2]@.len() == KEY_LEN,
            r ==> final(self)@[node1].key_store@[node2]@ == final(self)@[node2].key_store@[node1]@,
    {
        let key = QuantumCryptography::generate_key();
        let ghost m0 = self@;
        let ghost k = key@;
        let r = self.exchange_keys_with(node1, node2, key);
        proof {
            if r {
                assert(key_views(self@[node1].key_store@).contains_key(node2));
                assert(key_views(self@[node2].key_store@).contains_key(node1));
                assert(key_views(self@[node1].key_store@)[node2] == k);
                assert(key_views(self@[node2].key_store@)[node1] == k);
            }
        }
        r
    }

    /// The packet that `sender_id` sends to `receiver_id` with `message`
    /// encrypted under their shared key; `None` when the sender is missing or
    /// holds no usable key for the receiver.
    pub fn send_message(&self, sender_id: u32, receiver_id: u32, message: &str) -> (r: Option<
        QuantumPacket,
    >)
        requires
            self.wf(),
        ensures
            r is Some <==> self@.contains_key(sender_id) && has_usable_key(
                self@[sender_id].key_store@,
                receiver_id,
            ),
            r matches Some(p) ==> p.packet_type == QuantumPacketType::EncryptedData && p.sender_id
                == sender_id && p.receiver_id == receiver_id && p.payload@ == xor_cycle(
                encode_utf8(message@),
                self@[sender_id].key_store@[receiver_id]@,
            ),
    {
        match self.network.get_node(sender_id) {
            Some(sender) => sender.send_packet(receiver_id, message),
            None => None,
        }
    }

    /// The text of `packet` as `receiver_id` decrypts it with the key it holds
    /// for the sender; `None` when the receiver is missing or holds no usable
    /// key for the sender.
    pub fn receive_message(&self, receiver_id: u32, packet: QuantumPacket) -> (r: Option<String>)
        ensures
            r is Some <==> self@.contains_key(receiver_id) && has_usable_key(
                self@[receiver_id].key_store@,
                packet.sender_id,
            ),
            r matches Some(s) ==> s@ == decrypted_text(
                packet.payload@,
                self@[receiver_id].key_store@[packet.sender_id]@,
            ),
    {
        match self.network.get_node(receiver_id) {
            Some(receiver) => receiver.receive_packet(&packet),
            None => None,
        }
    }

    /// The recorded peers of a node and the number of keys it holds; `None`
    /// when the node is missing.
    pub fn get_node_status(&self, node_id: u32) -> (r: Option<(Vec<u32>, usize)>)
        ensures
            r is Some <==> self@.contains_key(node_id),
            r matches Some(st) ==> st.0@ == self@[node_id].entangled_nodes@ && st.1
                == self@[node_id].key_store@.len(),
    {
        broadcast use vstd::std_specs::hash::group_hash_axioms;
        match self.network.get_node(node_id) {
            Some(node) => {
                let peers = node.entangled_nodes.clone();
                assert(peers@ =~= node.entangled_nodes@);
                Some((peers, node.key_store.len()))
            },
            None => None,
        }
    }
}

/// Where sender and receiver hold the same non-empty key for each other, the
/// receiver reads back exactly the message that the sender encrypted.
pub proof fn lemma_send_then_receive(message: Seq<char>, sender: QuantumNode, receiver: QuantumNode)
    requires
        has_usable_key(sender.key_store@, receiver.id),
        has_usable_key(receiver.key_store@, sender.id),
        sender.key_store@[receiver.id] == receiver.key_store@[sender.id],
    ensures
        decrypted_text(
            xor_cycle(encode_utf8(message), sender.key_store@[receiver.id]@),
            receiver.key_store@[sender.id]@,
        ) == message,
{
    crate::quantum_cryptography::lemma_decrypt_encrypt(message, sender.key_store@[receiver.id]@);
}

} // verus!
