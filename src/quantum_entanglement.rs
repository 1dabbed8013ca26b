use crate::quantum_network::{entangle_outcome, NetworkError, QuantumNetwork, QuantumNode, QuantumState};
use vstd::prelude::*;

verus! {

/// Whether state `b` holds the entangled copy of state `a`. The relation is
/// directed: `b` must be `Entangled(a)`.
pub open spec fn entangled_pair(a: QuantumState, b: QuantumState) -> bool {
    b == QuantumState::Entangled(Box::new(a))
}

/// How many `Entangled` layers wrap a state.
pub open spec fn depth(s: QuantumState) -> nat
    decreases s,
{
    match s {
        QuantumState::Entangled(inner) => 1 + depth(*inner),
        _ => 0,
    }
}

/// Entanglement operations on the nodes of a network.
pub struct QuantumEntanglement;

impl QuantumEntanglement {
    /// Entangles `node_id_2` with `node_id_1` (see `QuantumNetwork::entangle_nodes`).
    pub fn entangle_nodes(network: &mut QuantumNetwork, node_id_1: u32, node_id_2: u32) -> (r:
        Result<(), NetworkError>)
        requires
            old(network).wf(),
        ensures
            final(network).wf(),
            entangle_outcome(old(network)@, final(network)@, node_id_1, node_id_2, r),
    {
        network.entangle_nodes(node_id_1, node_id_2)
    }

    /// Whether `node_2` holds the entangled copy of `node_1`'s state.
    pub fn are_entangled(node_1: &QuantumNode, node_2: &QuantumNode) -> (r: bool)
        ensures
            r == entangled_pair(node_1.state, node_2.state),
    {
        match &node_2.state {
            QuantumState::Entangled(inner) => (**inner).same_as(&node_1.state),
            _ => false,
        }
    }

    /// Resets an entangled node to `Zero`. Fails with `NotFound` if the node
    /// is missing and with `NotEntangled` if its state is not `Entangled`;
    /// nothing changes on failure.
    pub fn break_entanglement(network: &mut QuantumNetwork, node_id: u32) -> (r: Result<
        (),
        NetworkError,
    >)
        requires
            old(network).wf(),
        ensures
            final(network).wf(),
            !old(network)@.contains_key(node_id) ==> r == Err::<(), NetworkError>(
                NetworkError::NotFound,
            ) && final(network)@ == old(network)@,
            old(network)@.contains_key(node_id) && !(old(network)@[node_id].state is Entangled)
                ==> r == Err::<(), NetworkError>(NetworkError::NotEntangled) && final(network)@
                == old(network)@,
            old(network)@.contains_key(node_id) && old(network)@[node_id].state is Entangled ==> r
                is Ok && final(network)@ == old(network)@.insert(
                node_id,
                old(network)@[node_id].with_state(QuantumState::Zero),
            ),
    {
        let entangled = match network.get_node(node_id) {
            Some(node) => node.state.is_entangled(),
            None => return Err(NetworkError::NotFound),
        };
        if !entangled {
            return Err(NetworkError::NotEntangled);
        }
        network.set_state(node_id, QuantumState::Zero);
        Ok(())
    }
}

/// A state never equals itself wrapped in further `Entangled` layers.
pub proof fn lemma_wrapped_state_differs(s: QuantumState)
    ensures
        s != QuantumState::Entangled(Box::new(s)),
        s != QuantumState::Entangled(Box::new(QuantumState::Entangled(Box::new(s)))),
{
    assert(depth(QuantumState::Entangled(Box::new(s))) == depth(s) + 1);
    assert(depth(QuantumState::Entangled(Box::new(QuantumState::Entangled(Box::new(s)))))
        == depth(s) + 2);
}

/// After a successful entanglement of two distinct nodes, the second node
/// holds the entangled copy of the first, and the reverse does not hold.
pub proof fn lemma_entangle_then_check(
    before: Map<u32, QuantumNode>,
    after: Map<u32, QuantumNode>,
    id1: u32,
    id2: u32,
    r: Result<(), NetworkError>,
)
    requires
        entangle_outcome(before, after, id1, id2, r),
        r is Ok,
        id1 != id2,
    ensures
        entangled_pair(after[id1].state, after[id2].state),
        !entangled_pair(after[id2].state, after[id1].state),
{
    lemma_wrapped_state_differs(after[id1].state);
}

} // verus!
