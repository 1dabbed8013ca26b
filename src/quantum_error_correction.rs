use crate::quantum_network::{QuantumNode, QuantumState};
use crate::random::random_below;
use vstd::prelude::*;

verus! {

/// The kinds of simulated error.
#[derive(Debug, Clone, Copy, PartialEq, Eq, Structural)]
pub enum QuantumError {
    /// Swaps `Zero` and `One`; an entangled state is kept.
    BitFlip,
    /// Resets an entangled state to `Zero`; other states are kept.
    PhaseFlip,
    /// Resets any state to `Zero`.
    Depolarizing,
}

impl QuantumError {
    /// The name of the error kind.
    pub fn name(&self) -> (r: String)
        ensures
            r@ == error_name(*self),
    {
        match self {
            QuantumError::BitFlip => "BitFlip".to_owned(),
            QuantumError::PhaseFlip => "PhaseFlip".to_owned(),
            QuantumError::Depolarizing => "Depolarizing".to_owned(),
        }
    }
}

/// The name of an error kind.
pub open spec fn error_name(e: QuantumError) -> Seq<char> {
    match e {
        QuantumError::BitFlip => "BitFlip"@,
        QuantumError::PhaseFlip => "PhaseFlip"@,
        QuantumError::Depolarizing => "Depolarizing"@,
    }
}

/// The state that an error of kind `e` leaves behind.
pub open spec fn state_after_error(s: QuantumState, e: QuantumError) -> QuantumState {
    match e {
        QuantumError::BitFlip => match s {
            QuantumState::Zero => QuantumState::One,
            QuantumState::One => QuantumState::Zero,
            QuantumState::Entangled(_) => s,
        },
        QuantumError::PhaseFlip => if s is Entangled {
            QuantumState::Zero
        } else {
            s
        },
        QuantumError::Depolarizing => QuantumState::Zero,
    }
}

/// What detection reports on an expected and a current state.
pub open spec fn detected(expected: QuantumState, current: QuantumState) -> Option<QuantumError> {
    if expected == current {
        None
    } else {
        Some(QuantumError::Depolarizing)
    }
}

/// Error injection, detection and correction.
pub struct QuantumErrorCorrection;

impl QuantumErrorCorrection {
    /// Applies an error of the given kind to the node's state and returns
    /// that kind.
    pub fn apply_error(node: &mut QuantumNode, error: QuantumError) -> (r: QuantumError)
        ensures
            r == error,
            *final(node) == old(node).with_state(state_after_error(old(node).state, error)),
    {
        match error {
            QuantumError::BitFlip => {
                match node.state {
                    QuantumState::Zero => node.state = QuantumState::One,
                    QuantumState::One => node.state = QuantumState::Zero,
                    QuantumState::Entangled(_) => {},
                }
            },
            QuantumError::PhaseFlip => {
                if node.state.is_entangled() {
                    node.state = QuantumState::Zero;
                }
            },
            QuantumError::Depolarizing => {
                node.state = QuantumState::Zero;
            },
        }
        error
    }

    /// Picks an error kind uniformly at random, applies it to the node's
    /// state and returns it, whether or not the state changed.
    pub fn introduce_error(node: &mut QuantumNode) -> (r: QuantumError)
        ensures
            *final(node) == old(node).with_state(state_after_error(old(node).state, r)),
    {
        let draw = random_below(3);
        let error = if draw == 0 {
            QuantumError::BitFlip
        } else if draw == 1 {
            QuantumError::PhaseFlip
        } else {
            QuantumError::Depolarizing
        };
        QuantumErrorCorrection::apply_error(node, error)
    }

    /// `None` when the states are equal, else `Some(Depolarizing)`: detection
    /// does not tell the kinds apart.
    pub fn detect_error(expected_state: &QuantumState, current_state: &QuantumState) -> (r: Option<
        QuantumError,
    >)
        ensures
            r == detected(*expected_state, *current_state),
    {
        if expected_state.same_as(current_state) {
            None
        } else {
            Some(QuantumError::Depolarizing)
        }
    }

    /// Restores the expected state where it differs from the node's state,
    /// and says whether it did.
    pub fn correct_error(node: &mut QuantumNode, expected_state: &QuantumState) -> (r: bool)
        ensures
            r == (old(node).state != *expected_state),
            *final(node) == old(node).with_state(*expected_state),
    {
        if let Some(_) = QuantumErrorCorrection::detect_error(expected_state, &node.state) {
            node.state = expected_state.clone();
            true
        } else {
            false
        }
    }
}

/// Correcting a node against the state it had before an error: where the
/// error changed the state, correction reports it and restores the node as it
/// was; where the error changed nothing, correction reports nothing.
pub proof fn lemma_correct_after_error(before: QuantumNode, error: QuantumError)
    ensures
        ({
            let hit = before.with_state(state_after_error(before.state, error));
            let reported = hit.state != before.state;
            &&& reported == (state_after_error(before.state, error) != before.state)
            &&& hit.with_state(before.state) == before
        }),
        (before.state is Entangled && error == QuantumError::BitFlip) ==> state_after_error(
            before.state,
            error,
        ) == before.state,
{
}

} // verus!
