//! A small simulation of a network of abstract "quantum" nodes: nodes are
//! registered, entangled, share keys and exchange encrypted packets, and their
//! states can be perturbed and restored.

pub mod api;
pub mod quantum_cryptography;
pub mod quantum_entanglement;
pub mod quantum_error_correction;
pub mod quantum_network;
pub mod quantum_packet;
mod random;
pub mod simulator;

pub use api::{
    EntangleNodesRequest, KeyExchangeRequest, NodeStatusResponse, QuantumAPI, RegisterNodeRequest,
    SendMessageRequest,
};
pub use quantum_cryptography::QuantumCryptography;
pub use quantum_entanglement::QuantumEntanglement;
pub use quantum_error_correction::{QuantumError, QuantumErrorCorrection};
pub use quantum_network::{NetworkError, QuantumNetwork, QuantumNode, QuantumState};
pub use quantum_packet::{QuantumPacket, QuantumPacketType};
pub use simulator::QuantumSimulator;
