//! A minimal cross-chain messaging contract built on an inter-blockchain
//! communication (IBC) layer hosted by a blockchain virtual machine.
//!
//! The contract participates in the IBC channel handshake, sends and receives
//! application-level packets over an established channel, and records the most
//! recent operation and the most recently received cross-chain answer for
//! later inspection. The host runtime owns the protocol machinery (handshake
//! enforcement, relaying, proofs); this library holds the contract's own
//! logic: the handlers, the three single-slot stores, and the packet wire
//! codec, each with a verified contract.

pub mod codec;
pub mod contract;
pub mod error;
pub mod laws;
pub mod msg;
pub mod state;
