//! Block and header validation, transaction-inclusion proofs over a complete
//! binary Merkle tree, and read-side chain queries against an immutable
//! snapshot of the chain.
pub mod block;
pub mod block_verifier;
pub mod chain;
pub mod economic;
pub mod error;
pub mod get_blocks_process;
pub mod hash;
pub mod header_verifier;
pub mod laws;
pub mod merkle;
pub mod rpc;
pub mod snapshot;
pub mod tx_proof;
