//! Block import verification and state commitment for an L2 full node.
//!
//! The library decides whether an incoming block extends the local chain,
//! combines the two trie roots into the global state root, builds and checks
//! the block's header and hash, drives one import step by step, and holds the
//! visibility rules of the two-tier (pending / finalized) class store.
pub mod block_hash;
pub mod class_store;
pub mod continuity;
pub mod felt;
pub mod gateway;
pub mod import;
pub mod l1;
pub mod rpc;
pub mod state_root;
pub mod types;

pub use felt::Felt;
