//! Verified core of an NFT collection minter contract and of the reward
//! handler that collects its royalties and mint payments.
//!
//! The contract storage is modelled as plain values; every endpoint is a
//! function from the stored state and the transaction's inputs to the next
//! state and to the requests that the blockchain host carries out.

pub mod store;
pub mod token;
pub mod collection;
pub mod whitelist;
pub mod minter;
pub mod reward;
pub mod laws;
