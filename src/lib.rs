//! Settlement core of a cross-chain stablecoin bridge: a nonce-keyed ledger of
//! pending withdrawals, a registry of remote chains, and the ABI encoder that
//! turns each lifecycle transition into the payload of a remote job.
pub mod abi;
pub mod bridge;
pub mod error;
pub mod laws;
pub mod ledger;
pub mod msg;
pub mod order;
pub mod registry;
pub mod state;
