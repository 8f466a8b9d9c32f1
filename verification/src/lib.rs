//! Level-based NFT issuance: a minter authority, a monotonic token counter,
//! per-level metadata and the queries that join ownership with metadata.

pub mod authority;
pub mod contract;
pub mod counter;
pub mod decimal;
pub mod error;
pub mod host;
pub mod laws;
pub mod levels;
pub mod msg;
pub mod registry;
pub mod state;
