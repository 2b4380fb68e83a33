//! Verified core of the ChainX node: the chain-specific network protocol
//! state, the transaction-pool policy and the runtime's inherent extrinsics.

pub mod primitives;
pub mod validator_map;
pub mod network;
pub mod hex;
pub mod hashing;
pub mod pool;
pub mod runtime;
