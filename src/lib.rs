//! Block execution and payload validation for a Scroll-style layer-2 chain.
pub mod assembler;
pub mod bits;
pub mod block;
pub mod built;
pub mod codec;
pub mod compact;
pub mod config;
pub mod engine;
pub mod eth_engine;
pub mod executor;
pub mod hardfork;
pub mod l1fee;
pub mod node;
pub mod payload;
pub mod primitives;
pub mod receipt;
pub mod rlp;
pub mod rpc;
pub mod state;
pub mod transaction;
