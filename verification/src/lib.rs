//! Verified core of a single-hop IBC relayer: trust derivation, proof-program
//! selection, membership-proof construction and event correlation.

pub mod abi;
pub mod bytes;
pub mod client;
pub mod eth;
pub mod events;
pub mod fixture;
pub mod height;
pub mod inflight;
pub mod membership;
pub mod module;
pub mod path;
pub mod pipeline;
pub mod program;
pub mod relay;
pub mod service;
pub mod trust;
