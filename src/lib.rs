//! Typed expression trees over small modular value types: evaluation against a
//! coordinate context, depth-bounded random generation, and in-place mutation.
pub mod discrete;
pub mod rng;
pub mod siblings;
pub mod nodes;
pub mod policy;
pub mod generation;
pub mod mutation;
pub mod laws;
