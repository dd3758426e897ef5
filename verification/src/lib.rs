//! Extensible precompiled contracts for an EVM execution engine.
//!
//! The crate defines two native routines at reserved addresses, the ABI
//! encoding they speak, the state one of them keeps, and the rule by which
//! an engine for a given hardfork gets the base precompile set or the base
//! set extended with the two routines.

pub mod abi;
pub mod selector;
pub mod routine;
pub mod state;
pub mod hardfork;
pub mod registry;
pub mod factory;
pub mod chain;
