//! Host-to-guest marshaling of execution contexts and identifiers.
//!
//! Host records (chain, application, effect and session identifiers, and the
//! four call contexts) are turned into the flat records that cross into a
//! WebAssembly guest. Contract entry points and service entry points each have
//! their own namespace of guest records.
pub mod hash_codec;
pub mod host;
pub mod narrowing;
pub mod contract;
pub mod laws;
pub mod service;
