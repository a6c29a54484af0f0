//! A verified data-access layer for a small messaging domain: users,
//! channels, messages, and the directed edges between them, kept in a
//! graph-capable backing store that is reached over a network handle.
//!
//! The library decides; the caller talks to the store. Every composite
//! operation is a state machine that hands out one store request at a time
//! and is fed the store's reply, so its decisions are proved here against an
//! abstract model of the store, while the network work stays with the caller.

pub mod ident;
pub mod entity;
pub mod pool;
pub mod store;
pub mod ops;
pub mod repo;
pub mod laws;
