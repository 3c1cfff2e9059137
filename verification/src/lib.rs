//! A safety layer between a plugin and the simulator that hosts it.
//!
//! The simulator owns all state and speaks a C ABI of opaque handles, integer
//! codes and correlation tokens. This crate holds the decisions of the layer:
//! which raw values are handles, which typed accesses are admitted, what is
//! handed to the host for each operation, how its answers are read, and how a
//! callback that carries a token is led to the handler registered under it.
//! The calls into the host themselves are made by the embedding code.

pub mod api;
pub mod ffi;
pub mod log;
pub mod once;
pub mod plugin;
