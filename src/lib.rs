//! Verified bindings over a firmware runtime's service tables: the
//! three-way status model, buffer negotiation, handle and protocol
//! discovery, a pool-memory allocator, and file, console and graphics
//! wrappers built on them.
//!
//! Each firmware table is a trait whose spec functions describe its answers;
//! the logic above is generic over it and verified for every implementation.
//! The `simulated` module holds in-memory implementations.

pub mod boot;
pub mod console;
pub mod device_path;
pub mod file;
pub mod graphics;
pub mod input;
pub mod memory;
pub mod modes;
pub mod pool;
pub mod runtime;
pub mod simulated;
pub mod status;
pub mod time;
