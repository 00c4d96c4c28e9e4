//! Manual memory allocators for real-time applications: a bump arena, a LIFO
//! stack allocator, a double-ended stack and a fixed-chunk pool, together with
//! a central registry that aggregates allocator statistics, and the small
//! value-level utilities that surround them (paths, byte buffers, input
//! state, GPU resource descriptions).
//!
//! Allocators hand out offsets into their backing block rather than raw
//! pointers; every operation is specified and verified, and the contract
//! violations that a raw-pointer design would turn into memory corruption
//! (restoring a stale checkpoint, freeing out of order, freeing a foreign
//! chunk) are reported as explicit errors instead.

pub mod alignment;
pub mod arena;
pub mod backend;
pub mod clock;
pub mod error;
pub mod events;
pub mod format;
pub mod framegraph;
pub mod gfx;
pub mod input;
pub mod manager;
pub mod network;
pub mod pathutil;
pub mod pool;
pub mod stack;
pub mod sysinfo;
pub mod threading;
pub mod window;
