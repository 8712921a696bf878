//! Selection core for a process-wide memory-allocator choice.
//!
//! The library decides, once per process, which allocator back-end should
//! serve every allocation request: a high-performance multi-threaded
//! allocator, a security-hardened variant of it, an embedded fixed-pool
//! allocator, or the platform's native allocator.  The decision is a pure
//! function of a compile-time capability table and a hardware snapshot, so
//! that racing first-time callers always compute the same value; a write-once
//! state cell caches it for the lifetime of the process.  A deferred
//! diagnostics slot records why the choice was made and hands the message to
//! a structured logger once one is ready.
//!
//! The back-ends themselves, the hardware probes and the global-allocator
//! hook are external collaborators: callers feed the library plain values
//! (the capability table, a core count, a memory size) and perform the raw
//! allocation calls with the identifier the library hands back.

pub mod api;
pub mod choice;
pub mod decision;
pub mod info;
pub mod memsize;
pub mod platform;
pub mod state;

pub use api::{
    check_allocator_optimization, ensure_allocator_info_ready, get_allocator_info,
    get_allocator_type,
};
pub use choice::AllocatorType;
pub use decision::select_allocator_by_hardware;
pub use info::{get_allocator_selection_result, get_recommended_allocator, AllocatorInfo, SystemInfo};
pub use memsize::format_memory_size;
pub use platform::{OsClass, PlatformConfig};
pub use state::RuntimeAllocator;
