//! The closed set of allocator back-ends and their compact numeric encoding.
//!
//! The selection cell stores a single byte: `0` means that no back-end has
//! been chosen yet, every other live value names one back-end.  The gaps in
//! the numbering are kept stable so that the encoding never changes meaning
//! between builds.

use vstd::prelude::*;

verus! {

/// Identifier stored in the selection cell while no back-end is chosen.
pub const UNSELECTED_ID: u8 = 0;

/// Identifier of the platform's native allocator.
pub const SYSTEM_ID: u8 = 1;

/// Identifier of the high-performance multi-threaded allocator.
pub const MIMALLOC_ID: u8 = 2;

/// Identifier of the embedded fixed-pool allocator.
pub const EMBEDDED_ID: u8 = 4;

/// Identifier of the security-hardened high-performance allocator.
pub const MIMALLOC_SECURE_ID: u8 = 5;

/// The allocator back-ends a process can be routed to.
///
/// Exactly one of these is live for the lifetime of the process once the
/// selection cell has been written; it never changes afterwards.
#[derive(Clone, Copy, PartialEq, Eq, Structural, Debug)]
pub enum AllocatorType {
    /// Security-hardened variant of the high-performance allocator.
    MimallocSecure,
    /// High-performance multi-threaded allocator.
    Mimalloc,
    /// Fixed-pool allocator for embedded (no-OS) targets.
    EmbeddedHeap,
    /// The operating system's native allocator.
    System,
}

/// Holds of every identifier that names a live back-end.
pub open spec fn is_valid_allocator_id(id: u8) -> bool {
    id == SYSTEM_ID || id == MIMALLOC_ID || id == EMBEDDED_ID || id == MIMALLOC_SECURE_ID
}

/// The back-end a stored identifier names; unknown values fall back to the
/// native allocator, as the dispatch layer does.
pub open spec fn spec_choice_of_id(id: u8) -> AllocatorType {
    if id == MIMALLOC_SECURE_ID {
        AllocatorType::MimallocSecure
    } else if id == MIMALLOC_ID {
        AllocatorType::Mimalloc
    } else if id == EMBEDDED_ID {
        AllocatorType::EmbeddedHeap
    } else {
        AllocatorType::System
    }
}

/// The identifier under which a back-end is stored in the selection cell.
pub open spec fn spec_id_of_choice(t: AllocatorType) -> u8 {
    match t {
        AllocatorType::MimallocSecure => MIMALLOC_SECURE_ID,
        AllocatorType::Mimalloc => MIMALLOC_ID,
        AllocatorType::EmbeddedHeap => EMBEDDED_ID,
        AllocatorType::System => SYSTEM_ID,
    }
}

/// Decodes a stored identifier into the back-end it names.
pub fn allocator_type_from_id(id: u8) -> (t: AllocatorType)
    ensures
        t == spec_choice_of_id(id),
{
    if id == MIMALLOC_SECURE_ID {
        AllocatorType::MimallocSecure
    } else if id == MIMALLOC_ID {
        AllocatorType::Mimalloc
    } else if id == EMBEDDED_ID {
        AllocatorType::EmbeddedHeap
    } else {
        AllocatorType::System
    }
}

/// Encodes a back-end as the identifier the selection cell stores for it.
pub fn allocator_id_of_type(t: AllocatorType) -> (id: u8)
    ensures
        id == spec_id_of_choice(t),
        is_valid_allocator_id(id),
{
    match t {
        AllocatorType::MimallocSecure => MIMALLOC_SECURE_ID,
        AllocatorType::Mimalloc => MIMALLOC_ID,
        AllocatorType::EmbeddedHeap => EMBEDDED_ID,
        AllocatorType::System => SYSTEM_ID,
    }
}

/// Decoding inverts encoding: every back-end survives a round trip through
/// the selection cell unchanged.
pub proof fn lemma_choice_id_round_trip(t: AllocatorType)
    ensures
        spec_choice_of_id(spec_id_of_choice(t)) == t,
{
}

/// Encoding inverts decoding on every live identifier.
pub proof fn lemma_id_choice_round_trip(id: u8)
    requires
        is_valid_allocator_id(id),
    ensures
        spec_id_of_choice(spec_choice_of_id(id)) == id,
{
}

} // verus!
