//! The runtime decision engine.
//!
//! Invoked only where the compile-time table is inconclusive, that is on a
//! desktop or server build whose right back-end depends on detected
//! hardware.  The engine is a pure function of the capability table and the
//! probed core count: it performs no probing and no allocation itself, so
//! racing first-time callers can all run it redundantly and are guaranteed
//! to agree on the outcome.

use vstd::prelude::*;
use crate::choice::{
    is_valid_allocator_id, spec_choice_of_id, AllocatorType, MIMALLOC_ID, MIMALLOC_SECURE_ID,
    SYSTEM_ID,
};
use crate::platform::{
    can_use_mimalloc, can_use_mimalloc_secure, get_compile_time_allocator, spec_can_use_mimalloc,
    spec_can_use_mimalloc_secure, spec_compile_time_allocator, spec_desktop_os,
    spec_native_preferred_os, PlatformConfig,
};

verus! {

/// The back-end identifier the whole decision procedure settles on: the
/// compile-time table where it is conclusive, else the hardware rule.
///
/// The hardware rule prefers the hardened high-performance back-end, then
/// the plain one, and takes either only on a multi-core machine; a
/// single-core machine gains nothing from them and keeps the native
/// allocator.
pub open spec fn spec_select_id(config: PlatformConfig, cpu_cores: nat) -> u8 {
    match spec_compile_time_allocator(config) {
        Some(id) => id,
        None => {
            if cpu_cores >= 2 && spec_can_use_mimalloc_secure(config) {
                MIMALLOC_SECURE_ID
            } else if cpu_cores >= 2 && spec_can_use_mimalloc(config) {
                MIMALLOC_ID
            } else {
                SYSTEM_ID
            }
        },
    }
}

/// Every outcome of the decision procedure names a live back-end.
pub proof fn lemma_select_id_valid(config: PlatformConfig, cpu_cores: nat)
    ensures
        is_valid_allocator_id(spec_select_id(config, cpu_cores)),
{
}

/// Runs the full decision procedure: compile-time rules first, then the
/// runtime hardware rule on the probed core count.
pub fn select_allocator_by_hardware(config: &PlatformConfig, cpu_cores: usize) -> (id: u8)
    ensures
        id == spec_select_id(*config, cpu_cores as nat),
        is_valid_allocator_id(id),
{
    if let Some(allocator_id) = get_compile_time_allocator(config) {
        return allocator_id;
    }
    if cpu_cores >= 2 && can_use_mimalloc_secure(config) {
        return MIMALLOC_SECURE_ID;
    }
    if cpu_cores >= 2 && can_use_mimalloc(config) {
        return MIMALLOC_ID;
    }
    SYSTEM_ID
}

/// The decision procedure is deterministic: for one capability table and one
/// hardware snapshot, any two runs settle on the same back-end.  This is
/// what lets racing first-time callers publish their locally computed value
/// with a plain store: all possible writers agree.
pub proof fn lemma_selection_deterministic(
    config: PlatformConfig,
    cpu_cores: nat,
    id1: u8,
    id2: u8,
)
    requires
        id1 == spec_select_id(config, cpu_cores),
        id2 == spec_select_id(config, cpu_cores),
    ensures
        id1 == id2,
{
}

/// Build mode overrides hardware: a debug build on a hosted target keeps the
/// native allocator whatever the core count says.
pub proof fn lemma_debug_overrides_hardware(config: PlatformConfig, cpu_cores: nat)
    requires
        config.debug,
        !config.embedded,
    ensures
        spec_choice_of_id(spec_select_id(config, cpu_cores)) == AllocatorType::System,
{
}

/// The core-count threshold on a hosted desktop or server build that reaches
/// the runtime rule with the high-performance back-end compiled in: one core
/// keeps the native allocator; two or more take the high-performance
/// back-end, with the hardened variant taking priority where it is compiled
/// in.
pub proof fn lemma_core_count_threshold(config: PlatformConfig, cpu_cores: nat)
    requires
        !config.embedded,
        !config.wasm,
        !config.debug,
        !spec_native_preferred_os(config.os),
        spec_desktop_os(config.os),
        config.mimalloc_feature,
    ensures
        cpu_cores <= 1 ==> spec_choice_of_id(spec_select_id(config, cpu_cores))
            == AllocatorType::System,
        cpu_cores >= 2 && config.mimalloc_secure_feature ==> spec_choice_of_id(
            spec_select_id(config, cpu_cores),
        ) == AllocatorType::MimallocSecure,
        cpu_cores >= 2 && !config.mimalloc_secure_feature ==> spec_choice_of_id(
            spec_select_id(config, cpu_cores),
        ) == AllocatorType::Mimalloc,
{
}

} // verus!
