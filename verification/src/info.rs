//! Hardware snapshots and the recommendation query.
//!
//! A `SystemInfo` is an immutable record of what the probes saw: core count,
//! total memory, and the identity of the build.  The recommendation query
//! re-runs the decision procedure's logic against such a snapshot, without
//! touching the cached live choice, and explains its answer in a
//! human-readable reason string.

use vstd::prelude::*;
use vstd::string::StringExecFns;
use crate::choice::{spec_choice_of_id, AllocatorType};
use crate::decision::spec_select_id;
use crate::memsize::{format_memory_size, spec_decimal, spec_format_memory_size, u64_to_string};
use crate::platform::{spec_can_use_mimalloc, spec_can_use_mimalloc_secure, OsClass, PlatformConfig};

verus! {

/// Runtime-detected system information, captured by the caller's probes and
/// handed in as plain values.
///
/// `cpu_cores` counts logical cores and is at least 1 on any real probe;
/// `total_memory_bytes` is 0 where the machine's memory could not be
/// determined.  The remaining fields only describe the build and target for
/// display.
#[derive(Debug, Clone)]
pub struct SystemInfo {
    /// Operating-system name, such as "linux", "macos" or "windows".
    pub os_type: String,
    /// Logical CPU core count.
    pub cpu_cores: usize,
    /// Total physical memory in bytes; 0 means unknown.
    pub total_memory_bytes: u64,
    /// Whether this is a debug build.
    pub is_debug: bool,
    /// Whether this is a WebAssembly environment.
    pub is_wasm: bool,
    /// Target architecture, such as "x86_64" or "aarch64".
    pub target_arch: String,
}

/// The live allocator choice together with the reason it was made and the
/// snapshot it was based on.
#[derive(Debug, Clone)]
pub struct AllocatorInfo {
    /// The back-end in service.
    pub allocator_type: AllocatorType,
    /// Why it was chosen, including the hardware seen at decision time.
    pub reason: String,
    /// The hardware snapshot the explanation refers to.
    pub system_info: SystemInfo,
}

/// The "N cores, M total RAM" fragment of a reason string.
pub open spec fn spec_hw_cores_mem(cores: int, mem: u64) -> Seq<char> {
    spec_decimal(cores) + " cores, "@ + spec_format_memory_size(mem) + " total RAM"@
}

/// The "M total RAM" fragment of a reason string, for targets whose core
/// count carries no information.
pub open spec fn spec_hw_mem(mem: u64) -> Seq<char> {
    spec_format_memory_size(mem) + " total RAM"@
}

/// A reason string: an explanation followed by the hardware fragment in
/// parentheses.
pub open spec fn spec_with_hw(prefix: Seq<char>, hw: Seq<char>) -> Seq<char> {
    prefix + " ("@ + hw + ")"@
}

/// The explanation the recommendation query gives for a capability table and
/// a snapshot.  Its branches mirror the decision procedure exactly, so the
/// explained choice is always the decided one.
pub open spec fn spec_recommendation_reason(
    config: PlatformConfig,
    cores: int,
    mem: u64,
) -> Seq<char> {
    if config.embedded {
        spec_with_hw("embedded-alloc allocator - embedded environment"@, spec_hw_mem(mem))
    } else if config.wasm {
        spec_with_hw("system allocator - WASM environment"@, spec_hw_mem(mem))
    } else if config.debug {
        spec_with_hw("system allocator - debug build"@, spec_hw_cores_mem(cores, mem))
    } else if config.os == OsClass::Android {
        spec_with_hw(
            "Android platform - Scudo allocator (security-first, use-after-free protection)"@,
            spec_hw_cores_mem(cores, mem),
        )
    } else if config.os == OsClass::Ios {
        spec_with_hw(
            "iOS platform - libmalloc allocator (Apple-optimized, memory pressure handling)"@,
            spec_hw_cores_mem(cores, mem),
        )
    } else if config.os == OsClass::FreeBsd || config.os == OsClass::NetBsd {
        spec_with_hw(
            "BSD platform - native jemalloc (highly optimized, deep system integration)"@,
            spec_hw_cores_mem(cores, mem),
        )
    } else if config.os == OsClass::OpenBsd {
        spec_with_hw(
            "OpenBSD platform - security-hardened allocator (exploit mitigation, aggressive hardening)"@,
            spec_hw_cores_mem(cores, mem),
        )
    } else if config.os == OsClass::Solaris || config.os == OsClass::Illumos {
        spec_with_hw(
            "Solaris platform - libumem allocator (NUMA-aware, enterprise-grade performance)"@,
            spec_hw_cores_mem(cores, mem),
        )
    } else if cores >= 2 && spec_can_use_mimalloc_secure(config) {
        spec_with_hw(
            "mimalloc-secure allocator - security-hardened multi-threaded environment"@,
            spec_hw_cores_mem(cores, mem),
        )
    } else if cores >= 2 && spec_can_use_mimalloc(config) {
        spec_with_hw(
            "mimalloc allocator - high-performance multi-threaded environment"@,
            spec_hw_cores_mem(cores, mem),
        )
    } else {
        spec_with_hw("system allocator - low-performance environment"@, spec_hw_cores_mem(cores, mem))
    }
}

/// Builds the "N cores, M total RAM" fragment.
pub(crate) fn hw_cores_mem(cores: usize, mem: u64) -> (s: String)
    ensures
        s@ == spec_hw_cores_mem(cores as int, mem),
{
    let mut s = u64_to_string(cores as u64);
    s.append(" cores, ");
    let m = format_memory_size(mem);
    s.append(m.as_str());
    s.append(" total RAM");
    s
}

/// Builds the "M total RAM" fragment.
pub(crate) fn hw_mem(mem: u64) -> (s: String)
    ensures
        s@ == spec_hw_mem(mem),
{
    let mut s = format_memory_size(mem);
    s.append(" total RAM");
    s
}

/// Joins an explanation and a hardware fragment into one reason string.
pub(crate) fn make_reason(prefix: &str, hw: &str) -> (s: String)
    ensures
        s@ == spec_with_hw(prefix@, hw@),
{
    let mut s = String::from_str(prefix);
    s.append(" (");
    s.append(hw);
    s.append(")");
    s
}

/// Runs the decision procedure's logic against a snapshot and explains the
/// outcome, without consulting or changing any cached state.
pub fn get_allocator_selection_result(config: &PlatformConfig, info: &SystemInfo) -> (r: (
    AllocatorType,
    String,
))
    ensures
        r.0 == spec_choice_of_id(spec_select_id(*config, info.cpu_cores as nat)),
        r.1@ == spec_recommendation_reason(*config, info.cpu_cores as int, info.total_memory_bytes),
{
    let cores = info.cpu_cores;
    let mem = info.total_memory_bytes;
    if config.embedded {
        let h = hw_mem(mem);
        (
            AllocatorType::EmbeddedHeap,
            make_reason("embedded-alloc allocator - embedded environment", h.as_str()),
        )
    } else if config.wasm {
        let h = hw_mem(mem);
        (AllocatorType::System, make_reason("system allocator - WASM environment", h.as_str()))
    } else if config.debug {
        let h = hw_cores_mem(cores, mem);
        (AllocatorType::System, make_reason("system allocator - debug build", h.as_str()))
    } else if config.os == OsClass::Android {
        let h = hw_cores_mem(cores, mem);
        (
            AllocatorType::System,
            make_reason(
                "Android platform - Scudo allocator (security-first, use-after-free protection)",
                h.as_str(),
            ),
        )
    } else if config.os == OsClass::Ios {
        let h = hw_cores_mem(cores, mem);
        (
            AllocatorType::System,
            make_reason(
                "iOS platform - libmalloc allocator (Apple-optimized, memory pressure handling)",
                h.as_str(),
            ),
        )
    } else if config.os == OsClass::FreeBsd || config.os == OsClass::NetBsd {
        let h = hw_cores_mem(cores, mem);
        (
            AllocatorType::System,
            make_reason(
                "BSD platform - native jemalloc (highly optimized, deep system integration)",
                h.as_str(),
            ),
        )
    } else if config.os == OsClass::OpenBsd {
        let h = hw_cores_mem(cores, mem);
        (
            AllocatorType::System,
            make_reason(
                "OpenBSD platform - security-hardened allocator (exploit mitigation, aggressive hardening)",
                h.as_str(),
            ),
        )
    } else if config.os == OsClass::Solaris || config.os == OsClass::Illumos {
        let h = hw_cores_mem(cores, mem);
        (
            AllocatorType::System,
            make_reason(
                "Solaris platform - libumem allocator (NUMA-aware, enterprise-grade performance)",
                h.as_str(),
            ),
        )
    } else if cores >= 2 && crate::platform::can_use_mimalloc_secure(config) {
        let h = hw_cores_mem(cores, mem);
        (
            AllocatorType::MimallocSecure,
            make_reason(
                "mimalloc-secure allocator - security-hardened multi-threaded environment",
                h.as_str(),
            ),
        )
    } else if cores >= 2 && crate::platform::can_use_mimalloc(config) {
        let h = hw_cores_mem(cores, mem);
        (
            AllocatorType::Mimalloc,
            make_reason(
                "mimalloc allocator - high-performance multi-threaded environment",
                h.as_str(),
            ),
        )
    } else {
        let h = hw_cores_mem(cores, mem);
        (
            AllocatorType::System,
            make_reason("system allocator - low-performance environment", h.as_str()),
        )
    }
}

/// The recommended back-end for the current environment, with the reason: a
/// fresh run of the decision logic against the given snapshot, independent
/// of the cached live choice.  Used for drift detection.
pub fn get_recommended_allocator(config: &PlatformConfig, info: &SystemInfo) -> (r: (
    AllocatorType,
    String,
))
    ensures
        r.0 == spec_choice_of_id(spec_select_id(*config, info.cpu_cores as nat)),
        r.1@ == spec_recommendation_reason(*config, info.cpu_cores as int, info.total_memory_bytes),
{
    get_allocator_selection_result(config, info)
}

} // verus!
