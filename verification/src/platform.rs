//! The compile-time capability table and the decisions it settles.
//!
//! Rather than scattering target conditionals through the decision logic, the
//! facts that are fixed when a binary is built (target class, build mode,
//! which optional back-ends are compiled in) are registered once at startup
//! as a plain record.  The decision table below is a pure function of that
//! record, so it can be exercised against any simulated platform.

use vstd::prelude::*;
use crate::choice::{EMBEDDED_ID, SYSTEM_ID};

verus! {

/// Operating-system class of the target, as far as the selection cares.
#[derive(Clone, Copy, PartialEq, Eq, Structural, Debug)]
pub enum OsClass {
    /// Windows desktop or server.
    Windows,
    /// macOS desktop.
    MacOs,
    /// Linux desktop or server.
    Linux,
    /// Android; platform policy mandates its native hardened allocator.
    Android,
    /// iOS; the platform's own allocator is already tuned for it.
    Ios,
    /// FreeBSD; ships a highly optimized native allocator.
    FreeBsd,
    /// NetBSD; ships a highly optimized native allocator.
    NetBsd,
    /// OpenBSD; ships a security-hardened native allocator.
    OpenBsd,
    /// Solaris; ships an enterprise-grade native allocator.
    Solaris,
    /// illumos; ships an enterprise-grade native allocator.
    Illumos,
    /// Anything else, including targets with no operating system.
    Unknown,
}

/// Compile-time facts about the build, registered once at startup.
///
/// `embedded` marks a no-OS target; `wasm` a WebAssembly target; `debug` an
/// unoptimized build.  The two feature flags say whether the optional
/// high-performance back-ends were compiled in at all.
#[derive(Clone, Copy, PartialEq, Eq, Structural, Debug)]
pub struct PlatformConfig {
    /// Operating-system class of the target.
    pub os: OsClass,
    /// The target has no operating system (embedded / bare metal).
    pub embedded: bool,
    /// The target is a WebAssembly environment.
    pub wasm: bool,
    /// The build is a debug (unoptimized) build.
    pub debug: bool,
    /// The high-performance back-end is compiled in.
    pub mimalloc_feature: bool,
    /// The security-hardened high-performance back-end is compiled in.
    pub mimalloc_secure_feature: bool,
}

/// The desktop and server systems on which the high-performance back-ends
/// are supported.
pub open spec fn spec_desktop_os(os: OsClass) -> bool {
    os == OsClass::Windows || os == OsClass::MacOs || os == OsClass::Linux
}

/// The systems whose native allocator is documented as near-optimal or
/// mandated by platform policy, so no runtime probing is worthwhile.
pub open spec fn spec_native_preferred_os(os: OsClass) -> bool {
    ||| os == OsClass::Android
    ||| os == OsClass::Ios
    ||| os == OsClass::FreeBsd
    ||| os == OsClass::NetBsd
    ||| os == OsClass::OpenBsd
    ||| os == OsClass::Solaris
    ||| os == OsClass::Illumos
}

/// Whether the target is an embedded platform that needs the fixed-pool
/// allocator.
pub fn is_embedded_target(config: &PlatformConfig) -> (r: bool)
    ensures
        r == config.embedded,
{
    config.embedded
}

/// Whether the high-performance back-end can serve this build at all.
pub open spec fn spec_can_use_mimalloc(config: PlatformConfig) -> bool {
    &&& config.mimalloc_feature
    &&& spec_desktop_os(config.os)
    &&& !config.wasm
    &&& !config.debug
}

/// Whether the hardened high-performance back-end can serve this build.
pub open spec fn spec_can_use_mimalloc_secure(config: PlatformConfig) -> bool {
    &&& config.mimalloc_secure_feature
    &&& spec_desktop_os(config.os)
    &&& !config.wasm
    &&& !config.debug
}

/// Whether the high-performance back-end can serve this build.
pub fn can_use_mimalloc(config: &PlatformConfig) -> (r: bool)
    ensures
        r == spec_can_use_mimalloc(*config),
{
    config.mimalloc_feature && (config.os == OsClass::Windows || config.os == OsClass::MacOs
        || config.os == OsClass::Linux) && !config.wasm && !config.debug
}

/// Whether the hardened high-performance back-end can serve this build.
pub fn can_use_mimalloc_secure(config: &PlatformConfig) -> (r: bool)
    ensures
        r == spec_can_use_mimalloc_secure(*config),
{
    config.mimalloc_secure_feature && (config.os == OsClass::Windows || config.os
        == OsClass::MacOs || config.os == OsClass::Linux) && !config.wasm && !config.debug
}

/// The compile-time decision table: the back-end identifier that the build
/// facts alone settle, or `None` where the right choice depends on runtime
/// hardware.
///
/// Platform policy and build mode override hardware-based optimization: an
/// embedded target always gets the fixed pool, and WASM targets, debug
/// builds and the native-preferred systems always get the native allocator,
/// however many cores the machine has.
pub open spec fn spec_compile_time_allocator(config: PlatformConfig) -> Option<u8> {
    if config.embedded {
        Some(EMBEDDED_ID)
    } else if config.wasm {
        Some(SYSTEM_ID)
    } else if config.debug {
        Some(SYSTEM_ID)
    } else if spec_native_preferred_os(config.os) {
        Some(SYSTEM_ID)
    } else {
        None
    }
}

/// Looks a build up in the compile-time decision table.
pub fn get_compile_time_allocator(config: &PlatformConfig) -> (r: Option<u8>)
    ensures
        r == spec_compile_time_allocator(*config),
{
    if config.embedded {
        return Some(EMBEDDED_ID);
    }
    if config.wasm {
        return Some(SYSTEM_ID);
    }
    if config.debug {
        return Some(SYSTEM_ID);
    }
    if config.os == OsClass::Android || config.os == OsClass::Ios {
        return Some(SYSTEM_ID);
    }
    if config.os == OsClass::FreeBsd || config.os == OsClass::NetBsd || config.os
        == OsClass::OpenBsd {
        return Some(SYSTEM_ID);
    }
    if config.os == OsClass::Solaris || config.os == OsClass::Illumos {
        return Some(SYSTEM_ID);
    }
    None
}

} // verus!
