//! The deferred diagnostics handoff: the explanation is recorded once,
//! survives until a logger is ready, and is handed out exactly once.

use auto_allocator::state::RuntimeAllocator;
use auto_allocator::{get_allocator_info, OsClass, PlatformConfig, SystemInfo};

fn config() -> PlatformConfig {
    PlatformConfig {
        os: OsClass::Linux,
        embedded: false,
        wasm: false,
        debug: true,
        mimalloc_feature: true,
        mimalloc_secure_feature: false,
    }
}

fn snapshot() -> SystemInfo {
    SystemInfo {
        os_type: "linux".to_string(),
        cpu_cores: 4,
        total_memory_bytes: 2147483648,
        is_debug: true,
        is_wasm: false,
        target_arch: "x86_64".to_string(),
    }
}

#[test]
fn test_flush_before_decision_is_empty() {
    let mut state = RuntimeAllocator::new(config());
    assert!(state.try_flush_pending_log().is_none());
    assert!(state.smart_try_flush_log().is_none());
    assert!(!state.flushed);
}

#[test]
fn test_decision_message_exact_and_flushed_once() {
    let mut state = RuntimeAllocator::new(config());
    let id = state.get_allocator_id(&snapshot());
    assert_eq!(id, 1);
    // the recorded explanation is handed out exactly once
    let msg = state.try_flush_pending_log().expect("a decision must leave a pending message");
    assert_eq!(
        msg,
        "Auto-allocator: system selected - debug build - compile-time selected (4 cores, 2GB total RAM)"
    );
    assert!(state.try_flush_pending_log().is_none());
    assert!(state.smart_try_flush_log().is_none());
    assert!(state.flushed);
}

#[test]
fn test_decision_recorded_once() {
    let mut state = RuntimeAllocator::new(config());
    let first = state.get_allocator_id(&snapshot());
    // further reads do not write a second message
    let again = state.get_allocator_id(&snapshot());
    assert_eq!(first, again);
    let msg = state.smart_try_flush_log();
    assert!(msg.is_some());
    assert!(state.try_flush_pending_log().is_none());
}

#[test]
fn test_log_info_names() {
    let cfg = config();
    let info = snapshot();
    let (name, reason) = RuntimeAllocator::get_allocator_log_info(5, &cfg, &info);
    assert_eq!(name, "mimalloc-secure");
    assert!(reason.contains("security-hardened"));
    let (name, reason) = RuntimeAllocator::get_allocator_log_info(2, &cfg, &info);
    assert_eq!(name, "mimalloc");
    assert!(reason.contains("optimal performance"));
    let (name, reason) = RuntimeAllocator::get_allocator_log_info(4, &cfg, &info);
    assert_eq!(name, "embedded-alloc");
    assert!(reason.contains("embedded platform"));
    let (name, reason) = RuntimeAllocator::get_allocator_log_info(1, &cfg, &info);
    assert_eq!(name, "system");
    assert!(reason.contains("debug build"));
}

#[test]
fn test_info_reason_runtime_analysis() {
    let fast = PlatformConfig {
        os: OsClass::Linux,
        embedded: false,
        wasm: false,
        debug: false,
        mimalloc_feature: true,
        mimalloc_secure_feature: false,
    };
    let mut state = RuntimeAllocator::new(fast);
    let info = get_allocator_info(
        &mut state,
        SystemInfo {
            os_type: "linux".to_string(),
            cpu_cores: 8,
            total_memory_bytes: 17179869184,
            is_debug: false,
            is_wasm: false,
            target_arch: "x86_64".to_string(),
        },
    );
    assert_eq!(
        info.reason,
        "mimalloc selected by runtime hardware analysis (8 cores, 16GB total RAM)"
    );
    assert_eq!(info.system_info.cpu_cores, 8);
    assert_eq!(info.system_info.os_type, "linux");
}
