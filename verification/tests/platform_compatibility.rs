//! Platform compatibility tests: the selection logic run against simulated
//! capability tables and hardware snapshots.

use auto_allocator::{
    check_allocator_optimization, get_allocator_info, AllocatorType, OsClass, PlatformConfig,
    RuntimeAllocator, SystemInfo,
};

fn desktop_config(debug: bool) -> PlatformConfig {
    PlatformConfig {
        os: OsClass::Linux,
        embedded: false,
        wasm: false,
        debug,
        mimalloc_feature: true,
        mimalloc_secure_feature: false,
    }
}

fn snapshot(cores: usize, mem: u64) -> SystemInfo {
    SystemInfo {
        os_type: "linux".to_string(),
        cpu_cores: cores,
        total_memory_bytes: mem,
        is_debug: false,
        is_wasm: false,
        target_arch: "x86_64".to_string(),
    }
}

#[test]
fn test_allocator_selection_consistency() {
    // Allocator selection is consistent across multiple calls
    let mut state = RuntimeAllocator::new(desktop_config(false));
    let info1 = get_allocator_info(&mut state, snapshot(8, 16 * 1024 * 1024 * 1024));
    let info2 = get_allocator_info(&mut state, snapshot(8, 16 * 1024 * 1024 * 1024));

    assert_eq!(info1.allocator_type, info2.allocator_type);
    assert_eq!(info1.reason, info2.reason);
}

#[test]
fn test_platform_specific_allocator_selection() {
    // WASM always uses the system allocator
    let wasm_config = PlatformConfig {
        os: OsClass::Unknown,
        embedded: false,
        wasm: true,
        debug: false,
        mimalloc_feature: false,
        mimalloc_secure_feature: false,
    };
    let mut state = RuntimeAllocator::new(wasm_config);
    let info = get_allocator_info(&mut state, snapshot(1, 64 * 1024 * 1024));
    assert_eq!(info.allocator_type, AllocatorType::System);
    assert!(info.reason.contains("WASM") || info.reason.contains("compatibility"));

    // Debug builds prefer the system allocator for fast compilation
    let mut state = RuntimeAllocator::new(desktop_config(true));
    let info = get_allocator_info(&mut state, snapshot(64, 128 * 1024 * 1024 * 1024));
    assert_eq!(info.allocator_type, AllocatorType::System);
    assert!(info.reason.contains("Debug") || info.reason.contains("debug"));

    // Embedded targets use the embedded allocator
    let embedded_config = PlatformConfig {
        os: OsClass::Unknown,
        embedded: true,
        wasm: false,
        debug: false,
        mimalloc_feature: false,
        mimalloc_secure_feature: false,
    };
    let mut state = RuntimeAllocator::new(embedded_config);
    let info = get_allocator_info(&mut state, snapshot(1, 32 * 1024));
    assert_eq!(info.allocator_type, AllocatorType::EmbeddedHeap);
    assert!(info.reason.contains("embedded") || info.reason.contains("Embedded"));

    // Modern multi-core platforms in release mode use mimalloc
    let mut state = RuntimeAllocator::new(desktop_config(false));
    let info = get_allocator_info(&mut state, snapshot(8, 16 * 1024 * 1024 * 1024));
    assert_eq!(info.allocator_type, AllocatorType::Mimalloc);
    assert!(
        info.reason.contains("performance") || info.reason.contains("optimal")
            || info.reason.contains("mimalloc")
    );
}

#[test]
fn test_memory_allocation_basic() {
    // Test basic memory allocation works with selected allocator
    let data: Vec<u8> = vec![0; 1024];
    assert_eq!(data.len(), 1024);

    let string_data = String::from("Hello, auto-allocator!");
    assert_eq!(string_data, "Hello, auto-allocator!");
}

#[test]
fn test_memory_allocation_stress() {
    // Stress test memory allocation
    let mut allocations = Vec::new();

    // Allocate various sizes
    for size in [16, 64, 256, 1024, 4096] {
        let data: Vec<u8> = vec![42; size];
        assert_eq!(data.len(), size);
        assert!(data.iter().all(|&x| x == 42));
        allocations.push(data);
    }

    // Verify all allocations are still valid
    for (i, alloc) in allocations.iter().enumerate() {
        let expected_size = [16, 64, 256, 1024, 4096][i];
        assert_eq!(alloc.len(), expected_size);
        assert!(alloc.iter().all(|&x| x == 42));
    }
}

#[test]
fn test_allocator_optimization_check() {
    // Right after selecting from the same snapshot, the choice is optimal
    let mut state = RuntimeAllocator::new(desktop_config(true));
    let (is_optimal, suggestion) =
        check_allocator_optimization(&mut state, &snapshot(8, 16 * 1024 * 1024 * 1024));
    assert!(is_optimal);
    assert!(suggestion.is_none());

    // A snapshot drift makes the check report a suggestion
    let mut state = RuntimeAllocator::new(desktop_config(false));
    let (is_optimal, suggestion) =
        check_allocator_optimization(&mut state, &snapshot(8, 16 * 1024 * 1024 * 1024));
    assert!(is_optimal);
    assert!(suggestion.is_none());
    let (is_optimal, suggestion) =
        check_allocator_optimization(&mut state, &snapshot(1, 16 * 1024 * 1024 * 1024));
    assert!(!is_optimal);

    // Suggestion should be meaningful if provided
    if let Some(msg) = suggestion {
        assert!(!msg.is_empty());
        assert!(msg.len() > 10); // Should be a meaningful message
    } else {
        panic!("a non-optimal check must carry a suggestion");
    }
}
