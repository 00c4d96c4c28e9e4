use avila::manager::{AllocatorInfo, AllocatorType, MemoryManager, MemoryStats};

#[test]
fn manager_test_memory_stats() {
    let mut stats = MemoryStats::new();

    stats.record_allocation(1024);
    assert_eq!(stats.total_allocations(), 1);
    assert_eq!(stats.current_memory_usage(), 1024);

    stats.record_deallocation(512);
    assert_eq!(stats.total_deallocations(), 1);
    assert_eq!(stats.current_memory_usage(), 512);
}

#[test]
fn test_peak_memory() {
    let mut stats = MemoryStats::new();

    stats.record_allocation(1000);
    stats.record_allocation(500);
    assert_eq!(stats.peak_memory_usage(), 1500);

    stats.record_deallocation(1000);
    assert_eq!(stats.current_memory_usage(), 500);
    assert_eq!(stats.peak_memory_usage(), 1500);
}

#[test]
fn manager_test_memory_manager() {
    let mut manager = MemoryManager::new();

    manager.register_allocator(
        "arena1",
        AllocatorInfo {
            allocator_type: AllocatorType::Arena,
            total_capacity: 1024,
            used: 512,
            available: 512,
            allocation_count: 10,
            deallocation_count: 5,
        },
    );

    let report = manager.report();
    assert_eq!(report.allocator_count, 1);
    assert_eq!(report.total_allocated, 1024);
}

#[test]
fn manager_test_format_bytes() {
    assert_eq!(avila::format::bytes(512), "512 bytes");
    assert_eq!(avila::format::bytes(2048), "2.00 KB");
    assert_eq!(avila::format::bytes(2 * 1024 * 1024), "2.00 MB");
}

#[test]
fn peak_never_drops_below_current() {
    let mut stats = MemoryStats::new();
    let sizes = [100usize, 400, 50, 900, 3];
    let mut last_peak = 0;
    for size in sizes {
        stats.record_allocation(size);
        assert!(stats.peak_memory_usage() >= stats.current_memory_usage());
        assert!(stats.peak_memory_usage() >= last_peak);
        last_peak = stats.peak_memory_usage();
    }
    stats.record_deallocation(900);
    assert!(stats.peak_memory_usage() >= stats.current_memory_usage());
    assert_eq!(stats.peak_memory_usage(), last_peak);
}

#[test]
fn register_replaces_existing_snapshot() {
    let mut manager = MemoryManager::new();
    let first = AllocatorInfo {
        allocator_type: AllocatorType::Stack,
        total_capacity: 100,
        used: 10,
        available: 90,
        allocation_count: 1,
        deallocation_count: 0,
    };
    let second = AllocatorInfo { used: 20, available: 80, ..first };
    manager.register_allocator("scratch", first);
    manager.register_allocator("scratch", second);

    let report = manager.report();
    assert_eq!(report.allocator_count, 1);
    assert_eq!(report.total_used, 20);
    assert_eq!(manager.allocator_stats("scratch").unwrap().used, 20);
    assert!(manager.allocator_stats("absent").is_none());
}

#[test]
fn report_renders_as_json() {
    let mut manager = MemoryManager::new();
    manager.register_allocator(
        "main",
        AllocatorInfo {
            allocator_type: AllocatorType::Pool,
            total_capacity: 200,
            used: 50,
            available: 150,
            allocation_count: 4,
            deallocation_count: 1,
        },
    );
    let json = manager.report().to_json();
    assert_eq!(
        json,
        "{\"total_allocated\": 200, \"total_used\": 50, \"total_free\": 150, \
         \"utilization\": 25.00, \"allocator_count\": 1}"
    );
}

#[test]
fn stats_reset_zeroes_everything() {
    let mut stats = MemoryStats::new();
    stats.record_allocation(64);
    stats.reset();
    assert_eq!(stats.total_allocations(), 0);
    assert_eq!(stats.total_bytes_allocated(), 0);
    assert_eq!(stats.current_memory_usage(), 0);
    assert_eq!(stats.peak_memory_usage(), 0);
    assert_eq!(stats.active_allocations(), 0);
}

#[test]
fn report_renders_as_summary_text() {
    let mut manager = MemoryManager::new();
    manager.register_allocator(
        "main",
        AllocatorInfo {
            allocator_type: AllocatorType::Pool,
            total_capacity: 200,
            used: 50,
            available: 150,
            allocation_count: 4,
            deallocation_count: 1,
        },
    );
    let summary = manager.report().summary();
    assert_eq!(
        summary,
        "=== Memory Report ===\n\
         Total Allocated: 200 bytes (0.00 MB)\n\
         Total Used: 50 bytes (0.00 MB)\n\
         Total Free: 150 bytes (0.00 MB)\n\
         Utilization: 25.00%\n\
         Allocators: 1\n  main: Pool\n    Capacity: 200 bytes\n    Used: 50 bytes\n    \
         Available: 150 bytes\n    Active Allocations: 3\n"
    );
}

#[test]
fn default_counters_and_registry_are_empty() {
    let stats = MemoryStats::default();
    assert_eq!(stats.total_allocations(), 0);
    assert_eq!(stats.total_deallocations(), 0);
    assert_eq!(stats.total_bytes_allocated(), 0);
    assert_eq!(stats.total_bytes_deallocated(), 0);
    assert_eq!(stats.current_memory_usage(), 0);
    assert_eq!(stats.peak_memory_usage(), 0);

    let manager = MemoryManager::default();
    assert!(manager.all_allocator_stats().is_empty());
    assert!(manager.allocator_stats("anything").is_none());
    assert_eq!(manager.global_stats().total_allocations(), 0);
}
