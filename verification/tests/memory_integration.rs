use avila::arena::{Arena, ScopedArena};
use avila::manager::{AllocatorInfo, AllocatorType, MemoryManager, MemoryProfiler, MemoryStats};
use avila::pool::{Pool, PoolBox, TypedPool};
use avila::stack::{DoubleEndedStack, ScopedStack, StackAllocator};

#[test]
fn test_arena_basic_usage() {
    let mut arena = Arena::new(1024);

    let _ptr1 = arena.allocate(64, 8).expect("Failed to allocate");
    assert!(arena.used() >= 64);

    let _ptr2 = arena.allocate(128, 16).expect("Failed to allocate");
    assert!(arena.used() >= 64 + 128);

    arena.reset();
    assert_eq!(arena.used(), 0);
}

#[test]
fn test_arena_checkpoint_restore() {
    let mut arena = Arena::new(2048);

    arena.allocate(100, 4);
    let checkpoint = arena.checkpoint();
    let used_at_checkpoint = arena.used();

    arena.allocate(200, 4);
    arena.allocate(300, 4);
    assert!(arena.used() > used_at_checkpoint);

    arena.restore(checkpoint).unwrap();
    assert_eq!(arena.used(), used_at_checkpoint);
}

#[test]
fn memory_tests_test_scoped_arena() {
    let mut arena = Arena::new(2048);

    arena.allocate(100, 4);
    let used_before_scope = arena.used();

    let scoped = ScopedArena::new(&arena);
    arena.allocate(200, 4);
    assert!(arena.used() > used_before_scope);
    scoped.release(&mut arena).unwrap();

    assert_eq!(arena.used(), used_before_scope);
}

#[test]
fn memory_tests_test_pool_alloc_free() {
    let mut pool = Pool::for_type::<u64>(32);

    let mut ptrs = Vec::new();
    for _ in 0..10 {
        if let Some(ptr) = pool.alloc_type::<u64>() {
            ptrs.push(ptr);
        }
    }

    let stats = pool.stats();
    assert_eq!(stats.chunks_in_use, 10);

    for ptr in ptrs {
        pool.free_type::<u64>(ptr).unwrap();
    }

    let stats = pool.stats();
    assert_eq!(stats.chunks_in_use, 0);
}

#[derive(Debug, PartialEq)]
struct TestStruct {
    value: i32,
    data: f32,
}

#[test]
fn memory_tests_test_typed_pool() {
    let mut pool = TypedPool::<TestStruct>::new(16);

    let ptr = pool.allocate().expect("Failed to allocate");

    let obj = TestStruct { value: 42, data: 3.14 };
    assert_eq!(obj.value, 42);
    assert_eq!(obj.data, 3.14);

    pool.free(ptr).unwrap();
}

#[test]
fn memory_tests_test_pool_box() {
    let mut pool = Pool::for_type::<i32>(16);

    {
        let mut boxed = PoolBox::new(&mut pool, 100).expect("Failed to allocate");
        assert_eq!(*boxed.value(), 100);

        *boxed.value_mut() = 200;
        assert_eq!(*boxed.value(), 200);
        boxed.destroy(&mut pool);
    }

    let stats = pool.stats();
    assert_eq!(stats.chunks_in_use, 0);
}

#[test]
fn test_stack_allocator() {
    let mut stack = StackAllocator::new(2048);

    let ptr1 = stack.allocate(64, 8).expect("Failed to allocate");
    let ptr2 = stack.allocate(128, 16).expect("Failed to allocate");

    assert!(stack.used() >= 64 + 128);

    stack.free(ptr2).unwrap();
    stack.free(ptr1).unwrap();
}

#[test]
fn memory_tests_test_stack_mark() {
    let mut stack = StackAllocator::new(2048);

    stack.allocate(100, 4);
    let mark = stack.mark();
    let used_at_mark = stack.used();

    stack.allocate(200, 4);
    stack.allocate(300, 4);

    stack.free_to_mark(mark).unwrap();
    assert!(stack.used() <= used_at_mark + 32);
}

#[test]
fn memory_tests_test_scoped_stack() {
    let mut stack = StackAllocator::new(2048);

    stack.allocate(100, 4);
    let used_before = stack.used();

    let scoped = ScopedStack::new(&stack);
    stack.allocate(200, 4);
    scoped.release(&mut stack).unwrap();

    assert_eq!(stack.used(), used_before);
}

#[test]
fn memory_tests_test_double_ended_stack() {
    let mut stack = DoubleEndedStack::new(2048);

    let _bottom1 = stack.alloc_bottom(64, 8).expect("Failed to allocate bottom");
    let _top1 = stack.alloc_top(64, 8).expect("Failed to allocate top");

    assert!(stack.used() >= 128);
    assert!(stack.available() <= 2048 - 128);

    stack.clear();
    assert_eq!(stack.used(), 0);
}

#[test]
fn memory_tests_test_memory_stats() {
    let mut stats = MemoryStats::new();

    stats.record_allocation(1024);
    stats.record_allocation(2048);

    assert_eq!(stats.total_allocations(), 2);
    assert_eq!(stats.current_memory_usage(), 3072);
    assert_eq!(stats.peak_memory_usage(), 3072);

    stats.record_deallocation(1024);
    assert_eq!(stats.current_memory_usage(), 2048);
    assert_eq!(stats.peak_memory_usage(), 3072);
}

#[test]
fn memory_tests_test_memory_manager() {
    let mut manager = MemoryManager::new();

    manager.register_allocator(
        "arena_main",
        AllocatorInfo {
            allocator_type: AllocatorType::Arena,
            total_capacity: 1024 * 1024,
            used: 512 * 1024,
            available: 512 * 1024,
            allocation_count: 100,
            deallocation_count: 0,
        },
    );

    manager.register_allocator(
        "pool_entities",
        AllocatorInfo {
            allocator_type: AllocatorType::Pool,
            total_capacity: 256 * 1024,
            used: 128 * 1024,
            available: 128 * 1024,
            allocation_count: 500,
            deallocation_count: 250,
        },
    );

    let report = manager.report();
    assert_eq!(report.allocator_count, 2);
    assert_eq!(report.total_allocated, 1024 * 1024 + 256 * 1024);
    let utilization = (report.total_used as f32 / report.total_allocated as f32) * 100.0;
    assert!(utilization > 0.0);
}

#[test]
fn test_allocator_info() {
    let info = AllocatorInfo {
        allocator_type: AllocatorType::Pool,
        total_capacity: 1000,
        used: 600,
        available: 400,
        allocation_count: 100,
        deallocation_count: 40,
    };

    let utilization = (info.used as f32 / info.total_capacity as f32) * 100.0;
    assert!((utilization - 60.0).abs() < 0.01);
    assert_eq!(info.active_allocations(), 60);
}

#[test]
fn test_memory_profiler() {
    let mut profiler = MemoryProfiler::new(10_000_000);
    let mut stats = MemoryStats::new();

    stats.record_allocation(1000);
    profiler.sample(&stats, 0);

    stats.record_allocation(2000);
    profiler.sample(&stats, 15_000_000);

    assert!(profiler.samples().len() >= 1);
    assert!(profiler.average_usage().unwrap() > 0);
}

#[test]
fn test_integration_scenario() {
    let mut frame_arena = Arena::new(1024 * 1024);
    let mut entity_pool = Pool::for_type::<Entity>(256);
    let mut process_stack = StackAllocator::new(512 * 1024);
    let mut manager = MemoryManager::new();

    {
        let _temp_data = frame_arena.allocate(1024, 16);

        let entity = entity_pool.alloc_type::<Entity>();
        assert!(entity.is_some());

        let _process_data = process_stack.allocate(512, 8);
    }

    manager.register_allocator(
        "frame_arena",
        AllocatorInfo {
            allocator_type: AllocatorType::Arena,
            total_capacity: frame_arena.capacity(),
            used: frame_arena.used(),
            available: frame_arena.available(),
            allocation_count: 1,
            deallocation_count: 0,
        },
    );

    let report = manager.report();
    assert!(report.total_allocated > 0);
}

#[derive(Debug)]
#[allow(dead_code)]
struct Entity {
    id: u64,
    position: [f32; 3],
    velocity: [f32; 3],
}

#[test]
fn memory_tests_test_format_bytes() {
    assert!(avila::format::bytes(512).contains("bytes"));
    assert!(avila::format::bytes(2048).contains("KB"));
    assert!(avila::format::bytes(2 * 1024 * 1024).contains("MB"));
    assert!(avila::format::bytes(2 * 1024 * 1024 * 1024).contains("GB"));
}

#[test]
fn profiler_throttles_and_summarizes() {
    let mut profiler = MemoryProfiler::new(1_000);
    let mut stats = MemoryStats::new();

    stats.record_allocation(100);
    profiler.sample(&stats, 0);
    profiler.sample(&stats, 500);
    assert_eq!(profiler.samples().len(), 1);

    stats.record_allocation(200);
    profiler.sample(&stats, 1_000);
    assert_eq!(profiler.samples().len(), 2);

    assert_eq!(profiler.average_usage(), Some(200));
    assert_eq!(profiler.peak_usage(), Some(300));

    profiler.clear();
    assert_eq!(profiler.samples().len(), 0);
    assert_eq!(profiler.average_usage(), None);
    assert_eq!(profiler.peak_usage(), None);
}
