use avila::pool::{Pool, PoolBox, TypedPool};
use avila::error::MemoryError;

#[test]
fn test_pool_creation() {
    let pool = Pool::new(32, 8, 16);
    let stats = pool.stats();
    assert_eq!(stats.chunk_size, 32);
    assert_eq!(stats.chunks_per_block, 16);
}

#[test]
fn pool_test_pool_alloc_free() {
    let mut pool = Pool::for_type::<u64>(16);

    let ptr1 = pool.alloc_type::<u64>();
    assert!(ptr1.is_some());

    let ptr2 = pool.alloc_type::<u64>();
    assert!(ptr2.is_some());

    pool.free_type::<u64>(ptr1.unwrap()).unwrap();
    pool.free_type::<u64>(ptr2.unwrap()).unwrap();

    let stats = pool.stats();
    assert_eq!(stats.chunks_in_use, 0);
}

#[test]
fn pool_test_typed_pool() {
    let mut pool = TypedPool::<i32>::new(16);

    let ptr = pool.allocate();
    assert!(ptr.is_some());

    pool.free(ptr.unwrap()).unwrap();
}

#[test]
fn pool_test_pool_box() {
    let mut pool = Pool::for_type::<i32>(16);

    {
        let boxed = PoolBox::new(&mut pool, 42);
        assert!(boxed.is_some());
        let boxed = boxed.unwrap();
        assert_eq!(*boxed.value(), 42);
        boxed.destroy(&mut pool);
    }

    let stats = pool.stats();
    assert_eq!(stats.chunks_in_use, 0);
}

#[test]
fn test_pool_stats() {
    let mut pool = Pool::for_type::<u64>(10);

    let mut ptrs = Vec::new();
    for _ in 0..5 {
        ptrs.push(pool.alloc_type::<u64>().unwrap());
    }

    let stats = pool.stats();
    assert_eq!(stats.chunks_in_use, 5);
    let utilization = (stats.chunks_in_use as f32 / stats.total_chunks as f32) * 100.0;
    assert!(utilization > 0.0);

    for ptr in ptrs {
        pool.free_type::<u64>(ptr).unwrap();
    }
}

#[test]
fn pool_growth_adds_one_block() {
    let mut pool = Pool::new(8, 8, 4);
    for _ in 0..4 {
        assert!(pool.allocate().is_some());
    }
    assert_eq!(pool.stats().total_blocks, 1);
    let fifth = pool.allocate();
    assert!(fifth.is_some());
    assert_eq!(pool.stats().total_blocks, 2);
}

#[test]
fn pool_addresses_never_repeat_while_live() {
    let mut pool = Pool::new(16, 8, 4);
    let mut seen = Vec::new();
    for _ in 0..10 {
        let addr = pool.allocate().unwrap();
        assert!(!seen.contains(&addr));
        seen.push(addr);
    }
    for addr in &seen {
        pool.free(*addr).unwrap();
    }
    let stats = pool.stats();
    assert_eq!(stats.chunks_in_use, 0);
    assert_eq!(stats.chunks_free, stats.total_chunks);
}

#[test]
fn pool_foreign_and_double_free_are_refused() {
    let mut pool = Pool::new(8, 8, 2);
    let addr = pool.allocate().unwrap();
    assert_eq!(pool.free(1000), Err(MemoryError::ForeignPointer));
    pool.free(addr).unwrap();
    assert_eq!(pool.free(addr), Err(MemoryError::ForeignPointer));
    assert_eq!(pool.stats().chunks_in_use, 0);
}

#[test]
fn pool_reuses_freed_chunk() {
    let mut pool = Pool::new(8, 8, 4);
    let a = pool.allocate().unwrap();
    pool.free(a).unwrap();
    let b = pool.allocate().unwrap();
    assert_eq!(a, b);
    assert_eq!(pool.stats().total_allocated, 2);
    assert_eq!(pool.stats().total_freed, 1);
}
