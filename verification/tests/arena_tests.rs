use avila::arena::{Arena, ScopedArena};
use avila::error::MemoryError;

#[test]
fn test_arena_creation() {
    let arena = Arena::new(1024);
    assert_eq!(arena.capacity(), 1024);
    assert_eq!(arena.used(), 0);
    assert_eq!(arena.available(), 1024);
}

#[test]
fn test_arena_alloc() {
    let mut arena = Arena::new(1024);

    let ptr1 = arena.allocate(16, 4);
    assert!(ptr1.is_some());
    assert_eq!(arena.used(), 16);

    let ptr2 = arena.allocate(32, 8);
    assert!(ptr2.is_some());
    assert!(arena.used() >= 48);
}

#[test]
fn test_arena_alloc_type() {
    let mut arena = Arena::new(1024);

    let ptr = arena.alloc_type::<u64>();
    assert!(ptr.is_some());
    assert!(arena.used() >= std::mem::size_of::<u64>());
}

#[test]
fn test_arena_reset() {
    let mut arena = Arena::new(1024);

    arena.allocate(100, 4);
    assert_eq!(arena.used(), 100);

    arena.reset();
    assert_eq!(arena.used(), 0);
}

#[test]
fn test_arena_checkpoint() {
    let mut arena = Arena::new(1024);

    arena.allocate(100, 4);
    let checkpoint = arena.checkpoint();

    arena.allocate(50, 4);
    assert!(arena.used() >= 150);

    arena.restore(checkpoint).unwrap();
    assert_eq!(arena.used(), 100);
}

#[test]
fn arena_test_scoped_arena() {
    let mut arena = Arena::new(1024);

    arena.allocate(100, 4);
    let used_before = arena.used();

    let scoped = ScopedArena::new(&arena);
    scoped.allocate(&mut arena, 50, 4);
    assert!(arena.used() > used_before);
    scoped.release(&mut arena).unwrap();

    assert_eq!(arena.used(), used_before);
}

#[test]
fn test_arena_full() {
    let mut arena = Arena::new(64);

    let ptr1 = arena.allocate(32, 1);
    assert!(ptr1.is_some());

    let ptr2 = arena.allocate(32, 1);
    assert!(ptr2.is_some());

    let ptr3 = arena.allocate(32, 1);
    assert!(ptr3.is_none());
}

#[test]
fn arena_addresses_are_monotone() {
    let mut arena = Arena::new(4096);
    let a = arena.allocate(10, 4).unwrap();
    let b = arena.allocate(20, 8).unwrap();
    let c = arena.allocate(30, 16).unwrap();
    assert!(a + 10 <= b);
    assert!(b + 20 <= c);
    assert!(c + 30 <= 4096);
}

#[test]
fn arena_stale_checkpoint_is_refused() {
    let mut arena = Arena::new(256);
    arena.allocate(64, 1);
    let late = arena.checkpoint();
    arena.reset();
    assert_eq!(arena.restore(late), Err(MemoryError::InvalidCheckpoint));
    assert_eq!(arena.used(), 0);
}

#[test]
fn arena_alignment_pads_addresses() {
    let mut arena = Arena::new(256);
    arena.allocate(3, 1);
    let aligned = arena.allocate(8, 8).unwrap();
    assert_eq!(aligned, 8);
    assert_eq!(arena.used(), 16);
}

#[test]
fn arena_at_the_address_space_limit() {
    let mut arena = Arena::new(usize::MAX);
    let a = arena.allocate(usize::MAX, 1);
    assert_eq!(a, Some(0));
    assert_eq!(arena.used(), usize::MAX);
    assert_eq!(arena.available(), 0);
    assert_eq!(arena.allocate(1, 1), None);
}
