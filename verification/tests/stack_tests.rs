use avila::stack::{DoubleEndedStack, ScopedStack, StackAllocator, HEADER_SIZE};
use avila::error::MemoryError;

#[test]
fn test_stack_creation() {
    let stack = StackAllocator::new(1024);
    assert_eq!(stack.capacity(), 1024);
    assert_eq!(stack.used(), 0);
}

#[test]
fn test_stack_alloc() {
    let mut stack = StackAllocator::new(1024);

    let ptr1 = stack.allocate(16, 4);
    assert!(ptr1.is_some());

    let ptr2 = stack.allocate(32, 8);
    assert!(ptr2.is_some());

    assert!(stack.used() > 0);
}

#[test]
fn stack_test_stack_mark() {
    let mut stack = StackAllocator::new(1024);

    stack.allocate(16, 4);
    let mark = stack.mark();

    stack.allocate(32, 4);
    assert!(stack.used() > 16);

    stack.free_to_mark(mark).unwrap();
    assert!(stack.used() <= 32);
}

#[test]
fn test_stack_clear() {
    let mut stack = StackAllocator::new(1024);

    stack.allocate(100, 4);
    assert!(stack.used() > 0);

    stack.clear();
    assert_eq!(stack.used(), 0);
}

#[test]
fn stack_test_scoped_stack() {
    let mut stack = StackAllocator::new(1024);

    stack.allocate(50, 4);
    let used_before = stack.used();

    let scoped = ScopedStack::new(&stack);
    scoped.allocate(&mut stack, 100, 4);
    assert!(stack.used() > used_before);
    scoped.release(&mut stack).unwrap();

    assert_eq!(stack.used(), used_before);
}

#[test]
fn stack_test_double_ended_stack() {
    let mut stack = DoubleEndedStack::new(1024);

    let bottom = stack.alloc_bottom(64, 8);
    assert!(bottom.is_some());

    let top = stack.alloc_top(64, 8);
    assert!(top.is_some());

    assert!(stack.used() >= 128);
}

#[test]
fn stack_lifo_free_restores_used() {
    let mut stack = StackAllocator::new(2048);
    let before = stack.used();
    let a = stack.allocate(40, 8).unwrap();
    let after_a = stack.used();
    let b = stack.allocate(24, 4).unwrap();

    stack.free(b).unwrap();
    assert_eq!(stack.used(), after_a);
    stack.free(a).unwrap();
    assert_eq!(stack.used(), before);
}

#[test]
fn stack_out_of_order_free_is_refused() {
    let mut stack = StackAllocator::new(2048);
    let a = stack.allocate(40, 8).unwrap();
    let _b = stack.allocate(24, 4).unwrap();
    let used = stack.used();

    assert_eq!(stack.free(a), Err(MemoryError::OutOfOrderFree));
    assert_eq!(stack.free(9999), Err(MemoryError::OutOfOrderFree));
    assert_eq!(stack.used(), used);
}

#[test]
fn stack_mark_scenario_restores_first_allocation() {
    let mut stack = StackAllocator::new(1024);
    stack.allocate(100, 4).unwrap();
    let used_after_first = stack.used();
    assert_eq!(used_after_first, 100 + HEADER_SIZE);

    let m = stack.mark();
    stack.allocate(200, 4).unwrap();
    stack.allocate(300, 4).unwrap();

    stack.free_to_mark(m).unwrap();
    assert_eq!(stack.used(), used_after_first);
}

#[test]
fn stack_free_to_mark_matches_individual_frees() {
    let mut one = StackAllocator::new(2048);
    let mut two = StackAllocator::new(2048);
    one.allocate(10, 2).unwrap();
    two.allocate(10, 2).unwrap();

    let m = one.mark();
    one.allocate(20, 4).unwrap();
    let x = two.allocate(20, 4).unwrap();
    one.allocate(30, 8).unwrap();
    let y = two.allocate(30, 8).unwrap();

    one.free_to_mark(m).unwrap();
    two.free(y).unwrap();
    two.free(x).unwrap();
    assert_eq!(one.used(), two.used());
}

#[test]
fn double_ended_cursors_fail_exactly_on_crossing() {
    let mut stack = DoubleEndedStack::new(64);
    assert!(stack.alloc_bottom(32, 1).is_some());
    assert!(stack.alloc_top(32, 1).is_some());
    assert!(stack.alloc_bottom(1, 1).is_none());
    assert!(stack.alloc_top(1, 1).is_none());
    assert_eq!(stack.used(), 64);
    assert_eq!(stack.available(), 0);

    stack.clear_top();
    assert!(stack.alloc_bottom(32, 1).is_some());
    stack.clear();
    assert_eq!(stack.used(), 0);
}
