use wait_free_arena::{AllocErrorKind, ArenaAllocatorImpl, HeapAllocator, Layout, StackAllocator};

#[test]
fn alloc_basic() {
    let mut arena: StackAllocator<10> = StackAllocator::new();
    let one = arena.bump_alloc(Layout::new::<u16>()).unwrap();
    arena.write_byte(one.addr, 42);
    let two = arena.bump_alloc(Layout::new::<u64>()).unwrap();
    arena.write_byte(two.addr, 42);
    assert!(arena.bump_alloc(Layout::new::<u8>()).is_err())
}

#[test]
fn exact_fill_then_oom() {
    // A 2-byte value occupies bytes 0..2, an 8-byte value bytes 2..10,
    // exactly filling a 10-byte arena; one more byte is refused.
    let mut arena: StackAllocator<10> = StackAllocator::new();
    let one = arena.bump_alloc(Layout::new::<u16>()).unwrap();
    assert_eq!(one.addr, 0);
    assert_eq!(one.len, 2);
    let two = arena.bump_alloc(Layout::new::<u64>()).unwrap();
    assert_eq!(two.addr, 2);
    assert_eq!(two.len, 8);
    let three = arena.bump_alloc(Layout::new::<u8>());
    assert_eq!(three.unwrap_err().kind(), AllocErrorKind::OOM);
}

#[test]
fn successful_ranges_never_overlap() {
    let mut arena: StackAllocator<16> = StackAllocator::new();
    let a = arena.bump_alloc(Layout::from_size_align(5, 1)).unwrap();
    let b = arena.bump_alloc(Layout::from_size_align(7, 1)).unwrap();
    let c = arena.bump_alloc(Layout::from_size_align(4, 1)).unwrap();
    assert!(a.addr + a.len <= b.addr);
    assert!(b.addr + b.len <= c.addr);
    assert!(a.len + b.len + c.len <= 16);
}

#[test]
fn failed_alloc_is_oom_and_keeps_capacity() {
    let mut arena: StackAllocator<4> = StackAllocator::new();
    let big = arena.bump_alloc(Layout::from_size_align(5, 1));
    assert_eq!(big.unwrap_err().kind(), AllocErrorKind::OOM);
    // The failed call consumed nothing: the full 4 bytes are still free.
    let fit = arena.bump_alloc(Layout::from_size_align(4, 1)).unwrap();
    assert_eq!(fit.addr, 0);
    assert_eq!(fit.len, 4);
}

#[test]
fn reclaim_tail_restores_capacity() {
    let mut arena: StackAllocator<8> = StackAllocator::new();
    let first = arena.bump_alloc(Layout::from_size_align(3, 1)).unwrap();
    let tail = arena.bump_alloc(Layout::from_size_align(5, 1)).unwrap();
    assert!(arena.bump_alloc(Layout::from_size_align(5, 1)).is_err());
    arena.dealloc(tail.addr, Layout::from_size_align(5, 1));
    // Exactly those 5 bytes are back: the same request succeeds again,
    // at the same address.
    let again = arena.bump_alloc(Layout::from_size_align(5, 1)).unwrap();
    assert_eq!(again.addr, tail.addr);
    assert_eq!(first.addr, 0);
}

#[test]
fn reclaim_non_tail_is_noop() {
    let mut arena: StackAllocator<8> = StackAllocator::new();
    let first = arena.bump_alloc(Layout::from_size_align(3, 1)).unwrap();
    let _tail = arena.bump_alloc(Layout::from_size_align(5, 1)).unwrap();
    // `first` is not the most-recently-issued range: nothing happens.
    arena.dealloc(first.addr, Layout::from_size_align(3, 1));
    assert!(arena.bump_alloc(Layout::from_size_align(3, 1)).is_err());
    assert!(arena.bump_alloc(Layout::from_size_align(1, 1)).is_err());
}

#[test]
fn reclaim_more_than_issued_is_noop() {
    let mut arena: StackAllocator<8> = StackAllocator::new();
    let span = arena.bump_alloc(Layout::from_size_align(2, 1)).unwrap();
    // Larger than everything issued so far: silently ignored.
    arena.dealloc(span.addr, Layout::from_size_align(3, 1));
    let next = arena.bump_alloc(Layout::from_size_align(1, 1)).unwrap();
    assert_eq!(next.addr, 2);
}

#[test]
fn fixed_size_requests_fill_exactly_floor() {
    // Capacity 10, requests of 3 bytes: exactly floor(10 / 3) == 3 succeed.
    let mut arena: StackAllocator<10> = StackAllocator::new();
    let mut successes = 0;
    let mut failures = 0;
    for _ in 0..7 {
        match arena.bump_alloc(Layout::from_size_align(3, 1)) {
            Ok(_) => successes += 1,
            Err(e) => {
                assert_eq!(e.kind(), AllocErrorKind::OOM);
                failures += 1;
            }
        }
    }
    assert_eq!(successes, 3);
    assert_eq!(failures, 4);
}

#[test]
fn zeroed_alloc_clears_reclaimed_bytes() {
    let mut arena: StackAllocator<4> = StackAllocator::new();
    let span = arena.bump_alloc(Layout::from_size_align(2, 1)).unwrap();
    arena.write_byte(span.addr, 42);
    arena.write_byte(span.addr + 1, 7);
    assert_eq!(arena.read_byte(span.addr), 42);
    arena.dealloc(span.addr, Layout::from_size_align(2, 1));
    let zeroed = arena.bump_alloc_zeroed(Layout::from_size_align(2, 1)).unwrap();
    assert_eq!(zeroed.addr, span.addr);
    assert_eq!(arena.read_byte(zeroed.addr), 0);
    assert_eq!(arena.read_byte(zeroed.addr + 1), 0);
}

#[test]
fn zeroed_alloc_fails_like_bump_alloc() {
    let mut arena: StackAllocator<2> = StackAllocator::new();
    let r = arena.bump_alloc_zeroed(Layout::from_size_align(3, 1));
    assert_eq!(r.unwrap_err().kind(), AllocErrorKind::OOM);
}

#[test]
fn heap_arena_same_surface() {
    let mut arena = HeapAllocator::new(10);
    let one = arena.bump_alloc(Layout::new::<u16>()).unwrap();
    assert_eq!(one.addr, 0);
    let two = arena.bump_alloc(Layout::new::<u64>()).unwrap();
    assert_eq!(two.addr, 2);
    assert!(arena.bump_alloc(Layout::new::<u8>()).is_err());
    arena.dealloc(two.addr, Layout::new::<u64>());
    let again = arena.bump_alloc(Layout::new::<u64>()).unwrap();
    assert_eq!(again.addr, 2);
}

#[test]
fn default_stack_arena_is_fresh() {
    let mut arena: StackAllocator<3> = StackAllocator::default();
    let span = arena.bump_alloc(Layout::from_size_align(3, 1)).unwrap();
    assert_eq!(span.addr, 0);
    assert_eq!(span.len, 3);
}

#[test]
fn layout_of_types() {
    let l = Layout::new::<u32>();
    assert_eq!(l.size, 4);
    assert_eq!(l.align, 4);
    let m = Layout::from_size_align(9, 2);
    assert_eq!(m.size, 9);
    assert_eq!(m.align, 2);
}
