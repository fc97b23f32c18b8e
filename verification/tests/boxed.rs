use wait_free_arena::{ArenaAllocatorImpl, Layout, StackAllocator};
use wait_free_arena::boxed::{Box, Pinned};
use wait_free_arena::{AllocError, AllocErrorKind};

#[test]
fn place_and_read_back() {
    let mut arena: StackAllocator<16> = StackAllocator::new();
    let mut b = Box::new_in(7u32, &mut arena).unwrap();
    assert_eq!(*b.get(), 7);
    *b.get_mut() = 9;
    assert_eq!(*b.get(), 9);
    assert_eq!(Box::into_inner(b), 9);
}

#[test]
fn placement_fails_with_oom_when_full() {
    let mut arena: StackAllocator<2> = StackAllocator::new();
    let e = Box::new_in(0u64, &mut arena).unwrap_err();
    assert_eq!(e.kind(), AllocErrorKind::OOM);
    // The small value still fits afterwards.
    let b = Box::new_in(5u16, &mut arena).unwrap();
    assert_eq!(b.addr(), 0);
}

#[test]
fn placements_advance_addresses() {
    let mut arena: StackAllocator<16> = StackAllocator::new();
    let a = Box::new_in(1u32, &mut arena).unwrap();
    let b = Box::new_in(2u32, &mut arena).unwrap();
    assert_eq!(a.addr(), 0);
    assert_eq!(b.addr(), 4);
}

#[test]
fn raw_round_trip_preserves_handle() {
    let mut arena: StackAllocator<16> = StackAllocator::new();
    let b = Box::new_in(11u16, &mut arena).unwrap();
    let addr_before = b.addr();
    let raw = Box::into_raw(b);
    assert_eq!(raw.addr(), addr_before);
    let back = Box::from_raw(raw);
    assert_eq!(back.addr(), addr_before);
    assert_eq!(*back.get(), 11);
}

#[test]
fn leak_keeps_address_and_value() {
    let mut arena: StackAllocator<16> = StackAllocator::new();
    let b = Box::new_in(3u8, &mut arena).unwrap();
    let addr = b.addr();
    let leaked = Box::leak(b);
    assert_eq!(leaked.addr(), addr);
    assert_eq!(*leaked.get(), 3);
}

#[test]
fn pin_in_is_address_stable() {
    let mut arena: StackAllocator<16> = StackAllocator::new();
    let p = Box::pin_in(20u32, &mut arena).unwrap();
    assert_eq!(p.addr(), 0);
    assert_eq!(*p.get(), 20);
    let q: Pinned<u32> = Pinned::from_box(Box::new_in(21u32, &mut arena).unwrap());
    assert_eq!(q.addr(), 4);
    assert_eq!(*q.get(), 21);
}

#[test]
fn shape_round_trip_preserves_contents() {
    let mut arena: StackAllocator<64> = StackAllocator::new();
    let seq_handle = Box::new_in(vec![1u8, 2, 3], &mut arena).unwrap();
    let addr = seq_handle.addr();
    let fixed = seq_handle.try_into_fixed::<3>().unwrap();
    let back = fixed.into_seq();
    assert_eq!(back.addr(), addr);
    assert_eq!(back.get().as_slice(), &[1, 2, 3]);
}

#[test]
fn shape_mismatch_returns_handle_unchanged() {
    let mut arena: StackAllocator<64> = StackAllocator::new();
    let seq_handle = Box::new_in(vec![1u8, 2, 3], &mut arena).unwrap();
    let addr = seq_handle.addr();
    let err = seq_handle.try_into_fixed::<4>().unwrap_err();
    assert_eq!(err.addr(), addr);
    assert_eq!(err.get().as_slice(), &[1, 2, 3]);
    // And the matching length still succeeds on the returned handle.
    assert!(err.try_into_fixed::<3>().is_ok());
}

#[test]
fn error_values_carry_kind_and_message() {
    let plain = AllocError::new(AllocErrorKind::InvalidPtr);
    assert_eq!(plain.kind(), AllocErrorKind::InvalidPtr);
    assert_eq!(plain.message(), None);
    let told = AllocError::with_message(AllocErrorKind::Other, "spilled");
    assert_eq!(told.kind(), AllocErrorKind::Other);
    assert_eq!(told.message(), Some("spilled"));
}

#[test]
fn handles_compare_by_value_not_address() {
    let mut arena: StackAllocator<16> = StackAllocator::new();
    let a = Box::new_in(5u32, &mut arena).unwrap();
    let b = Box::new_in(5u32, &mut arena).unwrap();
    let c = Box::new_in(6u32, &mut arena).unwrap();
    assert_ne!(a.addr(), b.addr());
    assert!(a == b);
    assert!(a != c);
    assert!(a < c);
    assert!(c > b);
}
