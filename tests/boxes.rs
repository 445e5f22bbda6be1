use rustacuda::backend::{Backend, MemoryKind};
use rustacuda::error::CudaError;
use rustacuda::locked_box::LockedBox;
use rustacuda::unified_box::UnifiedBox;

#[derive(Clone, Copy, Debug, Default, PartialEq)]
struct ZeroSizedType;

fn backend() -> Backend {
    Backend::new(1 << 20)
}

#[test]
fn locked_box_test_allocate_and_free() {
    let mut mem = backend();
    let mut x = LockedBox::new(&mut mem, 5u64).unwrap();
    *x.as_mut() = 10;
    assert_eq!(10, *x.get());
    assert!(LockedBox::drop(&mut mem, x).is_ok());
    assert_eq!(0, mem.in_use());
}

#[test]
fn locked_box_test_allocates_for_non_zst() {
    let mut mem = backend();
    let x = LockedBox::new(&mut mem, 5u64).unwrap();
    let ptr = LockedBox::into_raw(x);
    assert!(!ptr.is_null());
    let _ = LockedBox::from_raw(ptr);
}

#[test]
fn locked_box_test_doesnt_allocate_for_zero_sized_type() {
    let mut mem = backend();
    let x = LockedBox::new(&mut mem, ZeroSizedType).unwrap();
    let ptr = LockedBox::into_raw(x);
    assert!(ptr.is_null());
    let _ = LockedBox::from_raw(ptr);
}

#[test]
fn locked_box_test_into_from_unified() {
    let mut mem = backend();
    let x = LockedBox::new(&mut mem, 5u64).unwrap();
    let ptr = LockedBox::into_raw(x);
    let x = LockedBox::from_raw(ptr);
    assert_eq!(5, *x.get());
}

#[test]
fn locked_box_test_equality() {
    let mut mem = backend();
    let x = LockedBox::new(&mut mem, 5u64).unwrap();
    let y = LockedBox::new(&mut mem, 5u64).unwrap();
    let z = LockedBox::new(&mut mem, 0u64).unwrap();
    assert_eq!(x, y);
    assert!(x != z);
}

#[test]
fn locked_box_test_ordering() {
    let mut mem = backend();
    let x = LockedBox::new(&mut mem, 1u64).unwrap();
    let y = LockedBox::new(&mut mem, 2u64).unwrap();
    assert!(x < y);
}

#[test]
fn unified_box_test_allocate_and_free() {
    let mut mem = backend();
    let mut x = UnifiedBox::new(&mut mem, 5u64).unwrap();
    *x.as_mut() = 10;
    assert_eq!(10, *x.get());
    assert!(UnifiedBox::drop(&mut mem, x).is_ok());
    assert_eq!(0, mem.in_use());
}

#[test]
fn unified_box_test_allocates_for_non_zst() {
    let mut mem = backend();
    let x = UnifiedBox::new(&mut mem, 5u64).unwrap();
    let ptr = UnifiedBox::into_unified(x);
    assert!(!ptr.is_null());
    let _ = UnifiedBox::from_unified(ptr);
}

#[test]
fn unified_box_test_doesnt_allocate_for_zero_sized_type() {
    let mut mem = backend();
    let x = UnifiedBox::new(&mut mem, ZeroSizedType).unwrap();
    let ptr = UnifiedBox::into_unified(x);
    assert!(ptr.is_null());
    let _ = UnifiedBox::from_unified(ptr);
}

#[test]
fn unified_box_test_into_from_unified() {
    let mut mem = backend();
    let x = UnifiedBox::new(&mut mem, 5u64).unwrap();
    let ptr = UnifiedBox::into_unified(x);
    let x = UnifiedBox::from_unified(ptr);
    assert_eq!(5, *x.get());
}

#[test]
fn unified_box_test_equality() {
    let mut mem = backend();
    let x = UnifiedBox::new(&mut mem, 5u64).unwrap();
    let y = UnifiedBox::new(&mut mem, 5u64).unwrap();
    let z = UnifiedBox::new(&mut mem, 0u64).unwrap();
    assert_eq!(x, y);
    assert!(x != z);
}

#[test]
fn unified_box_test_ordering() {
    let mut mem = backend();
    let x = UnifiedBox::new(&mut mem, 1u64).unwrap();
    let y = UnifiedBox::new(&mut mem, 2u64).unwrap();
    assert!(x < y);
}

#[test]
fn zero_sized_value_makes_no_runtime_call() {
    let mut mem = backend();
    let x = UnifiedBox::new(&mut mem, ZeroSizedType).unwrap();
    assert_eq!(0, mem.allocation_count());
    assert_eq!(0, mem.in_use());
    assert!(UnifiedBox::drop(&mut mem, x).is_ok());
    assert_eq!(0, mem.allocation_count());
}

#[test]
fn box_allocation_holds_element_bytes() {
    let mut mem = backend();
    let x = UnifiedBox::new(&mut mem, 7u64).unwrap();
    assert_eq!(1, mem.allocation_count());
    assert_eq!(8, mem.in_use());
    let ptr = UnifiedBox::into_unified(x);
    assert!(mem.is_live(MemoryKind::Unified, ptr.as_addr()));
    assert!(!mem.is_live(MemoryKind::Locked, ptr.as_addr()));
}

#[test]
fn failed_release_returns_handle_with_value() {
    let mut mem = backend();
    let x = UnifiedBox::new(&mut mem, 42u64).unwrap();
    mem.report_async_error(CudaError::LaunchFailed);
    match UnifiedBox::drop(&mut mem, x) {
        Ok(()) => panic!("release should report the earlier failure"),
        Err((e, x)) => {
            assert_eq!(CudaError::LaunchFailed, e);
            assert_eq!(42, *x.get());
            assert!(UnifiedBox::drop(&mut mem, x).is_ok());
        }
    }
    assert_eq!(0, mem.in_use());
}

#[test]
fn locked_failed_release_returns_handle_with_value() {
    let mut mem = backend();
    let x = LockedBox::new(&mut mem, 9u32).unwrap();
    mem.report_async_error(CudaError::LaunchFailed);
    let (e, x) = LockedBox::drop(&mut mem, x).unwrap_err();
    assert_eq!(CudaError::LaunchFailed, e);
    assert_eq!(9, *x.get());
}

#[test]
fn box_out_of_memory() {
    let mut mem = Backend::new(4);
    let err = UnifiedBox::new(&mut mem, 1u64).unwrap_err();
    assert_eq!(CudaError::OutOfMemory, err);
    assert_eq!(0, mem.allocation_count());
    assert!(UnifiedBox::new(&mut mem, 1u32).is_ok());
}

#[test]
fn double_release_is_refused() {
    let mut mem = backend();
    let mut x = LockedBox::new(&mut mem, 3u64).unwrap();
    let copy = x.as_raw_mut();
    assert!(LockedBox::drop(&mut mem, x).is_ok());
    let again = LockedBox::from_raw(copy);
    let (e, _) = LockedBox::drop(&mut mem, again).unwrap_err();
    assert_eq!(CudaError::InvalidValue, e);
}

#[test]
fn leaked_box_is_never_released() {
    let mut mem = backend();
    let x = UnifiedBox::new(&mut mem, 11u64).unwrap();
    let ptr = UnifiedBox::leak(&mut mem, x);
    assert_eq!(&[11u64], ptr.as_slice());
    assert_eq!(8, mem.in_use());
    let x = UnifiedBox::from_unified(ptr);
    let (e, _) = UnifiedBox::drop(&mut mem, x).unwrap_err();
    assert_eq!(CudaError::InvalidValue, e);
    assert_eq!(8, mem.in_use());
}

#[test]
fn uninitialized_box_takes_writes() {
    let mut mem = backend();
    let mut x = LockedBox::<u64>::uninitialized(&mut mem).unwrap();
    x.set(5);
    assert_eq!(5, *x.get());
    let view = x.as_raw();
    assert_eq!(&[5u64], view.as_slice());
}

#[test]
fn box_ordering_and_equality_follow_values() {
    let mut mem = backend();
    let a = UnifiedBox::new(&mut mem, 3i32).unwrap();
    let b = UnifiedBox::new(&mut mem, -3i32).unwrap();
    assert!(b < a);
    assert!(a > b);
    assert!(a != b);
    assert_eq!(Some(std::cmp::Ordering::Greater), a.partial_cmp(&b));
}
