use rustacuda::backend::Backend;
use rustacuda::device_buffer::DeviceBuffer;
use rustacuda::error::CudaError;
use rustacuda::unified_buffer::UnifiedBuffer;

#[derive(Clone, Copy, Debug, Default, PartialEq)]
struct ZeroSizedType;

fn backend() -> Backend {
    Backend::new(1 << 20)
}

#[test]
fn test_new() {
    let mut mem = backend();
    let val = 0u64;
    let mut buffer = UnifiedBuffer::new(&mut mem, &val, 5).unwrap();
    buffer.as_mut_slice()[0] = 1;
    assert_eq!(&[1u64, 0, 0, 0, 0], buffer.as_slice());
}

#[test]
fn test_from_slice() {
    let mut mem = backend();
    let values = [0u64; 10];
    let mut buffer = UnifiedBuffer::from_slice(&mut mem, &values).unwrap();
    for i in buffer.as_mut_slice()[0..3].iter_mut() {
        *i = 10;
    }
    assert_eq!(&[10u64, 10, 10, 0, 0, 0, 0, 0, 0, 0], buffer.as_slice());
}

#[test]
fn from_raw_parts() {
    let mut mem = backend();
    let mut buffer = UnifiedBuffer::new(&mut mem, &0u64, 5).unwrap();
    buffer.as_mut_slice()[2] = 1;
    let ptr = buffer.as_unified_ptr();
    let len = buffer.len();
    std::mem::forget(buffer);

    let buffer = UnifiedBuffer::from_raw_parts(ptr, len);
    assert_eq!(&[0u64, 0, 1, 0, 0], buffer.as_slice());
    assert!(UnifiedBuffer::drop(&mut mem, buffer).is_ok());
}

#[test]
fn zero_length_buffer() {
    let mut mem = backend();
    let buffer = UnifiedBuffer::new(&mut mem, &0u64, 0).unwrap();
    assert!(buffer.is_empty());
    assert_eq!(0, mem.allocation_count());
    assert!(UnifiedBuffer::drop(&mut mem, buffer).is_ok());
}

#[test]
fn zero_size_type() {
    let mut mem = backend();
    let buffer = UnifiedBuffer::new(&mut mem, &ZeroSizedType, 10).unwrap();
    assert_eq!(10, buffer.len());
    assert_eq!(0, mem.allocation_count());
    assert!(UnifiedBuffer::drop(&mut mem, buffer).is_ok());
}

#[test]
fn overflows_usize() {
    let mut mem = backend();
    let err = UnifiedBuffer::new(&mut mem, &0u64, ::std::usize::MAX - 1).unwrap_err();
    assert_eq!(CudaError::InvalidMemoryAllocation, err);
}

#[test]
fn uninitialized_overflow_makes_no_runtime_call() {
    let mut mem = backend();
    let err = UnifiedBuffer::<u64>::uninitialized(&mut mem, usize::MAX - 1).unwrap_err();
    assert_eq!(CudaError::InvalidMemoryAllocation, err);
    assert_eq!(0, mem.allocation_count());
    assert_eq!(0, mem.in_use());
}

#[test]
fn filled_then_one_write() {
    let mut mem = backend();
    let mut buffer = UnifiedBuffer::new(&mut mem, &0u64, 5).unwrap();
    buffer.set(2, 1);
    assert_eq!(&[0u64, 0, 1, 0, 0], buffer.as_slice());
    assert_eq!(40, mem.in_use());
}

#[test]
fn uninitialized_written_element_by_element() {
    let mut mem = backend();
    let mut buffer = UnifiedBuffer::<u32>::uninitialized(&mut mem, 6).unwrap();
    for i in 0..6 {
        buffer.set(i, (i as u32) * 3 + 1);
    }
    assert_eq!(6, buffer.len());
    assert_eq!(&[1u32, 4, 7, 10, 13, 16], buffer.as_slice());
    assert_eq!(7, buffer.get(2));
}

#[test]
fn buffer_out_of_memory() {
    let mut mem = Backend::new(16);
    let err = UnifiedBuffer::new(&mut mem, &0u64, 3).unwrap_err();
    assert_eq!(CudaError::OutOfMemory, err);
    assert_eq!(0, mem.allocation_count());
    let b = UnifiedBuffer::new(&mut mem, &0u64, 2).unwrap();
    assert_eq!(16, mem.in_use());
    assert!(UnifiedBuffer::drop(&mut mem, b).is_ok());
    assert_eq!(0, mem.in_use());
}

#[test]
fn failed_buffer_release_returns_buffer() {
    let mut mem = backend();
    let buffer = UnifiedBuffer::from_slice(&mut mem, &[10u32, 20, 30]).unwrap();
    mem.report_async_error(CudaError::LaunchFailed);
    let (e, buffer) = UnifiedBuffer::drop(&mut mem, buffer).unwrap_err();
    assert_eq!(CudaError::LaunchFailed, e);
    assert_eq!(&[10u32, 20, 30], buffer.as_slice());
    assert!(UnifiedBuffer::drop(&mut mem, buffer).is_ok());
}

#[test]
fn device_buffer_release() {
    let mut mem = backend();
    let buffer = DeviceBuffer::from_slice(&mut mem, &[1u16, 2, 3, 4]).unwrap();
    assert_eq!(4, buffer.len());
    assert_eq!(8, mem.in_use());
    assert!(DeviceBuffer::drop(&mut mem, buffer).is_ok());
    assert_eq!(0, mem.in_use());
}

#[test]
fn device_buffer_uninitialized_overflow() {
    let mut mem = backend();
    let err = DeviceBuffer::<u64>::uninitialized(&mut mem, usize::MAX / 4).unwrap_err();
    assert_eq!(CudaError::InvalidMemoryAllocation, err);
}
