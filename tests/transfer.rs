use rustacuda::backend::Backend;
use rustacuda::device_box::DeviceBox;
use rustacuda::device_buffer::DeviceBuffer;
use rustacuda::error::CudaError;
use rustacuda::futures::{Executor, Promise};
use rustacuda::locked_box::LockedBox;
use rustacuda::stream::Stream;
use rustacuda::transfer::{AsyncCopyDestination, CopyDestination};
use rustacuda::unified_box::UnifiedBox;
use rustacuda::unified_buffer::UnifiedBuffer;

fn backend() -> Backend {
    Backend::new(1 << 20)
}

#[test]
fn test_host_to_device() {
    let mut mem = backend();
    let mut stream = Stream::new(1);
    let host = UnifiedBuffer::from_slice(&mut mem, &[1u64, 2, 3]).unwrap();
    let mut device = DeviceBuffer::<u64>::uninitialized(&mut mem, 3).unwrap();
    host.async_copy_to(&mut device, &mut stream).unwrap();
    assert_eq!(&[0u64], stream.synchronize().as_slice());
    let mut back = UnifiedBuffer::new(&mut mem, &0u64, 3).unwrap();
    back.copy_from(&device).unwrap();
    assert_eq!(&[1u64, 2, 3], back.as_slice());
}

#[test]
fn test_device_to_host() {
    let mut mem = backend();
    let mut stream = Stream::new(1);
    let device = DeviceBuffer::from_slice(&mut mem, &[4i32, 5]).unwrap();
    let mut host = UnifiedBuffer::new(&mut mem, &0i32, 2).unwrap();
    host.async_copy_from(&device, &mut stream).unwrap();
    stream.synchronize();
    assert_eq!(&[4i32, 5], host.as_slice());
}

#[test]
fn test_device_to_device() {
    let mut mem = backend();
    let mut stream = Stream::new(1);
    let a = DeviceBuffer::from_slice(&mut mem, &[7u8, 8, 9]).unwrap();
    let mut b = DeviceBuffer::<u8>::uninitialized(&mut mem, 3).unwrap();
    b.async_copy_from(&a, &mut stream).unwrap();
    stream.synchronize();
    let mut host = UnifiedBuffer::new(&mut mem, &0u8, 3).unwrap();
    b.copy_to(&mut host).unwrap();
    assert_eq!(&[7u8, 8, 9], host.as_slice());
}

#[test]
fn test_roundtrip() {
    let mut mem = backend();
    let mut stream = Stream::new(1);
    let host = UnifiedBuffer::from_slice(&mut mem, &[1u32, 2, 3, 4]).unwrap();
    let mut device = DeviceBuffer::<u32>::uninitialized(&mut mem, 4).unwrap();
    let mut result = UnifiedBuffer::new(&mut mem, &0u32, 4).unwrap();
    device.async_copy_from(&host, &mut stream).unwrap();
    device.async_copy_to(&mut result, &mut stream).unwrap();
    assert_eq!(&[0u64, 1], stream.synchronize().as_slice());
    assert_eq!(host.as_slice(), result.as_slice());
}

#[test]
fn test_multistream_roundtrip() {
    let mut mem = backend();
    let mut stream1 = Stream::new(1);
    let mut stream2 = Stream::new(2);
    let a = UnifiedBuffer::from_slice(&mut mem, &[1u64, 1]).unwrap();
    let b = UnifiedBuffer::from_slice(&mut mem, &[2u64, 2]).unwrap();
    let mut da = DeviceBuffer::<u64>::uninitialized(&mut mem, 2).unwrap();
    let mut db = DeviceBuffer::<u64>::uninitialized(&mut mem, 2).unwrap();
    da.async_copy_from(&a, &mut stream1).unwrap();
    db.async_copy_from(&b, &mut stream2).unwrap();
    assert_eq!(&[0u64], stream2.synchronize().as_slice());
    assert_eq!(&[0u64], stream1.synchronize().as_slice());
    let mut out = UnifiedBuffer::new(&mut mem, &0u64, 2).unwrap();
    out.copy_from(&da).unwrap();
    assert_eq!(&[1u64, 1], out.as_slice());
    out.copy_from(&db).unwrap();
    assert_eq!(&[2u64, 2], out.as_slice());
}

#[test]
fn test_multistream_shared_buffer() {
    let mut mem = backend();
    let mut stream1 = Stream::new(1);
    let mut stream2 = Stream::new(2);
    let shared = DeviceBuffer::from_slice(&mut mem, &[3i64, 6, 9]).unwrap();
    let mut x = UnifiedBuffer::new(&mut mem, &0i64, 3).unwrap();
    let mut y = UnifiedBuffer::new(&mut mem, &0i64, 3).unwrap();
    shared.async_copy_to(&mut x, &mut stream1).unwrap();
    shared.async_copy_to(&mut y, &mut stream2).unwrap();
    stream1.synchronize();
    stream2.synchronize();
    assert_eq!(x.as_slice(), y.as_slice());
    assert_eq!(&[3i64, 6, 9], x.as_slice());
}

#[test]
fn same_stream_completes_in_submission_order() {
    let mut stream = Stream::new(5);
    let first = stream.enqueue().unwrap();
    let second = stream.enqueue().unwrap();
    assert_eq!(&[first, second], stream.pending());
    assert_eq!(vec![first, second], stream.synchronize());
    assert!(stream.pending().is_empty());
    let third = stream.enqueue().unwrap();
    assert_eq!(2, third);
}

#[test]
fn copy_length_mismatch_is_refused() {
    let mut mem = backend();
    let mut stream = Stream::new(1);
    let a = UnifiedBuffer::from_slice(&mut mem, &[1u8, 2]).unwrap();
    let mut b = UnifiedBuffer::from_slice(&mut mem, &[9u8, 9, 9]).unwrap();
    assert_eq!(Err(CudaError::InvalidValue), b.copy_from(&a));
    assert_eq!(Err(CudaError::InvalidValue), a.copy_to(&mut b));
    assert_eq!(Err(CudaError::InvalidValue), b.async_copy_from(&a, &mut stream));
    assert_eq!(&[9u8, 9, 9], b.as_slice());
    assert!(stream.pending().is_empty());
}

#[test]
fn executor_copies_pairwise() {
    let stream = Stream::new(3);
    let executor = Executor::from_stream(&stream);
    let srcs = [1i32, 2, 3];
    let mut dsts = [0i32; 5];
    executor.copy(&srcs, &mut dsts);
    assert_eq!([1, 2, 3, 0, 0], dsts);
    let mut short = [7i32; 2];
    executor.copy(&srcs, &mut short);
    assert_eq!([1, 2], short);
}

#[test]
fn promise_runs_work_once_when_executed() {
    let stream = Stream::new(4);
    let mut out = [0i32; 3];
    let promise = Promise::new(&stream, |e: &Executor| e.copy(&[5, 6, 7], &mut out));
    promise.execute();
    assert_eq!([5, 6, 7], out);
}

#[test]
fn dropped_promise_runs_nothing() {
    let stream = Stream::new(4);
    let mut ran = false;
    let promise = Promise::new(&stream, |_: &Executor| ran = true);
    drop(promise);
    assert!(!ran);
}

#[test]
fn single_values_move_through_device_memory() {
    let mut mem = backend();
    let mut stream = Stream::new(9);
    let src = LockedBox::new(&mut mem, 21u64).unwrap();
    let mut dev = DeviceBox::<u64>::uninitialized(&mut mem).unwrap();
    dev.copy_from(&src).unwrap();
    let mut out = UnifiedBox::new(&mut mem, 0u64).unwrap();
    dev.async_copy_to(&mut out, &mut stream).unwrap();
    assert_eq!(&[0u64], stream.synchronize().as_slice());
    assert_eq!(21, *out.get());
    let mut back = LockedBox::new(&mut mem, 0u64).unwrap();
    out.copy_to(&mut back).unwrap();
    assert_eq!(src, back);
    assert_eq!(32, mem.in_use());
    assert!(DeviceBox::drop(&mut mem, dev).is_ok());
    assert_eq!(24, mem.in_use());
}
