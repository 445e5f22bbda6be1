use vstd::prelude::*;

use crate::backend::{
    allocate_array, array_allocated, buffer_released, Backend, MemoryKind, NULL_ADDR,
};
use crate::elements::{copied, filled};
use crate::error::{addr_outcome, drop_outcome, CudaError, CudaResult, DropResult};
use crate::transfer::{copy_checked, copied_from};

verus! {

/// Fixed-size buffer in device memory. The host reaches its elements only by
/// copies (`CopyDestination`, `AsyncCopyDestination`).
#[derive(Debug)]
pub struct DeviceBuffer<T> {
    buf: usize,
    data: Vec<T>,
}

impl<T> View for DeviceBuffer<T> {
    type V = Seq<T>;

    closed spec fn view(&self) -> Seq<T> {
        self.data@
    }
}

impl<T: Copy> DeviceBuffer<T> {
    pub closed spec fn addr(&self) -> usize {
        self.buf
    }

    /// Allocates a device buffer holding a copy of each element of `slice`.
    ///
    /// Fails with `InvalidMemoryAllocation`, before the runtime is asked, when
    /// the elements do not fit in `usize` bytes, and with the runtime's error
    /// when it refuses the allocation.
    pub fn from_slice(mem: &mut Backend, slice: &[T]) -> (r: CudaResult<Self>)
        requires
            old(mem).wf(),
        ensures
            final(mem).wf(),
            array_allocated(
                old(mem)@,
                final(mem)@,
                MemoryKind::Device,
                slice@.len(),
                vstd::layout::size_of::<T>(),
                addr_outcome(r, |b: Self| b.addr()),
            ),
            r matches Ok(b) ==> b@ == slice@,
    {
        let addr = match allocate_array(
            mem,
            MemoryKind::Device,
            slice.len(),
            core::mem::size_of::<T>(),
        ) {
            Ok(a) => a,
            Err(e) => {
                return Err(e);
            },
        };
        let r = DeviceBuffer { buf: addr, data: copied(slice) };
        Ok(r)
    }

    /// Allocates a device buffer of `size` elements whose values are
    /// unspecified until written. Fails as `from_slice` does.
    pub fn uninitialized(mem: &mut Backend, size: usize) -> (r: CudaResult<Self>) where
        T: Default,

        requires
            old(mem).wf(),
        ensures
            final(mem).wf(),
            array_allocated(
                old(mem)@,
                final(mem)@,
                MemoryKind::Device,
                size as nat,
                vstd::layout::size_of::<T>(),
                addr_outcome(r, |b: Self| b.addr()),
            ),
            r matches Ok(b) ==> b@.len() == size,
    {
        let addr = match allocate_array(mem, MemoryKind::Device, size, core::mem::size_of::<T>()) {
            Ok(a) => a,
            Err(e) => {
                return Err(e);
            },
        };
        let r = DeviceBuffer { buf: addr, data: filled(T::default(), size) };
        Ok(r)
    }

    /// Number of elements.
    pub fn len(&self) -> (r: usize)
        ensures
            r == self@.len(),
    {
        self.data.len()
    }

    /// Whether the buffer has no elements.
    pub fn is_empty(&self) -> (r: bool)
        ensures
            r == (self@.len() == 0),
    {
        self.data.len() == 0
    }

    pub(crate) fn contents(&self) -> (r: &[T])
        ensures
            r@ == self@,
    {
        self.data.as_slice()
    }

    pub(crate) fn overwrite(&mut self, src: &[T]) -> (r: CudaResult<()>)
        ensures
            copied_from(old(self)@, src@, final(self)@, r),
            final(self).addr() == old(self).addr(),
    {
        copy_checked(&mut self.data, src)
    }

    /// Releases the buffer. When the runtime reports an error the error and
    /// the buffer, unchanged, come back. A buffer that owns no storage
    /// releases nothing and succeeds.
    pub fn drop(mem: &mut Backend, dev_buf: Self) -> (r: DropResult<Self>)
        requires
            old(mem).wf(),
        ensures
            final(mem).wf(),
            buffer_released(
                old(mem)@,
                final(mem)@,
                MemoryKind::Device,
                dev_buf.addr(),
                dev_buf@.len(),
                vstd::layout::size_of::<T>(),
                drop_outcome(r),
            ),
            r matches Err((_, b)) ==> b == dev_buf,
    {
        if dev_buf.buf == NULL_ADDR || dev_buf.data.len() == 0 || core::mem::size_of::<T>() == 0 {
            return Ok(());
        }
        match mem.free(MemoryKind::Device, dev_buf.buf) {
            Ok(()) => Ok(()),
            Err(e) => Err((e, dev_buf)),
        }
    }
}

} // verus!
