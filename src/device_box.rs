use vstd::prelude::*;

use crate::backend::{
    allocate_value, value_allocated, value_released, Backend, MemoryKind, NULL_ADDR,
};
use crate::error::{addr_outcome, drop_outcome, CudaError, CudaResult, DropResult};

verus! {

/// A single value in device memory. The host reaches it only by copies
/// (`CopyDestination`, `AsyncCopyDestination`).
#[derive(Debug)]
pub struct DeviceBox<T> {
    ptr: usize,
    val: T,
}

impl<T> View for DeviceBox<T> {
    type V = T;

    closed spec fn view(&self) -> T {
        self.val
    }
}

impl<T: Copy> DeviceBox<T> {
    pub closed spec fn addr(&self) -> usize {
        self.ptr
    }

    /// Allocates device memory and places `val` in it. A zero-sized value
    /// takes no allocation: the runtime is not called and the handle holds the
    /// null address.
    pub fn new(mem: &mut Backend, val: T) -> (r: CudaResult<Self>)
        requires
            old(mem).wf(),
        ensures
            final(mem).wf(),
            value_allocated(
                old(mem)@,
                final(mem)@,
                MemoryKind::Device,
                vstd::layout::size_of::<T>(),
                addr_outcome(r, |b: Self| b.addr()),
            ),
            r matches Ok(b) ==> b@ == val,
    {
        let ptr = match allocate_value(mem, MemoryKind::Device, core::mem::size_of::<T>()) {
            Ok(a) => a,
            Err(e) => {
                return Err(e);
            },
        };
        let r = DeviceBox { ptr, val };
        Ok(r)
    }

    /// Allocates device memory for a value that is unspecified until
    /// written. Allocates as `new` does.
    pub fn uninitialized(mem: &mut Backend) -> (r: CudaResult<Self>) where T: Default
        requires
            old(mem).wf(),
        ensures
            final(mem).wf(),
            value_allocated(
                old(mem)@,
                final(mem)@,
                MemoryKind::Device,
                vstd::layout::size_of::<T>(),
                addr_outcome(r, |b: Self| b.addr()),
            ),
    {
        DeviceBox::new(mem, T::default())
    }

    /// Releases the allocation. When the runtime reports an error (one of
    /// earlier asynchronous work, or an address it does not know), the error
    /// and the handle, unchanged, come back.
    pub fn drop(mem: &mut Backend, dev_box: Self) -> (r: DropResult<Self>)
        requires
            old(mem).wf(),
        ensures
            final(mem).wf(),
            value_released(
                old(mem)@,
                final(mem)@,
                MemoryKind::Device,
                dev_box.addr(),
                drop_outcome(r),
            ),
            r matches Err((_, b)) ==> b == dev_box,
    {
        if dev_box.ptr == NULL_ADDR {
            return Ok(());
        }
        match mem.free(MemoryKind::Device, dev_box.ptr) {
            Ok(()) => Ok(()),
            Err(e) => Err((e, dev_box)),
        }
    }

    pub(crate) fn get(&self) -> (r: &T)
        ensures
            *r == self@,
    {
        &self.val
    }

    pub(crate) fn set(&mut self, val: T)
        ensures
            final(self)@ == val,
            final(self).addr() == old(self).addr(),
    {
        self.val = val;
    }

}

} // verus!
