use vstd::prelude::*;

use crate::backend::{
    allocate_array, array_allocated, buffer_released, Backend, MemoryKind, NULL_ADDR,
};
use crate::elements::{copied, filled};
use crate::error::{addr_outcome, drop_outcome, CudaResult, DropResult};
use crate::pointer::UnifiedPointer;
use crate::transfer::{copy_checked, copied_from};

verus! {

/// Fixed-size buffer in unified memory.
#[derive(Debug)]
pub struct UnifiedBuffer<T> {
    buf: usize,
    data: Vec<T>,
}

impl<T> View for UnifiedBuffer<T> {
    type V = Seq<T>;

    closed spec fn view(&self) -> Seq<T> {
        self.data@
    }
}

impl<T: Copy> UnifiedBuffer<T> {
    pub closed spec fn addr(&self) -> usize {
        self.buf
    }

    /// Allocates a buffer of `size` elements, each a copy of `value`.
    ///
    /// Fails with `InvalidMemoryAllocation`, before the runtime is asked, when
    /// `size` elements do not fit in `usize` bytes, and with the runtime's error
    /// when it refuses the allocation.
    pub fn new(mem: &mut Backend, value: &T, size: usize) -> (r: CudaResult<Self>)
        requires
            old(mem).wf(),
        ensures
            final(mem).wf(),
            array_allocated(
                old(mem)@,
                final(mem)@,
                MemoryKind::Unified,
                size as nat,
                vstd::layout::size_of::<T>(),
                addr_outcome(r, |b: Self| b.addr()),
            ),
            r matches Ok(b) ==> b@ == Seq::new(size as nat, |i: int| *value),
    {
        let addr = match allocate_array(mem, MemoryKind::Unified, size, core::mem::size_of::<T>()) {
            Ok(a) => a,
            Err(e) => {
                return Err(e);
            },
        };
        let r = UnifiedBuffer { buf: addr, data: filled(*value, size) };
        Ok(r)
    }

    /// Allocates a buffer holding a copy of each element of `slice`, in order.
    ///
    /// Fails as `new` does for `slice.len()` elements.
    pub fn from_slice(mem: &mut Backend, slice: &[T]) -> (r: CudaResult<Self>)
        requires
            old(mem).wf(),
        ensures
            final(mem).wf(),
            array_allocated(
                old(mem)@,
                final(mem)@,
                MemoryKind::Unified,
                slice@.len(),
                vstd::layout::size_of::<T>(),
                addr_outcome(r, |b: Self| b.addr()),
            ),
            r matches Ok(b) ==> b@ == slice@,
    {
        let addr = match allocate_array(
            mem,
            MemoryKind::Unified,
            slice.len(),
            core::mem::size_of::<T>(),
        ) {
            Ok(a) => a,
            Err(e) => {
                return Err(e);
            },
        };
        let r = UnifiedBuffer { buf: addr, data: copied(slice) };
        Ok(r)
    }

    /// Allocates a buffer of `size` elements whose values are unspecified
    /// until written.
    ///
    /// Fails as `new` does.
    pub fn uninitialized(mem: &mut Backend, size: usize) -> (r: CudaResult<Self>) where
        T: Default,

        requires
            old(mem).wf(),
        ensures
            final(mem).wf(),
            array_allocated(
                old(mem)@,
                final(mem)@,
                MemoryKind::Unified,
                size as nat,
                vstd::layout::size_of::<T>(),
                addr_outcome(r, |b: Self| b.addr()),
            ),
            r matches Ok(b) ==> b@.len() == size,
    {
        let addr = match allocate_array(mem, MemoryKind::Unified, size, core::mem::size_of::<T>()) {
            Ok(a) => a,
            Err(e) => {
                return Err(e);
            },
        };
        let r = UnifiedBuffer { buf: addr, data: filled(T::default(), size) };
        Ok(r)
    }

    /// Number of elements.
    pub fn len(&self) -> (r: usize)
        ensures
            r == self@.len(),
    {
        self.data.len()
    }

    /// Whether the buffer has no elements.
    pub fn is_empty(&self) -> (r: bool)
        ensures
            r == (self@.len() == 0),
    {
        self.data.len() == 0
    }

    /// The element at `i`.
    pub fn get(&self, i: usize) -> (r: T)
        requires
            i < self@.len(),
        ensures
            r == self@[i as int],
    {
        self.data[i]
    }

    /// Writes `value` at `i`; no other element changes.
    pub fn set(&mut self, i: usize, value: T)
        requires
            i < old(self)@.len(),
        ensures
            final(self)@ == old(self)@.update(i as int, value),
            final(self).addr() == old(self).addr(),
    {
        self.data.set(i, value);
    }

    /// The whole buffer as a slice.
    pub fn as_slice(&self) -> (r: &[T])
        ensures
            r@ == self@,
    {
        self.data.as_slice()
    }

    pub(crate) fn overwrite(&mut self, src: &[T]) -> (r: CudaResult<()>)
        ensures
            copied_from(old(self)@, src@, final(self)@, r),
            final(self).addr() == old(self).addr(),
    {
        copy_checked(&mut self.data, src)
    }

    /// The whole buffer as a mutable slice.
    pub fn as_mut_slice(&mut self) -> (r: &mut [T])
        ensures
            r@ == old(self)@,
            final(r)@ == final(self)@,
            final(self).addr() == old(self).addr(),
    {
        self.data.as_mut_slice()
    }

    /// An ownership token for the buffer's allocation and its current elements.
    pub fn as_unified_ptr(&mut self) -> (r: UnifiedPointer<T>)
        ensures
            *final(self) == *old(self),
            r.addr() == old(self).addr(),
            r@ == old(self)@,
    {
        UnifiedPointer::from_parts(self.buf, copied(self.data.as_slice()))
    }

    /// Rebuilds a buffer from a token taken from a buffer of `capacity`
    /// elements.
    pub fn from_raw_parts(ptr: UnifiedPointer<T>, capacity: usize) -> (r: Self)
        requires
            ptr@.len() == capacity,
        ensures
            r.addr() == ptr.addr(),
            r@ == ptr@,
    {
        let (buf, data) = ptr.into_parts();
        UnifiedBuffer { buf, data }
    }

    /// Releases the buffer. When the runtime reports an error (one of earlier
    /// asynchronous work, or an address it does not know), the error and the
    /// buffer, unchanged, come back. A buffer that owns no storage (no
    /// elements, or zero-sized ones) releases nothing and succeeds.
    pub fn drop(mem: &mut Backend, uni_buf: Self) -> (r: DropResult<Self>)
        requires
            old(mem).wf(),
        ensures
            final(mem).wf(),
            buffer_released(
                old(mem)@,
                final(mem)@,
                MemoryKind::Unified,
                uni_buf.addr(),
                uni_buf@.len(),
                vstd::layout::size_of::<T>(),
                drop_outcome(r),
            ),
            r matches Err((_, b)) ==> b == uni_buf,
    {
        if uni_buf.buf == NULL_ADDR || uni_buf.data.len() == 0 || core::mem::size_of::<T>() == 0 {
            return Ok(());
        }
        match mem.free(MemoryKind::Unified, uni_buf.buf) {
            Ok(()) => Ok(()),
            Err(e) => Err((e, uni_buf)),
        }
    }
}

} // verus!
