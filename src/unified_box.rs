use vstd::prelude::*;
use vstd::std_specs::cmp::{PartialEqSpec, PartialOrdSpec};

use crate::backend::{
    allocate_value, value_allocated, value_released, AllocState, Backend, MemoryKind, NULL_ADDR,
};
use crate::error::{addr_outcome, drop_outcome, CudaError, CudaResult, DropResult};
use crate::pointer::UnifiedPointer;

verus! {

/// A single value in unified memory, owned as `Box` owns its value.
#[derive(Debug)]
pub struct UnifiedBox<T> {
    ptr: usize,
    val: T,
}

impl<T> View for UnifiedBox<T> {
    type V = T;

    closed spec fn view(&self) -> T {
        self.val
    }
}

impl<T: Copy> UnifiedBox<T> {
    pub closed spec fn addr(&self) -> usize {
        self.ptr
    }

    /// Allocates unified memory and places `val` in it. A zero-sized value
    /// takes no allocation: the runtime is not called and the handle holds the
    /// null address.
    pub fn new(mem: &mut Backend, val: T) -> (r: CudaResult<Self>)
        requires
            old(mem).wf(),
        ensures
            final(mem).wf(),
            value_allocated(
                old(mem)@,
                final(mem)@,
                MemoryKind::Unified,
                vstd::layout::size_of::<T>(),
                addr_outcome(r, |b: Self| b.addr()),
            ),
            r matches Ok(b) ==> b@ == val,
    {
        let ptr = match allocate_value(mem, MemoryKind::Unified, core::mem::size_of::<T>()) {
            Ok(a) => a,
            Err(e) => {
                return Err(e);
            },
        };
        let r = UnifiedBox { ptr, val };
        Ok(r)
    }

    /// Allocates unified memory for a value that is unspecified until
    /// written. Allocates as `new` does.
    pub fn uninitialized(mem: &mut Backend) -> (r: CudaResult<Self>) where T: Default
        requires
            old(mem).wf(),
        ensures
            final(mem).wf(),
            value_allocated(
                old(mem)@,
                final(mem)@,
                MemoryKind::Unified,
                vstd::layout::size_of::<T>(),
                addr_outcome(r, |b: Self| b.addr()),
            ),
    {
        UnifiedBox::new(mem, T::default())
    }

    /// Adopts the allocation of a token taken from a `UnifiedBox`.
    pub fn from_unified(ptr: UnifiedPointer<T>) -> (r: Self)
        requires
            ptr@.len() == 1,
        ensures
            r.addr() == ptr.addr(),
            r@ == ptr@[0],
    {
        let (p, elements) = ptr.into_parts();
        UnifiedBox { ptr: p, val: elements[0] }
    }

    /// Gives up the handle; the caller becomes responsible for the allocation,
    /// which the returned token names.
    pub fn into_unified(b: Self) -> (r: UnifiedPointer<T>)
        ensures
            r.addr() == b.addr(),
            r@ == seq![b@],
    {
        let r = UnifiedPointer::from_parts(b.ptr, vec![b.val]);
        assert(r@ =~= seq![b@]);
        r
    }

    /// A token for the allocation and its current value; the handle stays.
    pub fn as_unified_ptr(&mut self) -> (r: UnifiedPointer<T>)
        ensures
            *final(self) == *old(self),
            r.addr() == old(self).addr(),
            r@ == seq![old(self)@],
    {
        let r = UnifiedPointer::from_parts(self.ptr, vec![self.val]);
        assert(r@ =~= seq![self@]);
        r
    }

    /// Gives up the handle and marks its allocation as held for the rest of
    /// the process: the runtime never releases it. Returns a token for it.
    pub fn leak(mem: &mut Backend, b: Self) -> (r: UnifiedPointer<T>)
        requires
            old(mem).wf(),
        ensures
            final(mem).wf(),
            old(mem)@.is_live(MemoryKind::Unified, b.addr()) ==> final(mem)@ == old(
                mem,
            )@.with_state(b.addr(), AllocState::Leaked),
            !old(mem)@.is_live(MemoryKind::Unified, b.addr()) ==> final(mem)@ == old(mem)@,
            r.addr() == b.addr(),
            r@ == seq![b@],
    {
        mem.leak(MemoryKind::Unified, b.ptr);
        UnifiedBox::into_unified(b)
    }

    /// Releases the allocation. When the runtime reports an error (one of
    /// earlier asynchronous work, or an address it does not know), the error
    /// and the handle, unchanged, come back.
    pub fn drop(mem: &mut Backend, uni_box: Self) -> (r: DropResult<Self>)
        requires
            old(mem).wf(),
        ensures
            final(mem).wf(),
            value_released(
                old(mem)@,
                final(mem)@,
                MemoryKind::Unified,
                uni_box.addr(),
                drop_outcome(r),
            ),
            r matches Err((_, b)) ==> b == uni_box,
    {
        if uni_box.ptr == NULL_ADDR {
            return Ok(());
        }
        match mem.free(MemoryKind::Unified, uni_box.ptr) {
            Ok(()) => Ok(()),
            Err(e) => Err((e, uni_box)),
        }
    }

    /// The value.
    pub fn get(&self) -> (r: &T)
        ensures
            *r == self@,
    {
        &self.val
    }

    /// Replaces the value.
    pub fn set(&mut self, val: T)
        ensures
            final(self)@ == val,
            final(self).addr() == old(self).addr(),
    {
        self.val = val;
    }

    /// The value, for writing.
    pub fn as_mut(&mut self) -> (r: &mut T)
        ensures
            *r == old(self)@,
            *final(r) == final(self)@,
            final(self).addr() == old(self).addr(),
    {
        &mut self.val
    }
}

impl<T: Copy + PartialEq + PartialEqSpec> PartialEq for UnifiedBox<T> {
    fn eq(&self, other: &Self) -> (r: bool) {
        self.val == other.val
    }
}

impl<T: Copy + PartialEq + PartialEqSpec> vstd::std_specs::cmp::PartialEqSpecImpl for UnifiedBox<T> {
    open spec fn obeys_eq_spec() -> bool {
        T::obeys_eq_spec()
    }

    open spec fn eq_spec(&self, other: &Self) -> bool {
        self@.eq_spec(&other@)
    }
}

impl<T: Copy + Eq + PartialEqSpec> Eq for UnifiedBox<T> {

}

impl<T: Copy + PartialOrd + PartialEqSpec + PartialOrdSpec> PartialOrd for UnifiedBox<T> {
    fn partial_cmp(&self, other: &Self) -> (r: Option<core::cmp::Ordering>) {
        self.val.partial_cmp(&other.val)
    }
}

impl<T: Copy + PartialOrd + PartialEqSpec + PartialOrdSpec> vstd::std_specs::cmp::PartialOrdSpecImpl for UnifiedBox<T> {
    open spec fn obeys_partial_cmp_spec() -> bool {
        T::obeys_partial_cmp_spec()
    }

    open spec fn partial_cmp_spec(&self, other: &Self) -> Option<core::cmp::Ordering> {
        self@.partial_cmp_spec(&other@)
    }
}

} // verus!
