use vstd::prelude::*;

verus! {

/// Failures reported by allocation, release and copy operations.
#[derive(Clone, Copy, Debug, PartialEq, Eq, Structural)]
pub enum CudaError {
    /// The runtime could not satisfy an allocation request.
    OutOfMemory,
    /// The requested element count times the element size does not fit in `usize`.
    InvalidMemoryAllocation,
    /// An argument was rejected: mismatched copy lengths, or a release of
    /// memory that is not a live allocation of the named region.
    InvalidValue,
    /// An earlier asynchronous operation failed; the runtime reports it at the
    /// next call that can return an error.
    LaunchFailed,
}

/// Result of a fallible operation.
pub type CudaResult<T> = Result<T, CudaError>;

/// Result of an explicit release: on failure the error and the handle, intact.
pub type DropResult<T> = Result<(), (CudaError, T)>;

} // verus!

verus! {

/// The error of a release, without the handle it hands back.
pub open spec fn drop_outcome<T>(r: DropResult<T>) -> CudaResult<()> {
    match r {
        Ok(()) => Ok(()),
        Err((e, _)) => Err(e),
    }
}

/// The address of an allocated handle, or the error of the allocation.
pub open spec fn addr_outcome<T>(r: CudaResult<T>, addr: spec_fn(T) -> usize) -> CudaResult<
    usize,
> {
    match r {
        Ok(h) => Ok(addr(h)),
        Err(e) => Err(e),
    }
}

} // verus!
