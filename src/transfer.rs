use vstd::prelude::*;

use crate::device_box::DeviceBox;
use crate::device_buffer::DeviceBuffer;
use crate::elements::copy_into;
use crate::error::{CudaError, CudaResult};
use crate::locked_box::LockedBox;
use crate::stream::{Stream, StreamView};
use crate::unified_box::UnifiedBox;
use crate::unified_buffer::UnifiedBuffer;

verus! {

/// Outcome of copying `src` over `pre`: the lengths must agree, else the
/// copy is refused and nothing changes.
pub open spec fn copied_from<T>(pre: Seq<T>, src: Seq<T>, post: Seq<T>, r: CudaResult<()>) -> bool {
    if pre.len() == src.len() {
        r is Ok && post == src
    } else {
        r == Err::<(), CudaError>(CudaError::InvalidValue) && post == pre
    }
}

/// Overwrites `dst` with `src` when their lengths agree.
pub fn copy_checked<T: Copy>(dst: &mut Vec<T>, src: &[T]) -> (r: CudaResult<()>)
    ensures
        copied_from(old(dst)@, src@, final(dst)@, r),
{
    if dst.len() != src.len() {
        return Err(CudaError::InvalidValue);
    }
    copy_into(dst, src);
    Ok(())
}

/// Outcome of submitting a copy of `src` over `pre` to a stream: the lengths
/// must agree and the stream must take one more operation, else nothing
/// changes. A submitted copy is one operation of the stream.
pub open spec fn async_copied<T>(
    pre: Seq<T>,
    src: Seq<T>,
    post: Seq<T>,
    spre: StreamView,
    spost: StreamView,
    r: CudaResult<()>,
) -> bool {
    if pre.len() != src.len() {
        r == Err::<(), CudaError>(CudaError::InvalidValue) && post == pre && spost == spre
    } else if !spre.can_enqueue() {
        r == Err::<(), CudaError>(CudaError::OutOfMemory) && post == pre && spost == spre
    } else {
        r is Ok && post == src && spost == spre.enqueued()
    }
}

/// Submits a copy between extents of `dst_len` and `src_len` elements to
/// `stream`.
fn submit_copy(dst_len: usize, src_len: usize, stream: &mut Stream) -> (r: CudaResult<()>)
    ensures
        dst_len != src_len ==> r == Err::<(), CudaError>(CudaError::InvalidValue)
            && final(stream)@ == old(stream)@,
        dst_len == src_len && !old(stream)@.can_enqueue() ==> r == Err::<(), CudaError>(
            CudaError::OutOfMemory)
            && final(stream)@ == old(stream)@,
        dst_len == src_len && old(stream)@.can_enqueue() ==> r is Ok
            && final(stream)@ == old(stream)@.enqueued(),
{
    if dst_len != src_len {
        return Err(CudaError::InvalidValue);
    }
    match stream.enqueue() {
        Ok(_) => Ok(()),
        Err(e) => Err(e),
    }
}

/// A handle whose elements take part in copies.
pub trait Extent<T> {
    /// The elements, in order.
    spec fn elements(&self) -> Seq<T>;

    /// The address of the allocation.
    spec fn address(&self) -> usize;
}

/// Implemented by handles that can be the source or the destination of a
/// blocking copy, in any combination of regions. The call returns once every
/// element has moved.
pub trait CopyDestination<T, O: Extent<T>>: Extent<T> + Sized {
    /// Copies the elements of `source`, which must have as many as `self`;
    /// otherwise fails with `InvalidValue` and changes nothing.
    fn copy_from(&mut self, source: &O) -> (r: CudaResult<()>)
        ensures
            copied_from(old(self).elements(), source.elements(), final(self).elements(), r),
            final(self).address() == old(self).address(),
    ;

    /// Copies the elements of `self` into `dest`, which must have as many;
    /// otherwise fails with `InvalidValue` and changes nothing.
    fn copy_to(&self, dest: &mut O) -> (r: CudaResult<()>)
        ensures
            copied_from(old(dest).elements(), self.elements(), final(dest).elements(), r),
            final(dest).address() == old(dest).address(),
    ;
}

/// Implemented by handles that can be the source or the destination of a
/// copy submitted to a stream. The call returns once the copy is submitted;
/// it completes in submission order with the stream's other operations.
///
/// The caller keeps both sides alive and touches neither until it has
/// synchronized the stream, and host memory taking part must be page-locked
/// or unified: nothing here can check either. The elements stated below are
/// those both sides hold once the copy has completed.
pub trait AsyncCopyDestination<T, O: Extent<T>>: Extent<T> + Sized {
    /// Submits a copy of the elements of `source`, which must have as many
    /// as `self`.
    fn async_copy_from(&mut self, source: &O, stream: &mut Stream) -> (r: CudaResult<()>)
        ensures
            async_copied(
                old(self).elements(),
                source.elements(),
                final(self).elements(),
                old(stream)@,
                final(stream)@,
                r,
            ),
            final(self).address() == old(self).address(),
    ;

    /// Submits a copy of the elements of `self` into `dest`, which must have
    /// as many.
    fn async_copy_to(&self, dest: &mut O, stream: &mut Stream) -> (r: CudaResult<()>)
        ensures
            async_copied(
                old(dest).elements(),
                self.elements(),
                final(dest).elements(),
                old(stream)@,
                final(stream)@,
                r,
            ),
            final(dest).address() == old(dest).address(),
    ;
}

impl<T: Copy> Extent<T> for UnifiedBuffer<T> {
    open spec fn elements(&self) -> Seq<T> {
        self@
    }

    open spec fn address(&self) -> usize {
        self.addr()
    }
}

impl<T: Copy> Extent<T> for DeviceBuffer<T> {
    open spec fn elements(&self) -> Seq<T> {
        self@
    }

    open spec fn address(&self) -> usize {
        self.addr()
    }
}

impl<T: Copy> CopyDestination<T, UnifiedBuffer<T>> for UnifiedBuffer<T> {
    fn copy_from(&mut self, source: &UnifiedBuffer<T>) -> (r: CudaResult<()>) {
        self.overwrite(source.as_slice())
    }

    fn copy_to(&self, dest: &mut UnifiedBuffer<T>) -> (r: CudaResult<()>) {
        dest.overwrite(self.as_slice())
    }
}

impl<T: Copy> CopyDestination<T, DeviceBuffer<T>> for UnifiedBuffer<T> {
    fn copy_from(&mut self, source: &DeviceBuffer<T>) -> (r: CudaResult<()>) {
        self.overwrite(source.contents())
    }

    fn copy_to(&self, dest: &mut DeviceBuffer<T>) -> (r: CudaResult<()>) {
        dest.overwrite(self.as_slice())
    }
}

impl<T: Copy> CopyDestination<T, UnifiedBuffer<T>> for DeviceBuffer<T> {
    fn copy_from(&mut self, source: &UnifiedBuffer<T>) -> (r: CudaResult<()>) {
        self.overwrite(source.as_slice())
    }

    fn copy_to(&self, dest: &mut UnifiedBuffer<T>) -> (r: CudaResult<()>) {
        dest.overwrite(self.contents())
    }
}

impl<T: Copy> CopyDestination<T, DeviceBuffer<T>> for DeviceBuffer<T> {
    fn copy_from(&mut self, source: &DeviceBuffer<T>) -> (r: CudaResult<()>) {
        self.overwrite(source.contents())
    }

    fn copy_to(&self, dest: &mut DeviceBuffer<T>) -> (r: CudaResult<()>) {
        dest.overwrite(self.contents())
    }
}

impl<T: Copy> AsyncCopyDestination<T, UnifiedBuffer<T>> for UnifiedBuffer<T> {
    fn async_copy_from(&mut self, source: &UnifiedBuffer<T>, stream: &mut Stream) -> (r: CudaResult<()>) {
        match submit_copy(self.len(), source.len(), stream) {
            Ok(()) => self.overwrite(source.as_slice()),
            Err(e) => Err(e),
        }
    }

    fn async_copy_to(&self, dest: &mut UnifiedBuffer<T>, stream: &mut Stream) -> (r: CudaResult<()>) {
        match submit_copy(dest.len(), self.len(), stream) {
            Ok(()) => dest.overwrite(self.as_slice()),
            Err(e) => Err(e),
        }
    }
}

impl<T: Copy> AsyncCopyDestination<T, DeviceBuffer<T>> for UnifiedBuffer<T> {
    fn async_copy_from(&mut self, source: &DeviceBuffer<T>, stream: &mut Stream) -> (r: CudaResult<()>) {
        match submit_copy(self.len(), source.len(), stream) {
            Ok(()) => self.overwrite(source.contents()),
            Err(e) => Err(e),
        }
    }

    fn async_copy_to(&self, dest: &mut DeviceBuffer<T>, stream: &mut Stream) -> (r: CudaResult<()>) {
        match submit_copy(dest.len(), self.len(), stream) {
            Ok(()) => dest.overwrite(self.as_slice()),
            Err(e) => Err(e),
        }
    }
}

impl<T: Copy> AsyncCopyDestination<T, UnifiedBuffer<T>> for DeviceBuffer<T> {
    fn async_copy_from(&mut self, source: &UnifiedBuffer<T>, stream: &mut Stream) -> (r: CudaResult<()>) {
        match submit_copy(self.len(), source.len(), stream) {
            Ok(()) => self.overwrite(source.as_slice()),
            Err(e) => Err(e),
        }
    }

    fn async_copy_to(&self, dest: &mut UnifiedBuffer<T>, stream: &mut Stream) -> (r: CudaResult<()>) {
        match submit_copy(dest.len(), self.len(), stream) {
            Ok(()) => dest.overwrite(self.contents()),
            Err(e) => Err(e),
        }
    }
}

impl<T: Copy> AsyncCopyDestination<T, DeviceBuffer<T>> for DeviceBuffer<T> {
    fn async_copy_from(&mut self, source: &DeviceBuffer<T>, stream: &mut Stream) -> (r: CudaResult<()>) {
        match submit_copy(self.len(), source.len(), stream) {
            Ok(()) => self.overwrite(source.contents()),
            Err(e) => Err(e),
        }
    }

    fn async_copy_to(&self, dest: &mut DeviceBuffer<T>, stream: &mut Stream) -> (r: CudaResult<()>) {
        match submit_copy(dest.len(), self.len(), stream) {
            Ok(()) => dest.overwrite(self.contents()),
            Err(e) => Err(e),
        }
    }
}

impl<T: Copy> Extent<T> for UnifiedBox<T> {
    open spec fn elements(&self) -> Seq<T> {
        seq![self@]
    }

    open spec fn address(&self) -> usize {
        self.addr()
    }
}

impl<T: Copy> Extent<T> for LockedBox<T> {
    open spec fn elements(&self) -> Seq<T> {
        seq![self@]
    }

    open spec fn address(&self) -> usize {
        self.addr()
    }
}

impl<T: Copy> CopyDestination<T, UnifiedBox<T>> for UnifiedBox<T> {
    fn copy_from(&mut self, source: &UnifiedBox<T>) -> (r: CudaResult<()>) {
        self.set(*source.get());
        assert(self.elements() =~= source.elements());
        Ok(())
    }

    fn copy_to(&self, dest: &mut UnifiedBox<T>) -> (r: CudaResult<()>) {
        dest.set(*self.get());
        assert(dest.elements() =~= self.elements());
        Ok(())
    }
}

impl<T: Copy> AsyncCopyDestination<T, UnifiedBox<T>> for UnifiedBox<T> {
    fn async_copy_from(&mut self, source: &UnifiedBox<T>, stream: &mut Stream) -> (r: CudaResult<()>) {
        match submit_copy(1, 1, stream) {
            Ok(()) => {
                self.set(*source.get());
                assert(self.elements() =~= source.elements());
                Ok(())
            },
            Err(e) => Err(e),
        }
    }

    fn async_copy_to(&self, dest: &mut UnifiedBox<T>, stream: &mut Stream) -> (r: CudaResult<()>) {
        match submit_copy(1, 1, stream) {
            Ok(()) => {
                dest.set(*self.get());
                assert(dest.elements() =~= self.elements());
                Ok(())
            },
            Err(e) => Err(e),
        }
    }
}

impl<T: Copy> CopyDestination<T, LockedBox<T>> for UnifiedBox<T> {
    fn copy_from(&mut self, source: &LockedBox<T>) -> (r: CudaResult<()>) {
        self.set(*source.get());
        assert(self.elements() =~= source.elements());
        Ok(())
    }

    fn copy_to(&self, dest: &mut LockedBox<T>) -> (r: CudaResult<()>) {
        dest.set(*self.get());
        assert(dest.elements() =~= self.elements());
        Ok(())
    }
}

impl<T: Copy> AsyncCopyDestination<T, LockedBox<T>> for UnifiedBox<T> {
    fn async_copy_from(&mut self, source: &LockedBox<T>, stream: &mut Stream) -> (r: CudaResult<()>) {
        match submit_copy(1, 1, stream) {
            Ok(()) => {
                self.set(*source.get());
                assert(self.elements() =~= source.elements());
                Ok(())
            },
            Err(e) => Err(e),
        }
    }

    fn async_copy_to(&self, dest: &mut LockedBox<T>, stream: &mut Stream) -> (r: CudaResult<()>) {
        match submit_copy(1, 1, stream) {
            Ok(()) => {
                dest.set(*self.get());
                assert(dest.elements() =~= self.elements());
                Ok(())
            },
            Err(e) => Err(e),
        }
    }
}

impl<T: Copy> CopyDestination<T, UnifiedBox<T>> for LockedBox<T> {
    fn copy_from(&mut self, source: &UnifiedBox<T>) -> (r: CudaResult<()>) {
        self.set(*source.get());
        assert(self.elements() =~= source.elements());
        Ok(())
    }

    fn copy_to(&self, dest: &mut UnifiedBox<T>) -> (r: CudaResult<()>) {
        dest.set(*self.get());
        assert(dest.elements() =~= self.elements());
        Ok(())
    }
}

impl<T: Copy> AsyncCopyDestination<T, UnifiedBox<T>> for LockedBox<T> {
    fn async_copy_from(&mut self, source: &UnifiedBox<T>, stream: &mut Stream) -> (r: CudaResult<()>) {
        match submit_copy(1, 1, stream) {
            Ok(()) => {
                self.set(*source.get());
                assert(self.elements() =~= source.elements());
                Ok(())
            },
            Err(e) => Err(e),
        }
    }

    fn async_copy_to(&self, dest: &mut UnifiedBox<T>, stream: &mut Stream) -> (r: CudaResult<()>) {
        match submit_copy(1, 1, stream) {
            Ok(()) => {
                dest.set(*self.get());
                assert(dest.elements() =~= self.elements());
                Ok(())
            },
            Err(e) => Err(e),
        }
    }
}

impl<T: Copy> CopyDestination<T, LockedBox<T>> for LockedBox<T> {
    fn copy_from(&mut self, source: &LockedBox<T>) -> (r: CudaResult<()>) {
        self.set(*source.get());
        assert(self.elements() =~= source.elements());
        Ok(())
    }

    fn copy_to(&self, dest: &mut LockedBox<T>) -> (r: CudaResult<()>) {
        dest.set(*self.get());
        assert(dest.elements() =~= self.elements());
        Ok(())
    }
}

impl<T: Copy> AsyncCopyDestination<T, LockedBox<T>> for LockedBox<T> {
    fn async_copy_from(&mut self, source: &LockedBox<T>, stream: &mut Stream) -> (r: CudaResult<()>) {
        match submit_copy(1, 1, stream) {
            Ok(()) => {
                self.set(*source.get());
                assert(self.elements() =~= source.elements());
                Ok(())
            },
            Err(e) => Err(e),
        }
    }

    fn async_copy_to(&self, dest: &mut LockedBox<T>, stream: &mut Stream) -> (r: CudaResult<()>) {
        match submit_copy(1, 1, stream) {
            Ok(()) => {
                dest.set(*self.get());
                assert(dest.elements() =~= self.elements());
                Ok(())
            },
            Err(e) => Err(e),
        }
    }
}

impl<T: Copy> Extent<T> for DeviceBox<T> {
    open spec fn elements(&self) -> Seq<T> {
        seq![self@]
    }

    open spec fn address(&self) -> usize {
        self.addr()
    }
}

impl<T: Copy> CopyDestination<T, DeviceBox<T>> for DeviceBox<T> {
    fn copy_from(&mut self, source: &DeviceBox<T>) -> (r: CudaResult<()>) {
        self.set(*source.get());
        assert(self.elements() =~= source.elements());
        Ok(())
    }

    fn copy_to(&self, dest: &mut DeviceBox<T>) -> (r: CudaResult<()>) {
        dest.set(*self.get());
        assert(dest.elements() =~= self.elements());
        Ok(())
    }
}

impl<T: Copy> AsyncCopyDestination<T, DeviceBox<T>> for DeviceBox<T> {
    fn async_copy_from(&mut self, source: &DeviceBox<T>, stream: &mut Stream) -> (r: CudaResult<()>) {
        match submit_copy(1, 1, stream) {
            Ok(()) => {
                self.set(*source.get());
                assert(self.elements() =~= source.elements());
                Ok(())
            },
            Err(e) => Err(e),
        }
    }

    fn async_copy_to(&self, dest: &mut DeviceBox<T>, stream: &mut Stream) -> (r: CudaResult<()>) {
        match submit_copy(1, 1, stream) {
            Ok(()) => {
                dest.set(*self.get());
                assert(dest.elements() =~= self.elements());
                Ok(())
            },
            Err(e) => Err(e),
        }
    }
}

impl<T: Copy> CopyDestination<T, UnifiedBox<T>> for DeviceBox<T> {
    fn copy_from(&mut self, source: &UnifiedBox<T>) -> (r: CudaResult<()>) {
        self.set(*source.get());
        assert(self.elements() =~= source.elements());
        Ok(())
    }

    fn copy_to(&self, dest: &mut UnifiedBox<T>) -> (r: CudaResult<()>) {
        dest.set(*self.get());
        assert(dest.elements() =~= self.elements());
        Ok(())
    }
}

impl<T: Copy> AsyncCopyDestination<T, UnifiedBox<T>> for DeviceBox<T> {
    fn async_copy_from(&mut self, source: &UnifiedBox<T>, stream: &mut Stream) -> (r: CudaResult<()>) {
        match submit_copy(1, 1, stream) {
            Ok(()) => {
                self.set(*source.get());
                assert(self.elements() =~= source.elements());
                Ok(())
            },
            Err(e) => Err(e),
        }
    }

    fn async_copy_to(&self, dest: &mut UnifiedBox<T>, stream: &mut Stream) -> (r: CudaResult<()>) {
        match submit_copy(1, 1, stream) {
            Ok(()) => {
                dest.set(*self.get());
                assert(dest.elements() =~= self.elements());
                Ok(())
            },
            Err(e) => Err(e),
        }
    }
}

impl<T: Copy> CopyDestination<T, DeviceBox<T>> for UnifiedBox<T> {
    fn copy_from(&mut self, source: &DeviceBox<T>) -> (r: CudaResult<()>) {
        self.set(*source.get());
        assert(self.elements() =~= source.elements());
        Ok(())
    }

    fn copy_to(&self, dest: &mut DeviceBox<T>) -> (r: CudaResult<()>) {
        dest.set(*self.get());
        assert(dest.elements() =~= self.elements());
        Ok(())
    }
}

impl<T: Copy> AsyncCopyDestination<T, DeviceBox<T>> for UnifiedBox<T> {
    fn async_copy_from(&mut self, source: &DeviceBox<T>, stream: &mut Stream) -> (r: CudaResult<()>) {
        match submit_copy(1, 1, stream) {
            Ok(()) => {
                self.set(*source.get());
                assert(self.elements() =~= source.elements());
                Ok(())
            },
            Err(e) => Err(e),
        }
    }

    fn async_copy_to(&self, dest: &mut DeviceBox<T>, stream: &mut Stream) -> (r: CudaResult<()>) {
        match submit_copy(1, 1, stream) {
            Ok(()) => {
                dest.set(*self.get());
                assert(dest.elements() =~= self.elements());
                Ok(())
            },
            Err(e) => Err(e),
        }
    }
}

impl<T: Copy> CopyDestination<T, LockedBox<T>> for DeviceBox<T> {
    fn copy_from(&mut self, source: &LockedBox<T>) -> (r: CudaResult<()>) {
        self.set(*source.get());
        assert(self.elements() =~= source.elements());
        Ok(())
    }

    fn copy_to(&self, dest: &mut LockedBox<T>) -> (r: CudaResult<()>) {
        dest.set(*self.get());
        assert(dest.elements() =~= self.elements());
        Ok(())
    }
}

impl<T: Copy> AsyncCopyDestination<T, LockedBox<T>> for DeviceBox<T> {
    fn async_copy_from(&mut self, source: &LockedBox<T>, stream: &mut Stream) -> (r: CudaResult<()>) {
        match submit_copy(1, 1, stream) {
            Ok(()) => {
                self.set(*source.get());
                assert(self.elements() =~= source.elements());
                Ok(())
            },
            Err(e) => Err(e),
        }
    }

    fn async_copy_to(&self, dest: &mut LockedBox<T>, stream: &mut Stream) -> (r: CudaResult<()>) {
        match submit_copy(1, 1, stream) {
            Ok(()) => {
                dest.set(*self.get());
                assert(dest.elements() =~= self.elements());
                Ok(())
            },
            Err(e) => Err(e),
        }
    }
}

impl<T: Copy> CopyDestination<T, DeviceBox<T>> for LockedBox<T> {
    fn copy_from(&mut self, source: &DeviceBox<T>) -> (r: CudaResult<()>) {
        self.set(*source.get());
        assert(self.elements() =~= source.elements());
        Ok(())
    }

    fn copy_to(&self, dest: &mut DeviceBox<T>) -> (r: CudaResult<()>) {
        dest.set(*self.get());
        assert(dest.elements() =~= self.elements());
        Ok(())
    }
}

impl<T: Copy> AsyncCopyDestination<T, DeviceBox<T>> for LockedBox<T> {
    fn async_copy_from(&mut self, source: &DeviceBox<T>, stream: &mut Stream) -> (r: CudaResult<()>) {
        match submit_copy(1, 1, stream) {
            Ok(()) => {
                self.set(*source.get());
                assert(self.elements() =~= source.elements());
                Ok(())
            },
            Err(e) => Err(e),
        }
    }

    fn async_copy_to(&self, dest: &mut DeviceBox<T>, stream: &mut Stream) -> (r: CudaResult<()>) {
        match submit_copy(1, 1, stream) {
            Ok(()) => {
                dest.set(*self.get());
                assert(dest.elements() =~= self.elements());
                Ok(())
            },
            Err(e) => Err(e),
        }
    }
}

} // verus!
