//! Properties that relate several operations of the library.
use vstd::prelude::*;
use vstd::std_specs::cmp::{PartialEqSpec, PartialOrdSpec};

use crate::backend::{
    array_allocated, value_allocated, value_released, BackendView, MemoryKind, NULL_ADDR,
};
use crate::error::{CudaError, CudaResult};
use crate::locked_box::LockedBox;
use crate::pointer::UnifiedPointer;
use crate::stream::StreamView;
use crate::unified_box::UnifiedBox;
use crate::unified_buffer::UnifiedBuffer;

verus! {

/// `s` after writing `vals[i]` at each index `i < k`, in order.
pub open spec fn written<T>(s: Seq<T>, vals: Seq<T>, k: nat) -> Seq<T>
    decreases k,
{
    if k == 0 {
        s
    } else {
        written(s, vals, (k - 1) as nat).update(k - 1, vals[k - 1])
    }
}

/// A zero-sized value takes no allocation: the runtime is not called, and the
/// handle holds the null address. Releasing that handle succeeds and leaves
/// the runtime as it was.
pub proof fn lemma_zero_sized_value(
    pre: BackendView,
    post: BackendView,
    kind: MemoryKind,
    r: CudaResult<usize>,
    post2: BackendView,
    r2: CudaResult<()>,
)
    requires
        value_allocated(pre, post, kind, 0, r),
        value_released(post, post2, kind, NULL_ADDR, r2),
    ensures
        r == Ok::<usize, CudaError>(NULL_ADDR),
        post == pre,
        r2 is Ok,
        post2 == pre,
{
}

/// Writing every element of a buffer of `n` elements, one index after the
/// other, leaves exactly the written values: each write touches its own
/// element and no other.
pub proof fn lemma_written_elements<T>(s: Seq<T>, vals: Seq<T>)
    requires
        s.len() == vals.len(),
    ensures
        written(s, vals, s.len()) == vals,
{
    lemma_written_prefix(s, vals, s.len());
    assert(written(s, vals, s.len()) =~= vals);
}

proof fn lemma_written_prefix<T>(s: Seq<T>, vals: Seq<T>, k: nat)
    requires
        s.len() == vals.len(),
        k <= s.len(),
    ensures
        written(s, vals, k).len() == s.len(),
        forall|i: int| 0 <= i < k ==> #[trigger] written(s, vals, k)[i] == vals[i],
        forall|i: int| k <= i < s.len() ==> #[trigger] written(s, vals, k)[i] == s[i],
    decreases k,
{
    if k > 0 {
        lemma_written_prefix(s, vals, (k - 1) as nat);
    }
}

/// A buffer request whose byte count overflows `usize` is refused with
/// `InvalidMemoryAllocation`, and the runtime is left as it was.
pub proof fn lemma_overflow_refused(
    pre: BackendView,
    post: BackendView,
    kind: MemoryKind,
    count: nat,
    elem: nat,
    r: CudaResult<usize>,
)
    requires
        count * elem > usize::MAX,
        array_allocated(pre, post, kind, count, elem, r),
    ensures
        r == Err::<usize, CudaError>(CudaError::InvalidMemoryAllocation),
        post == pre,
{
}

/// Two unified handles compare, for equality and for order, as their values do.
pub proof fn lemma_unified_box_compares_values<T: Copy + PartialOrd + PartialEqSpec + PartialOrdSpec>(
    a: UnifiedBox<T>,
    b: UnifiedBox<T>,
)
    ensures
        UnifiedBox::<T>::obeys_eq_spec() == T::obeys_eq_spec(),
        a.eq_spec(&b) == a@.eq_spec(&b@),
        UnifiedBox::<T>::obeys_partial_cmp_spec() == T::obeys_partial_cmp_spec(),
        a.partial_cmp_spec(&b) == a@.partial_cmp_spec(&b@),
{
}

/// Two page-locked handles compare, for equality and for order, as their
/// values do.
pub proof fn lemma_locked_box_compares_values<T: Copy + PartialOrd + PartialEqSpec + PartialOrdSpec>(
    a: LockedBox<T>,
    b: LockedBox<T>,
)
    ensures
        LockedBox::<T>::obeys_eq_spec() == T::obeys_eq_spec(),
        a.eq_spec(&b) == a@.eq_spec(&b@),
        LockedBox::<T>::obeys_partial_cmp_spec() == T::obeys_partial_cmp_spec(),
        a.partial_cmp_spec(&b) == a@.partial_cmp_spec(&b@),
{
}

/// Taking a buffer's token and its length and rebuilding a buffer from them
/// gives the same address and the same elements.
pub proof fn lemma_raw_parts_round_trip<T: Copy>(
    b: UnifiedBuffer<T>,
    p: UnifiedPointer<T>,
    r: UnifiedBuffer<T>,
)
    requires
        p.addr() == b.addr(),
        p@ == b@,
        r.addr() == p.addr(),
        r@ == p@,
    ensures
        r.addr() == b.addr(),
        r@ == b@,
        r@.len() == b@.len(),
{
}

/// Two operations submitted one after the other to a stream complete in
/// that order, after everything submitted before them.
pub proof fn lemma_stream_order(s: StreamView)
    requires
        s.can_enqueue(),
        s.enqueued().can_enqueue(),
    ensures
        s.enqueued().enqueued().queue == s.queue.push(s.submitted as u64).push(
            (s.submitted + 1) as u64,
        ),
        s.enqueued().enqueued().queue.len() == s.queue.len() + 2,
        s.enqueued().enqueued().queue[s.queue.len() as int] == s.submitted as u64,
        s.enqueued().enqueued().queue[s.queue.len() as int + 1] == (s.submitted + 1) as u64,
{
}

} // verus!
