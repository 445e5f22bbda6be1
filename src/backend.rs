use vstd::prelude::*;

use crate::error::{CudaError, CudaResult};

verus! {

/// Address that designates no allocation.
pub const NULL_ADDR: usize = 0;

/// Non-null address held by handles that own no storage (zero elements, or
/// elements of a zero-sized type); it never names an allocation.
pub const DANGLING_ADDR: usize = 1;

/// Address of the first allocation; allocation `i` lives at `FIRST_ADDR + i`.
pub const FIRST_ADDR: usize = 2;

/// The memory regions of an accelerator.
#[derive(Clone, Copy, Debug, PartialEq, Eq, Structural)]
pub enum MemoryKind {
    /// Device-exclusive memory: the host reaches it only by copies.
    Device,
    /// Page-locked host memory, visible to the device.
    Locked,
    /// Unified memory, migrated between host and device on demand.
    Unified,
}

impl MemoryKind {
    pub open spec fn spec_host_accessible(self) -> bool {
        !(self is Device)
    }

    /// Whether host code may read and write this region directly.
    pub fn is_host_accessible(&self) -> (r: bool)
        ensures
            r == self.spec_host_accessible(),
    {
        match self {
            MemoryKind::Device => false,
            _ => true,
        }
    }
}

/// Lifecycle of one allocation in the owner table.
#[derive(Clone, Copy, Debug, PartialEq, Eq, Structural)]
pub enum AllocState {
    /// Owned and releasable.
    Live,
    /// Handed out for the rest of the process: never released.
    Leaked,
    /// Released; the address is never handed out again.
    Freed,
}

/// One entry of the owner table.
#[derive(Clone, Copy, Debug, PartialEq, Eq, Structural)]
pub struct Allocation {
    pub kind: MemoryKind,
    pub bytes: usize,
    pub state: AllocState,
}

/// Bytes an allocation holds: all of them until it is freed.
pub open spec fn held(a: Allocation) -> nat {
    if a.state is Freed {
        0
    } else {
        a.bytes as nat
    }
}

/// Bytes held by all allocations of a table.
pub open spec fn held_bytes(s: Seq<Allocation>) -> nat
    decreases s.len(),
{
    if s.len() == 0 {
        0
    } else {
        held_bytes(s.drop_last()) + held(s.last())
    }
}

proof fn lemma_held_push(s: Seq<Allocation>, a: Allocation)
    ensures
        held_bytes(s.push(a)) == held_bytes(s) + held(a),
{
    assert(s.push(a).drop_last() =~= s);
}

proof fn lemma_held_update(s: Seq<Allocation>, i: int, a: Allocation)
    requires
        0 <= i < s.len(),
    ensures
        held_bytes(s.update(i, a)) + held(s[i]) == held_bytes(s) + held(a),
    decreases s.len(),
{
    if i == s.len() - 1 {
        assert(s.update(i, a).drop_last() =~= s.drop_last());
    } else {
        assert(s.update(i, a).drop_last() =~= s.drop_last().update(i, a));
        lemma_held_update(s.drop_last(), i, a);
    }
}

/// What a [`Backend`] holds, as mathematical values.
pub ghost struct BackendView {
    /// The owner table; entry `i` is the allocation at address `FIRST_ADDR + i`.
    pub allocations: Seq<Allocation>,
    /// Bytes the runtime can hold at once.
    pub capacity: nat,
    /// Bytes held by allocations that are not freed.
    pub in_use: nat,
    /// Error of earlier asynchronous work that the next release reports.
    pub pending: Option<CudaError>,
}

impl BackendView {
    /// Table index of an address, when it names an allocation.
    pub open spec fn index_of(self, addr: usize) -> int {
        addr - FIRST_ADDR
    }

    /// `addr` names a live allocation of region `kind`.
    pub open spec fn is_live(self, kind: MemoryKind, addr: usize) -> bool {
        &&& FIRST_ADDR <= addr
        &&& self.index_of(addr) < self.allocations.len()
        &&& self.allocations[self.index_of(addr)].kind == kind
        &&& self.allocations[self.index_of(addr)].state is Live
    }

    /// An allocation of `bytes` bytes fits in what is left, and the table has
    /// an address for it.
    pub open spec fn can_allocate(self, bytes: nat) -> bool {
        &&& self.in_use + bytes <= self.capacity
        &&& FIRST_ADDR + self.allocations.len() < usize::MAX
    }

    /// Address that the next allocation receives.
    pub open spec fn next_addr(self) -> int {
        FIRST_ADDR + self.allocations.len()
    }

    /// The table after a new live allocation.
    pub open spec fn allocated(self, kind: MemoryKind, bytes: usize) -> BackendView {
        BackendView {
            allocations: self.allocations.push(Allocation { kind, bytes, state: AllocState::Live }),
            in_use: self.in_use + bytes as nat,
            ..self
        }
    }

    /// The table after the allocation at `addr` moves to `state`.
    pub open spec fn with_state(self, addr: usize, state: AllocState) -> BackendView {
        let i = self.index_of(addr);
        let a = self.allocations[i];
        BackendView {
            allocations: self.allocations.update(i, Allocation { state, ..a }),
            in_use: (self.in_use - held(a) + held(Allocation { state, ..a })) as nat,
            ..self
        }
    }
}

/// Outcome of releasing the allocation of region `kind` at `addr`: an error of
/// earlier asynchronous work comes first and is cleared; then an address that
/// names no live allocation of `kind` is refused; else the allocation is freed.
pub open spec fn freed(
    pre: BackendView,
    post: BackendView,
    kind: MemoryKind,
    addr: usize,
    r: CudaResult<()>,
) -> bool {
    match pre.pending {
        Some(e) => r == Err::<(), CudaError>(e) && post == (BackendView { pending: None, ..pre }),
        None => if pre.is_live(kind, addr) {
            r is Ok && post == pre.with_state(addr, AllocState::Freed)
        } else {
            r == Err::<(), CudaError>(CudaError::InvalidValue) && post == pre
        },
    }
}

/// Outcome of asking for storage of one value of `elem` bytes in region
/// `kind`: a zero-sized value needs no storage and gets the null address
/// without a call to the runtime.
pub open spec fn value_allocated(
    pre: BackendView,
    post: BackendView,
    kind: MemoryKind,
    elem: nat,
    r: CudaResult<usize>,
) -> bool {
    if elem == 0 {
        r == Ok::<usize, CudaError>(NULL_ADDR) && post == pre
    } else if pre.can_allocate(elem) {
        r == Ok::<usize, CudaError>(pre.next_addr() as usize) && post == pre.allocated(
            kind,
            elem as usize,
        )
    } else {
        r == Err::<usize, CudaError>(CudaError::OutOfMemory) && post == pre
    }
}

/// Outcome of asking for storage of `count` values of `elem` bytes each in
/// region `kind`: a byte count that overflows `usize` is refused before the
/// runtime is called; zero bytes need no storage and get the dangling address.
pub open spec fn array_allocated(
    pre: BackendView,
    post: BackendView,
    kind: MemoryKind,
    count: nat,
    elem: nat,
    r: CudaResult<usize>,
) -> bool {
    let bytes = count * elem;
    if bytes > usize::MAX {
        r == Err::<usize, CudaError>(CudaError::InvalidMemoryAllocation) && post == pre
    } else if bytes == 0 {
        r == Ok::<usize, CudaError>(DANGLING_ADDR) && post == pre
    } else if pre.can_allocate(bytes) {
        r == Ok::<usize, CudaError>(pre.next_addr() as usize) && post == pre.allocated(
            kind,
            bytes as usize,
        )
    } else {
        r == Err::<usize, CudaError>(CudaError::OutOfMemory) && post == pre
    }
}

/// Outcome of releasing a single-value handle at `addr` in region `kind`: the
/// null address of a zero-sized value releases nothing.
pub open spec fn value_released(
    pre: BackendView,
    post: BackendView,
    kind: MemoryKind,
    addr: usize,
    r: CudaResult<()>,
) -> bool {
    if addr == NULL_ADDR {
        r is Ok && post == pre
    } else {
        freed(pre, post, kind, addr, r)
    }
}

/// Outcome of releasing a buffer at `addr` of `count` elements of `elem`
/// bytes in region `kind`: a buffer that owns no storage releases nothing.
pub open spec fn buffer_released(
    pre: BackendView,
    post: BackendView,
    kind: MemoryKind,
    addr: usize,
    count: nat,
    elem: nat,
    r: CudaResult<()>,
) -> bool {
    if addr == NULL_ADDR || count == 0 || elem == 0 {
        r is Ok && post == pre
    } else {
        freed(pre, post, kind, addr, r)
    }
}

/// Storage for one value of `elem` bytes in region `kind`.
pub fn allocate_value(mem: &mut Backend, kind: MemoryKind, elem: usize) -> (r: CudaResult<usize>)
    requires
        old(mem).wf(),
    ensures
        final(mem).wf(),
        value_allocated(old(mem)@, final(mem)@, kind, elem as nat, r),
{
    if elem == 0 {
        Ok(NULL_ADDR)
    } else {
        mem.allocate(kind, elem)
    }
}

/// Storage for `count` values of `elem` bytes each in region `kind`.
pub fn allocate_array(mem: &mut Backend, kind: MemoryKind, count: usize, elem: usize) -> (r:
    CudaResult<usize>)
    requires
        old(mem).wf(),
    ensures
        final(mem).wf(),
        array_allocated(old(mem)@, final(mem)@, kind, count as nat, elem as nat, r),
{
    let bytes = match count.checked_mul(elem) {
        Some(b) => b,
        None => {
            return Err(CudaError::InvalidMemoryAllocation);
        },
    };
    if bytes == 0 {
        Ok(DANGLING_ADDR)
    } else {
        mem.allocate(kind, bytes)
    }
}

/// The accelerator runtime's allocation primitives, kept on the host as an
/// owner table: every allocation, its region, its size and whether it is
/// still held. Release reports the error of earlier asynchronous work first,
/// as the runtime does.
pub struct Backend {
    allocations: Vec<Allocation>,
    capacity: usize,
    in_use: usize,
    pending: Option<CudaError>,
}

impl View for Backend {
    type V = BackendView;

    closed spec fn view(&self) -> BackendView {
        BackendView {
            allocations: self.allocations@,
            capacity: self.capacity as nat,
            in_use: self.in_use as nat,
            pending: self.pending,
        }
    }
}

impl Backend {
    /// The table's bookkeeping is consistent.
    pub closed spec fn wf(&self) -> bool {
        &&& self.in_use as nat == held_bytes(self.allocations@)
        &&& self.in_use <= self.capacity
    }

    /// A runtime that can hold `capacity` bytes at once, with nothing allocated.
    pub fn new(capacity: usize) -> (r: Backend)
        ensures
            r.wf(),
            r@.allocations.len() == 0,
            r@.capacity == capacity,
            r@.in_use == 0,
            r@.pending is None,
    {
        Backend { allocations: Vec::new(), capacity, in_use: 0, pending: None }
    }

    /// Bytes held by allocations that are not freed.
    pub fn in_use(&self) -> (r: usize)
        ensures
            r == self@.in_use,
    {
        self.in_use
    }

    /// Number of allocations ever made.
    pub fn allocation_count(&self) -> (r: usize)
        ensures
            r == self@.allocations.len(),
    {
        self.allocations.len()
    }

    /// Whether `addr` names a live allocation of region `kind`.
    pub fn is_live(&self, kind: MemoryKind, addr: usize) -> (r: bool)
        ensures
            r == self@.is_live(kind, addr),
    {
        if addr < FIRST_ADDR || addr - FIRST_ADDR >= self.allocations.len() {
            false
        } else {
            let a = self.allocations[addr - FIRST_ADDR];
            a.kind == kind && a.state == AllocState::Live
        }
    }

    /// Records the failure of earlier asynchronous work; the next release
    /// reports it.
    pub fn report_async_error(&mut self, e: CudaError)
        requires
            old(self).wf(),
        ensures
            final(self).wf(),
            final(self)@ == (BackendView { pending: Some(e), ..old(self)@ }),
    {
        self.pending = Some(e);
    }

    /// Allocates `bytes` bytes of region `kind` and returns its address.
    pub fn allocate(&mut self, kind: MemoryKind, bytes: usize) -> (r: CudaResult<usize>)
        requires
            old(self).wf(),
            bytes > 0,
        ensures
            final(self).wf(),
            r is Ok <==> old(self)@.can_allocate(bytes as nat),
            r matches Ok(a) ==> a == old(self)@.next_addr() && final(self)@ == old(
                self,
            )@.allocated(kind, bytes),
            r matches Err(e) ==> e == CudaError::OutOfMemory && final(self)@ == old(self)@,
    {
        if bytes > self.capacity - self.in_use || self.allocations.len() >= usize::MAX
            - FIRST_ADDR {
            return Err(CudaError::OutOfMemory);
        }
        let addr = FIRST_ADDR + self.allocations.len();
        let a = Allocation { kind, bytes, state: AllocState::Live };
        proof {
            lemma_held_push(self.allocations@, a);
        }
        self.allocations.push(a);
        self.in_use = self.in_use + bytes;
        Ok(addr)
    }

    /// Moves the live allocation at `addr` to `state`.
    fn set_state(&mut self, addr: usize, state: AllocState)
        requires
            old(self).wf(),
            FIRST_ADDR <= addr,
            addr - FIRST_ADDR < old(self)@.allocations.len(),
            old(self)@.allocations[addr - FIRST_ADDR].state is Live,
        ensures
            final(self).wf(),
            final(self)@ == old(self)@.with_state(addr, state),
    {
        let i = addr - FIRST_ADDR;
        let a = self.allocations[i];
        let b = Allocation { state, ..a };
        proof {
            lemma_held_update(self.allocations@, i as int, b);
        }
        self.allocations.set(i, b);
        if state == AllocState::Freed {
            self.in_use = self.in_use - a.bytes;
        }
    }

    /// Releases the allocation of region `kind` at `addr`. An error of earlier
    /// asynchronous work is reported first, and the allocation stays live; an
    /// address that names no live allocation of `kind` is refused.
    pub fn free(&mut self, kind: MemoryKind, addr: usize) -> (r: CudaResult<()>)
        requires
            old(self).wf(),
        ensures
            final(self).wf(),
            freed(old(self)@, final(self)@, kind, addr, r),
    {
        if let Some(e) = self.pending {
            self.pending = None;
            return Err(e);
        }
        if !self.is_live(kind, addr) {
            return Err(CudaError::InvalidValue);
        }
        self.set_state(addr, AllocState::Freed);
        Ok(())
    }

    /// Marks the live allocation of region `kind` at `addr` as held for the
    /// rest of the process: it is never released. Any other address is left
    /// as it is.
    pub fn leak(&mut self, kind: MemoryKind, addr: usize)
        requires
            old(self).wf(),
        ensures
            final(self).wf(),
            old(self)@.is_live(kind, addr) ==> final(self)@ == old(self)@.with_state(
                addr,
                AllocState::Leaked,
            ),
            !old(self)@.is_live(kind, addr) ==> final(self)@ == old(self)@,
    {
        if self.is_live(kind, addr) {
            self.set_state(addr, AllocState::Leaked);
        }
    }
}

} // verus!
