use vstd::prelude::*;

use crate::stream::Stream;

verus! {

/// Elements of `dsts` after the pairwise copy from `srcs`: the first
/// `min(len)` positions take the source's elements, the rest stay.
pub open spec fn zip_copied(srcs: Seq<i32>, dsts: Seq<i32>) -> Seq<i32> {
    Seq::new(dsts.len(), |i: int| if i < srcs.len() { srcs[i] } else { dsts[i] })
}

/// What the work of a [`Promise`] may do, bound to the promise's stream. It
/// lives only for the call that resolves the promise.
#[derive(Debug)]
pub struct Executor {
    stream: u64,
}

impl Executor {
    /// The stream the executor's work belongs to.
    pub closed spec fn stream_id(&self) -> u64 {
        self.stream
    }

    /// An executor for the work of `stream`.
    pub fn from_stream(stream: &Stream) -> (r: Executor)
        ensures
            r.stream_id() == stream@.id,
    {
        Executor { stream: stream.id() }
    }

    /// Copies `srcs` into `dsts` position by position, as far as the shorter
    /// of the two reaches.
    pub fn copy(&self, srcs: &[i32], dsts: &mut [i32])
        ensures
            final(dsts)@ == zip_copied(srcs@, old(dsts)@),
    {
        let n: usize = if srcs.len() < dsts.len() {
            srcs.len()
        } else {
            dsts.len()
        };
        let mut i: usize = 0;
        while i < n
            invariant
                n <= srcs@.len(),
                n <= dsts@.len(),
                i <= n,
                n == srcs@.len() || n == dsts@.len(),
                dsts@.len() == old(dsts)@.len(),
                forall|j: int| 0 <= j < i ==> dsts@[j] == srcs@[j],
                forall|j: int| i <= j < dsts@.len() ==> dsts@[j] == old(dsts)@[j],
            decreases n - i,
        {
            dsts[i] = srcs[i];
            i = i + 1;
        }
        assert(dsts@ =~= zip_copied(srcs@, old(dsts)@));
    }
}

/// Work bound to a stream, run once by an explicit call to `execute`.
/// Dropping a promise that was not executed discards its work unrun.
#[derive(Debug)]
pub struct Promise<F> {
    stream: u64,
    f: F,
}

impl<F: FnOnce(&Executor)> Promise<F> {
    /// The stream the work is bound to.
    pub closed spec fn stream_id(&self) -> u64 {
        self.stream
    }

    /// The work.
    pub closed spec fn work(&self) -> F {
        self.f
    }

    /// Binds `f` to `stream`; nothing runs yet.
    pub fn new(stream: &Stream, f: F) -> (r: Promise<F>)
        ensures
            r.stream_id() == stream@.id,
            r.work() == f,
    {
        Promise { stream: stream.id(), f }
    }

    /// Runs the work, once, with an executor bound to the promise's stream,
    /// and consumes the promise.
    pub fn execute(self)
        requires
            forall|e: &Executor| #[trigger]
                e.stream_id() == self.stream_id() ==> call_requires(self.work(), (e,)),
        ensures
            exists|e: &Executor| #[trigger]
                e.stream_id() == self.stream_id() && call_ensures(self.work(), (e,), ()),
    {
        let executor = Executor { stream: self.stream };
        assert(executor.stream_id() == self.stream_id());
        let f = self.f;
        f(&executor);
    }
}

} // verus!
