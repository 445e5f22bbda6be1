use vstd::prelude::*;

use crate::elements::copied;
use crate::error::{CudaError, CudaResult};

verus! {

/// What a [`Stream`] holds, as mathematical values.
pub ghost struct StreamView {
    /// Identifies the stream.
    pub id: u64,
    /// Operations submitted so far; the next one receives this ticket.
    pub submitted: nat,
    /// Tickets of submitted operations not yet completed, in submission order.
    pub queue: Seq<u64>,
}

impl StreamView {
    /// The stream can take one more operation.
    pub open spec fn can_enqueue(self) -> bool {
        self.submitted < u64::MAX
    }

    /// The stream after one more operation is submitted.
    pub open spec fn enqueued(self) -> StreamView {
        StreamView {
            submitted: self.submitted + 1,
            queue: self.queue.push(self.submitted as u64),
            ..self
        }
    }
}

/// An ordered queue of work on the accelerator. Operations on one stream
/// complete in the order they were submitted; operations on different
/// streams are not ordered with respect to each other.
#[derive(Debug)]
pub struct Stream {
    id: u64,
    submitted: u64,
    queue: Vec<u64>,
}

impl View for Stream {
    type V = StreamView;

    closed spec fn view(&self) -> StreamView {
        StreamView { id: self.id, submitted: self.submitted as nat, queue: self.queue@ }
    }
}

impl Stream {
    /// An empty stream named `id`.
    pub fn new(id: u64) -> (r: Stream)
        ensures
            r@.id == id,
            r@.submitted == 0,
            r@.queue.len() == 0,
    {
        Stream { id, submitted: 0, queue: Vec::new() }
    }

    /// The stream's name.
    pub fn id(&self) -> (r: u64)
        ensures
            r == self@.id,
    {
        self.id
    }

    /// Tickets of the operations not yet completed, in submission order.
    pub fn pending(&self) -> (r: &[u64])
        ensures
            r@ == self@.queue,
    {
        self.queue.as_slice()
    }

    /// Submits one operation and returns its ticket; fails with `OutOfMemory`,
    /// changing nothing, once the stream has run out of tickets.
    pub fn enqueue(&mut self) -> (r: CudaResult<u64>)
        ensures
            r is Ok <==> old(self)@.can_enqueue(),
            r matches Ok(t) ==> t == old(self)@.submitted && final(self)@ == old(
                self,
            )@.enqueued(),
            r matches Err(e) ==> e == CudaError::OutOfMemory && final(self)@ == old(self)@,
    {
        if self.submitted == u64::MAX {
            return Err(CudaError::OutOfMemory);
        }
        let t = self.submitted;
        self.queue.push(t);
        self.submitted = self.submitted + 1;
        Ok(t)
    }

    /// Waits for every submitted operation; returns their tickets in the
    /// order they completed, which is the order they were submitted.
    pub fn synchronize(&mut self) -> (r: Vec<u64>)
        ensures
            r@ == old(self)@.queue,
            final(self)@ == (StreamView { queue: Seq::empty(), ..old(self)@ }),
    {
        let done = copied(self.queue.as_slice());
        self.queue = Vec::new();
        done
    }
}

} // verus!
