//! What the node waits to send: at most one settings request, and captured
//! results in a bounded first-in first-out queue.
use vstd::prelude::*;
use crate::capture::{CaptureResult, Message};
use crate::queue::{BoundedQueue, offer};

verus! {

pub struct Outbox {
    requests: BoundedQueue<()>,
    uploads: BoundedQueue<CaptureResult>,
}

pub struct OutboxView {
    /// A settings request waits to be sent.
    pub request_pending: bool,
    pub uploads: Seq<CaptureResult>,
    pub capacity: nat,
}

impl View for Outbox {
    type V = OutboxView;

    closed spec fn view(&self) -> OutboxView {
        OutboxView {
            request_pending: self.requests@.len() > 0,
            uploads: self.uploads@,
            capacity: self.uploads.spec_capacity(),
        }
    }
}

impl Outbox {
    pub closed spec fn wf(&self) -> bool {
        self.requests.wf() && self.requests.spec_capacity() == 1 && self.uploads.wf()
    }

    /// An empty outbox that holds up to `queue` results.
    pub fn new(queue: usize) -> (r: Outbox)
        ensures
            r.wf(),
            !r@.request_pending,
            r@.uploads == Seq::<CaptureResult>::empty(),
            r@.capacity == queue,
    {
        Outbox { requests: BoundedQueue::new(1), uploads: BoundedQueue::new(queue) }
    }

    /// Queues a settings request unless one is already waiting; tells
    /// whether it was queued.
    pub fn request_settings(&mut self) -> (placed: bool)
        requires
            old(self).wf(),
        ensures
            final(self).wf(),
            placed == !old(self)@.request_pending,
            final(self)@.request_pending,
            final(self)@.uploads == old(self)@.uploads,
            final(self)@.capacity == old(self)@.capacity,
    {
        self.requests.push(())
    }

    /// Queues a result without waiting; a full queue drops it. Tells whether
    /// it was kept.
    pub fn upload(&mut self, result: CaptureResult) -> (kept: bool)
        requires
            old(self).wf(),
        ensures
            final(self).wf(),
            kept == (old(self)@.uploads.len() < old(self)@.capacity),
            final(self)@.uploads == offer(old(self)@.uploads, old(self)@.capacity, result),
            final(self)@.request_pending == old(self)@.request_pending,
            final(self)@.capacity == old(self)@.capacity,
    {
        self.uploads.push(result)
    }

    pub fn uploads_len(&self) -> (r: usize)
        ensures
            r == self@.uploads.len(),
    {
        self.uploads.len()
    }

    pub fn capacity(&self) -> (r: usize)
        ensures
            r == self@.capacity,
    {
        self.uploads.capacity()
    }

    pub fn is_empty(&self) -> (r: bool)
        ensures
            r == (!self@.request_pending && self@.uploads.len() == 0),
    {
        self.requests.len() == 0 && self.uploads.len() == 0
    }

    /// Takes the next message to send: a waiting settings request first,
    /// then the oldest result.
    pub fn next(&mut self) -> (r: Option<Message>)
        requires
            old(self).wf(),
        ensures
            final(self).wf(),
            final(self)@.capacity == old(self)@.capacity,
            old(self)@.request_pending ==> r == Some(Message::RequestSettings)
                && !final(self)@.request_pending
                && final(self)@.uploads == old(self)@.uploads,
            !old(self)@.request_pending && old(self)@.uploads.len() > 0 ==> r == Some(
                Message::Upload(old(self)@.uploads[0]))
                && !final(self)@.request_pending
                && final(self)@.uploads == old(self)@.uploads.drop_first(),
            !old(self)@.request_pending && old(self)@.uploads.len() == 0 ==> r is None
                && final(self)@ == old(self)@,
    {
        match self.requests.pop() {
            Some(_) => Some(Message::RequestSettings),
            None => match self.uploads.pop() {
                Some(u) => Some(Message::Upload(u)),
                None => None,
            },
        }
    }
}

} // verus!
