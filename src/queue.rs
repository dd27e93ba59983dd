//! The bounded FIFO that carries outcomes from the protocol handlers to the
//! dispatcher. Posting never waits: a message that finds the queue full is
//! dropped and the caller is told so.
use crate::operation::BluetoothOperation;
use std::collections::VecDeque;
use vstd::prelude::*;

verus! {

/// The capacity the firmware gives its operation queue.
pub const OPERATION_QUEUE_CAPACITY: usize = 5;

/// A bounded first-in first-out queue of outcomes.
pub struct OperationQueue {
    items: VecDeque<BluetoothOperation>,
    capacity: usize,
}

impl View for OperationQueue {
    type V = Seq<BluetoothOperation>;

    closed spec fn view(&self) -> Seq<BluetoothOperation> {
        self.items@
    }
}

impl OperationQueue {
    /// The most messages the queue holds at once.
    pub closed spec fn spec_capacity(&self) -> nat {
        self.capacity as nat
    }

    /// The queue never holds more than its capacity.
    pub closed spec fn wf(&self) -> bool {
        self.items@.len() <= self.capacity
    }

    /// An empty queue that holds at most `capacity` messages.
    pub fn new(capacity: usize) -> (q: OperationQueue)
        ensures
            q@ == Seq::<BluetoothOperation>::empty(),
            q.spec_capacity() == capacity,
            q.wf(),
    {
        OperationQueue { items: VecDeque::new(), capacity }
    }

    /// The number of messages waiting.
    pub fn len(&self) -> (r: usize)
        requires
            self.wf(),
        ensures
            r == self@.len(),
            r <= self.spec_capacity(),
    {
        self.items.len()
    }

    /// The capacity the queue was made with.
    pub fn capacity(&self) -> (r: usize)
        ensures
            r == self.spec_capacity(),
    {
        self.capacity
    }

    /// Whether no message is waiting.
    pub fn is_empty(&self) -> (r: bool)
        ensures
            r == (self@.len() == 0),
    {
        self.items.len() == 0
    }

    /// `after` is `before` with `op` appended when there was room
    /// (`accepted`), and `before` unchanged when it was full.
    pub open spec fn posts(
        before: OperationQueue,
        after: OperationQueue,
        op: BluetoothOperation,
        accepted: bool,
    ) -> bool {
        &&& accepted == (before@.len() < before.spec_capacity())
        &&& after@ == (if accepted { before@.push(op) } else { before@ })
        &&& after.spec_capacity() == before.spec_capacity()
        &&& after.wf()
    }

    /// Appends `op` at the back if there is room and returns true; on a full
    /// queue drops `op`, leaves the queue as it was and returns false.
    pub fn post(&mut self, op: BluetoothOperation) -> (r: bool)
        requires
            old(self).wf(),
        ensures
            OperationQueue::posts(*old(self), *final(self), op, r),
    {
        if self.items.len() < self.capacity {
            self.items.push_back(op);
            true
        } else {
            false
        }
    }

    /// Takes the oldest waiting message, if any.
    pub fn poll(&mut self) -> (r: Option<BluetoothOperation>)
        requires
            old(self).wf(),
        ensures
            final(self).wf(),
            old(self)@.len() == 0 ==> r.is_none() && final(self)@ == old(self)@,
            old(self)@.len() > 0 ==> r == Some(old(self)@[0]) && final(self)@ == old(
                self,
            )@.drop_first(),
            final(self).spec_capacity() == old(self).spec_capacity(),
    {
        self.items.pop_front()
    }
}

} // verus!
