//! The in-thread queue through which work is deferred out of callbacks.

use vstd::prelude::*;
use std::collections::VecDeque;

verus! {

/// A first-in first-out queue. Posting never runs the receiver: what is sent
/// during a callback waits until the dispatcher next drains the queue.
pub struct EventLoopBus<T> {
    queue: VecDeque<T>,
}

impl<T> View for EventLoopBus<T> {
    type V = Seq<T>;

    /// The queued items, oldest first.
    closed spec fn view(&self) -> Seq<T> {
        self.queue@
    }
}

impl<T> EventLoopBus<T> {
    pub fn new() -> (bus: Self)
        ensures
            bus@ == Seq::<T>::empty(),
    {
        EventLoopBus { queue: VecDeque::new() }
    }

    /// Appends `item` behind everything already queued.
    pub fn send(&mut self, item: T)
        ensures
            final(self)@ == old(self)@.push(item),
    {
        self.queue.push_back(item);
    }

    /// Takes the oldest item, or `None` when the queue is empty.
    pub fn recv(&mut self) -> (item: Option<T>)
        ensures
            item is None <==> old(self)@.len() == 0,
            item is None ==> final(self)@ == old(self)@,
            item matches Some(head) ==> head == old(self)@[0] && final(self)@ == old(self)@.skip(1),
    {
        self.queue.pop_front()
    }

    pub fn len(&self) -> (n: usize)
        ensures
            n == self@.len(),
    {
        self.queue.len()
    }

    pub fn is_empty(&self) -> (empty: bool)
        ensures
            empty <==> self@.len() == 0,
    {
        self.queue.len() == 0
    }
}

} // verus!
