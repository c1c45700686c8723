//! The queue that carries events from the main loop and the MIDI interrupt
//! to the audio interrupt.

use vstd::prelude::*;

verus! {

/// A queue of events. The firmware keeps it behind a critical section, so
/// that an interrupt and the main loop can both reach it; the queue itself
/// only keeps the events in order.
pub struct QueueThreadSafe<T> {
    items: Vec<T>,
}

impl<T> QueueThreadSafe<T> {
    /// The events waiting, oldest first.
    pub closed spec fn items(&self) -> Seq<T> {
        self.items@
    }

    /// An empty queue with room for `capacity` events before it grows.
    pub fn new(capacity: usize) -> (q: QueueThreadSafe<T>)
        ensures
            q.items() == Seq::<T>::empty(),
    {
        QueueThreadSafe { items: Vec::with_capacity(capacity) }
    }

    /// Adds an event at the end.
    pub fn enque(&mut self, item: T)
        ensures
            final(self).items() == old(self).items().push(item),
    {
        self.items.push(item);
    }

    /// Moves all the waiting events, in order, to the end of `items`.
    pub fn deque_all(&mut self, items: &mut Vec<T>)
        ensures
            final(items)@ == old(items)@ + old(self).items(),
            final(self).items() == Seq::<T>::empty(),
    {
        items.append(&mut self.items);
    }
}

/// The queue's contents after `enque` has been called with each of `events`
/// in turn, starting from `items`.
pub open spec fn after_enqueues<T>(items: Seq<T>, events: Seq<T>) -> Seq<T>
    decreases events.len(),
{
    if events.len() == 0 {
        items
    } else {
        after_enqueues(items, events.drop_last()).push(events.last())
    }
}

/// Every event is handed out once, in the order it came: after `events` are
/// queued one by one behind `items`, the next `deque_all` hands out `items`
/// and then `events`, and leaves the queue empty for the next drain.
pub proof fn lemma_queue_hands_out_in_order<T>(items: Seq<T>, events: Seq<T>)
    ensures
        after_enqueues(items, events) == items + events,
    decreases events.len(),
{
    if events.len() > 0 {
        lemma_queue_hands_out_in_order(items, events.drop_last());
        assert(items + events =~= (items + events.drop_last()).push(events.last()));
    } else {
        assert(items + events =~= items);
    }
}

} // verus!
