use vstd::prelude::*;

verus! {

/// What a sender leaves in the slot: a value for the worker, or the order to stop.
pub enum Message<T> {
    Value(T),
    Terminate,
}

/// What the slot holds after `sent` was put into it, in order, starting from
/// `start`, with no take in between.
pub open spec fn pending_after<T>(start: Option<Message<T>>, sent: Seq<Message<T>>) -> Option<Message<T>> {
    if sent.len() == 0 {
        start
    } else {
        Some(sent.last())
    }
}

/// A single-capacity cell holding at most one pending message.
///
/// Every write overwrites whatever is still pending: there is no queue, so a
/// fast producer coalesces into "latest wins".
pub struct Slot<T> {
    pending: Option<Message<T>>,
}

impl<T> View for Slot<T> {
    type V = Option<Message<T>>;

    closed spec fn view(&self) -> Option<Message<T>> {
        self.pending
    }
}

impl<T> Slot<T> {
    /// An empty slot.
    pub fn new() -> (s: Self)
        ensures
            s@ is None,
    {
        Slot { pending: None }
    }

    /// Leaves `msg` pending, discarding any message that was not taken yet.
    pub fn put(&mut self, msg: Message<T>)
        ensures
            final(self)@ == Some(msg),
    {
        self.pending = Some(msg);
    }

    /// Removes and returns the pending message, leaving the slot empty.
    pub fn take(&mut self) -> (r: Option<Message<T>>)
        ensures
            r == old(self)@,
            final(self)@ is None,
    {
        let r = self.pending.take();
        r
    }

    /// Whether a message is pending, without consuming it.
    pub fn is_pending(&self) -> (r: bool)
        ensures
            r == self@ is Some,
    {
        self.pending.is_some()
    }
}

} // verus!
