use vstd::prelude::*;

verus! {

/// The latch's state after one poll that saw whether a message was pending.
pub open spec fn after_poll(set: bool, pending: bool) -> bool {
    set || pending
}

/// The latch's state after a run of polls, `seen[i]` being what poll `i` saw.
pub open spec fn after_polls(start: bool, seen: Seq<bool>) -> bool
    decreases seen.len(),
{
    if seen.len() == 0 {
        start
    } else {
        after_poll(after_polls(start, seen.drop_last()), seen.last())
    }
}

/// The cached answer of an interruption check.
///
/// Once a poll has seen a pending message, the latch stays set for the rest of
/// the callback invocation it belongs to, whatever the slot holds afterwards.
pub struct Latch {
    set: bool,
}

impl View for Latch {
    type V = bool;

    closed spec fn view(&self) -> bool {
        self.set
    }
}

impl Latch {
    /// A latch that has not seen any pending message.
    pub fn new() -> (l: Self)
        ensures
            l@ == false,
    {
        Latch { set: false }
    }

    /// A latch in the state `set`, as loaded from a shared flag.
    pub fn from_flag(set: bool) -> (l: Self)
        ensures
            l@ == set,
    {
        Latch { set }
    }

    /// Whether the latch is set: then no peek at the slot is needed.
    pub fn is_set(&self) -> (r: bool)
        ensures
            r == self@,
    {
        self.set
    }

    /// Records one peek at the slot and answers whether the work is interrupted.
    pub fn poll(&mut self, pending: bool) -> (r: bool)
        ensures
            r == after_poll(old(self)@, pending),
            final(self)@ == r,
    {
        if !self.set && pending {
            self.set = true;
        }
        self.set
    }
}

/// Once a latch is set, every later poll answers `true`, whatever it sees,
/// including an empty slot.
pub proof fn latch_stays_set(start: bool, seen: Seq<bool>)
    requires
        start,
    ensures
        forall|k: int| 0 <= k <= seen.len() ==> #[trigger] after_polls(start, seen.take(k)),
    decreases seen.len(),
{
    if seen.len() > 0 {
        latch_stays_set(start, seen.drop_last());
        assert forall|k: int| 0 <= k <= seen.len() implies #[trigger] after_polls(start, seen.take(k)) by {
            if k < seen.len() {
                assert(seen.take(k) =~= seen.drop_last().take(k));
            } else {
                let n = seen.drop_last().len() as int;
                assert(seen.drop_last().take(n) =~= seen.drop_last());
                assert(after_polls(start, seen.drop_last().take(n)));
                assert(seen.take(k) =~= seen);
            }
        }
    } else {
        assert(seen.take(0) =~= seen);
    }
}

/// A latch that answered `true` once answers `true` on every later poll of the
/// same invocation.
pub proof fn latch_idempotent(start: bool, seen: Seq<bool>, i: int, j: int)
    requires
        0 <= i <= j <= seen.len(),
        after_polls(start, seen.take(i)),
    ensures
        after_polls(start, seen.take(j)),
{
    latch_stays_set(after_polls(start, seen.take(i)), seen.subrange(i, seen.len() as int));
    polls_compose(start, seen.take(i), seen.subrange(i, j));
    assert(seen.take(i) + seen.subrange(i, j) =~= seen.take(j));
    assert(seen.subrange(i, seen.len() as int).take(j - i) =~= seen.subrange(i, j));
}

/// Polling `a` and then `b` is polling `a + b`.
proof fn polls_compose(start: bool, a: Seq<bool>, b: Seq<bool>)
    ensures
        after_polls(after_polls(start, a), b) == after_polls(start, a + b),
    decreases b.len(),
{
    if b.len() == 0 {
        assert(a + b =~= a);
    } else {
        polls_compose(start, a, b.drop_last());
        assert((a + b).drop_last() =~= a + b.drop_last());
    }
}

} // verus!
