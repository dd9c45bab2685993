use vstd::prelude::*;

use crate::slot::{pending_after, Message};

verus! {

/// Where the receive loop stands between two takes from the slot.
pub enum Phase<T> {
    /// Waiting for a message to appear.
    Awaiting,
    /// Holding a value through a quiet period before delivering it.
    HoldingOff(T),
    /// Terminated: nothing is ever delivered again.
    Stopped,
}

/// What the loop asks its driver to do after a take.
pub enum Action<T> {
    /// Block on the wakeup signal, then take again.
    Wait,
    /// Sleep through the holdoff window, then take again.
    Sleep,
    /// Invoke the callback on this value, then take again.
    Deliver(T),
    /// Return from the loop.
    Stop,
}

/// The loop's next phase and action, given what a take from the slot returned.
pub open spec fn next<T>(phase: Phase<T>, holdoff: bool, taken: Option<Message<T>>) -> (Phase<T>, Action<T>) {
    match (phase, taken) {
        (Phase::Stopped, _) => (Phase::Stopped, Action::Stop),
        (_, Some(Message::Terminate)) => (Phase::Stopped, Action::Stop),
        (_, Some(Message::Value(v))) => if holdoff {
            (Phase::HoldingOff(v), Action::Sleep)
        } else {
            (Phase::Awaiting, Action::Deliver(v))
        },
        (Phase::Awaiting, None) => (Phase::Awaiting, Action::Wait),
        (Phase::HoldingOff(held), None) => (Phase::Awaiting, Action::Deliver(held)),
    }
}

/// The phase reached and the values delivered, in order, over a run of takes.
pub open spec fn run_takes<T>(phase: Phase<T>, holdoff: bool, takes: Seq<Option<Message<T>>>) -> (Phase<T>, Seq<T>)
    decreases takes.len(),
{
    if takes.len() == 0 {
        (phase, Seq::empty())
    } else {
        let (p, out) = run_takes(phase, holdoff, takes.drop_last());
        let (q, a) = next(p, holdoff, takes.last());
        match a {
            Action::Deliver(v) => (q, out.push(v)),
            _ => (q, out),
        }
    }
}

/// The decision core of the receive loop, with its debounce ("holdoff") policy.
///
/// A driver takes the slot's pending message under the lock, hands it to
/// `on_taken`, and performs the action returned.
pub struct RunLoop<T> {
    phase: Phase<T>,
    holdoff: bool,
}

impl<T> View for RunLoop<T> {
    type V = (Phase<T>, bool);

    closed spec fn view(&self) -> (Phase<T>, bool) {
        (self.phase, self.holdoff)
    }
}

impl<T> RunLoop<T> {
    /// A loop awaiting its first message; `holdoff` tells whether a debounce
    /// window is configured.
    pub fn new(holdoff: bool) -> (r: Self)
        ensures
            r@ == (Phase::<T>::Awaiting, holdoff),
    {
        RunLoop { phase: Phase::Awaiting, holdoff }
    }

    /// Whether the loop has terminated.
    pub fn is_stopped(&self) -> (r: bool)
        ensures
            r == self@.0 is Stopped,
    {
        match self.phase {
            Phase::Stopped => true,
            _ => false,
        }
    }

    /// Advances the loop on what a take from the slot returned.
    pub fn on_taken(&mut self, taken: Option<Message<T>>) -> (r: Action<T>)
        ensures
            (final(self)@.0, r) == next(old(self)@.0, old(self)@.1, taken),
            final(self)@.1 == old(self)@.1,
    {
        let mut phase = Phase::Stopped;
        core::mem::swap(&mut phase, &mut self.phase);
        let (p, a) = match (phase, taken) {
            (Phase::Stopped, _) => (Phase::Stopped, Action::Stop),
            (_, Some(Message::Terminate)) => (Phase::Stopped, Action::Stop),
            (_, Some(Message::Value(v))) => if self.holdoff {
                (Phase::HoldingOff(v), Action::Sleep)
            } else {
                (Phase::Awaiting, Action::Deliver(v))
            },
            (Phase::Awaiting, None) => (Phase::Awaiting, Action::Wait),
            (Phase::HoldingOff(held), None) => (Phase::Awaiting, Action::Deliver(held)),
        };
        self.phase = p;
        a
    }
}

/// Running `a` and then `b` is running `a + b`.
proof fn run_takes_compose<T>(phase: Phase<T>, holdoff: bool, a: Seq<Option<Message<T>>>, b: Seq<Option<Message<T>>>)
    ensures
        run_takes(phase, holdoff, a + b) == (
            run_takes(run_takes(phase, holdoff, a).0, holdoff, b).0,
            run_takes(phase, holdoff, a).1 + run_takes(run_takes(phase, holdoff, a).0, holdoff, b).1,
        ),
    decreases b.len(),
{
    if b.len() == 0 {
        assert(a + b =~= a);
        assert(run_takes(phase, holdoff, a).1 + Seq::<T>::empty() =~= run_takes(phase, holdoff, a).1);
    } else {
        run_takes_compose(phase, holdoff, a, b.drop_last());
        assert((a + b).drop_last() =~= a + b.drop_last());
        assert((a + b).last() == b.last());
        let mid = run_takes(phase, holdoff, a);
        let rb = run_takes(mid.0, holdoff, b.drop_last());
        let (q, act) = next(rb.0, holdoff, b.last());
        match act {
            Action::Deliver(v) => {
                assert(mid.1 + rb.1.push(v) =~= (mid.1 + rb.1).push(v));
            },
            _ => {},
        }
    }
}

/// A stopped loop stays stopped and delivers nothing, whatever it takes.
proof fn stopped_delivers_nothing<T>(holdoff: bool, takes: Seq<Option<Message<T>>>)
    ensures
        run_takes(Phase::Stopped, holdoff, takes) == (Phase::<T>::Stopped, Seq::<T>::empty()),
    decreases takes.len(),
{
    if takes.len() > 0 {
        stopped_delivers_nothing(holdoff, takes.drop_last());
    }
}

/// However fast values are sent, the take that follows a burst sees only the
/// latest one: a loop without holdoff delivers it alone, a loop with holdoff
/// holds it alone, whatever value it held before.
pub proof fn coalescing<T>(phase: Phase<T>, holdoff: bool, start: Option<Message<T>>, vals: Seq<T>)
    requires
        vals.len() > 0,
        !(phase is Stopped),
    ensures
        pending_after(start, vals.map_values(|v: T| Message::Value(v))) == Some(Message::Value(vals.last())),
        next(phase, holdoff, pending_after(start, vals.map_values(|v: T| Message::Value(v)))) == if holdoff {
            (Phase::HoldingOff(vals.last()), Action::<T>::Sleep)
        } else {
            (Phase::Awaiting, Action::Deliver(vals.last()))
        },
{
    let sent = vals.map_values(|v: T| Message::Value(v));
    assert(sent.last() == Message::Value(vals.last()));
}

/// Once the loop takes `Terminate`, in whatever phase, it stops and delivers
/// nothing more: the values delivered over a run of takes are those delivered
/// before the first `Terminate`.
pub proof fn terminate_is_final<T>(phase: Phase<T>, holdoff: bool, takes: Seq<Option<Message<T>>>, i: int)
    requires
        0 <= i < takes.len(),
        takes[i] == Some(Message::<T>::Terminate),
    ensures
        run_takes(phase, holdoff, takes).0 is Stopped,
        run_takes(phase, holdoff, takes).1 == run_takes(phase, holdoff, takes.take(i)).1,
{
    let pre = takes.take(i + 1);
    let rest = takes.subrange(i + 1, takes.len() as int);
    assert(pre + rest =~= takes);
    assert(pre.drop_last() =~= takes.take(i));
    run_takes_compose(phase, holdoff, pre, rest);
    stopped_delivers_nothing(holdoff, rest);
    let before = run_takes(phase, holdoff, takes.take(i)).1;
    assert(before + Seq::<T>::empty() =~= before);
}

/// A value held through a holdoff window is discarded when the window ends on
/// `Terminate`: whatever is taken afterwards, nothing is ever delivered.
pub proof fn holdoff_discards_on_terminate<T>(held: T, holdoff: bool, later: Seq<Option<Message<T>>>)
    ensures
        next(Phase::HoldingOff(held), holdoff, Some(Message::Terminate)) == (Phase::<T>::Stopped, Action::<T>::Stop),
        run_takes(Phase::HoldingOff(held), holdoff, seq![Some(Message::Terminate)] + later).1 == Seq::<T>::empty(),
{
    let takes = seq![Some(Message::Terminate)] + later;
    terminate_is_final(Phase::HoldingOff(held), holdoff, takes, 0);
    assert(takes.take(0) =~= Seq::<Option<Message<T>>>::empty());
}

} // verus!
