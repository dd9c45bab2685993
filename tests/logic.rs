use waker_interrupter::{Action, Latch, Message, RunLoop, Slot};

/// Drives the loop on a virtual clock: `events` are `(time, Some(value))` for a
/// send and `(time, None)` for a terminate, in time order. The callback takes
/// no time. Returns the values delivered.
fn simulate(holdoff: Option<u64>, events: &[(u64, Option<i32>)]) -> Vec<i32> {
    let mut slot = Slot::new();
    let mut machine = RunLoop::new(holdoff.is_some());
    let mut now: u64 = 0;
    let mut next_event: usize = 0;
    let mut delivered = Vec::new();
    loop {
        while next_event < events.len() && events[next_event].0 <= now {
            match events[next_event].1 {
                Some(v) => slot.put(Message::Value(v)),
                None => slot.put(Message::Terminate),
            }
            next_event += 1;
        }
        match machine.on_taken(slot.take()) {
            Action::Wait => {
                assert!(next_event < events.len(), "the loop would wait forever");
                now = events[next_event].0;
            }
            Action::Sleep => now += holdoff.unwrap(),
            Action::Deliver(v) => delivered.push(v),
            Action::Stop => return delivered,
        }
    }
}

fn delivered(action: Action<i32>) -> Option<i32> {
    match action {
        Action::Deliver(v) => Some(v),
        _ => None,
    }
}

#[test]
fn slot_starts_empty() {
    let mut slot: Slot<i32> = Slot::new();
    assert!(!slot.is_pending());
    assert!(slot.take().is_none());
}

#[test]
fn slot_put_overwrites() {
    let mut slot = Slot::new();
    slot.put(Message::Value(1));
    slot.put(Message::Value(2));
    assert!(slot.is_pending());
    assert!(matches!(slot.take(), Some(Message::Value(2))));
    assert!(!slot.is_pending());
    assert!(slot.take().is_none());
}

#[test]
fn slot_terminate_overwrites_value_and_back() {
    let mut slot = Slot::new();
    slot.put(Message::Value(7));
    slot.put(Message::Terminate);
    assert!(matches!(slot.take(), Some(Message::Terminate)));
    slot.put(Message::Terminate);
    slot.put(Message::Value(8));
    assert!(matches!(slot.take(), Some(Message::Value(8))));
}

#[test]
fn slot_peek_does_not_consume() {
    let mut slot = Slot::new();
    slot.put(Message::Value(3));
    assert!(slot.is_pending());
    assert!(slot.is_pending());
    assert!(matches!(slot.take(), Some(Message::Value(3))));
}

#[test]
fn coalescing_delivers_last_only() {
    let mut slot = Slot::new();
    slot.put(Message::Value(1));
    slot.put(Message::Value(2));
    slot.put(Message::Value(3));
    let mut machine = RunLoop::new(false);
    assert_eq!(delivered(machine.on_taken(slot.take())), Some(3));
    assert!(matches!(machine.on_taken(slot.take()), Action::Wait));
}

#[test]
fn coalescing_timeline() {
    let events = [(0, Some(1)), (0, Some(2)), (0, Some(3)), (10, None)];
    assert_eq!(simulate(None, &events), vec![3]);
}

#[test]
fn loop_waits_when_empty() {
    let mut machine: RunLoop<i32> = RunLoop::new(false);
    assert!(matches!(machine.on_taken(None), Action::Wait));
    assert!(!machine.is_stopped());
}

#[test]
fn terminate_stops_at_once() {
    let mut machine: RunLoop<i32> = RunLoop::new(true);
    assert!(matches!(machine.on_taken(Some(Message::Terminate)), Action::Stop));
    assert!(machine.is_stopped());
    assert!(matches!(machine.on_taken(Some(Message::Value(5))), Action::Stop));
    assert!(matches!(machine.on_taken(None), Action::Stop));
}

#[test]
fn holdoff_sleeps_then_delivers_on_quiet() {
    let mut machine = RunLoop::new(true);
    assert!(matches!(machine.on_taken(Some(Message::Value(4))), Action::Sleep));
    assert!(matches!(machine.on_taken(Some(Message::Value(5))), Action::Sleep));
    assert_eq!(delivered(machine.on_taken(None)), Some(5));
    assert!(matches!(machine.on_taken(None), Action::Wait));
}

#[test]
fn holdoff_discards_held_value_on_terminate() {
    let mut machine = RunLoop::new(true);
    assert!(matches!(machine.on_taken(Some(Message::Value(9))), Action::Sleep));
    assert!(matches!(machine.on_taken(Some(Message::Terminate)), Action::Stop));
    assert!(machine.is_stopped());
    assert!(matches!(machine.on_taken(None), Action::Stop));
}

#[test]
fn debounce_collapsing_timeline() {
    // holdoff 100: send 0 at 0, 1 at 50, 2 at 250, terminate at 300
    let events = [(0, Some(0)), (50, Some(1)), (250, Some(2)), (300, None)];
    assert_eq!(simulate(Some(100), &events), vec![1]);
}

#[test]
fn no_holdoff_timeline() {
    // no holdoff: send 0 at 0, 1 at 50, 2 at 250, terminate at 300
    let events = [(0, Some(0)), (50, Some(1)), (250, Some(2)), (300, None)];
    assert_eq!(simulate(None, &events), vec![0, 1, 2]);
}

#[test]
fn latch_starts_clear() {
    let mut latch = Latch::new();
    assert!(!latch.is_set());
    assert!(!latch.poll(false));
    assert!(!latch.is_set());
}

#[test]
fn latch_stays_set_after_slot_empties() {
    let mut latch = Latch::new();
    assert!(latch.poll(true));
    assert!(latch.is_set());
    assert!(latch.poll(false));
    assert!(latch.poll(false));
    assert!(latch.is_set());
}

#[test]
fn latch_from_shared_flag() {
    let mut set = Latch::from_flag(true);
    assert!(set.is_set());
    assert!(set.poll(false));
    let mut clear = Latch::from_flag(false);
    assert!(!clear.is_set());
    assert!(clear.poll(true));
}
