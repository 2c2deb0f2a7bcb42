use deoxy::pin::{Error as PinError, PinBank};
use deoxy::scheduler::{
    Delivery, Error, Exit, PulseQueue, ScheduledChange, Supervisor, Verdict,
};

fn change(deadline: u64, level: bool) -> ScheduledChange {
    ScheduledChange { deadline, level }
}

fn contents(queue: &PulseQueue) -> Vec<ScheduledChange> {
    (0..queue.len()).map(|i| queue.get(i).unwrap()).collect()
}

#[test]
fn three_pulses_make_six_changes() {
    let (t0, period, width) = (1_000_000, 20_000, 1_500);
    let mut queue = PulseQueue::new();
    assert_eq!(queue.add_pulses(t0, period, width, 3), Ok(()));
    assert_eq!(queue.len(), 6);
    assert_eq!(
        contents(&queue),
        vec![
            change(t0, true),
            change(t0 + width, false),
            change(t0 + period, true),
            change(t0 + period + width, false),
            change(t0 + 2 * period, true),
            change(t0 + 2 * period + width, false),
        ]
    );
    let deadlines: Vec<u64> = contents(&queue).iter().map(|c| c.deadline).collect();
    let mut sorted = deadlines.clone();
    sorted.sort();
    assert_eq!(deadlines, sorted);
}

#[test]
fn new_queue_is_empty() {
    let queue = PulseQueue::new();
    assert!(queue.is_empty());
    assert_eq!(queue.len(), 0);
    assert_eq!(queue.get(0), None);
    assert_eq!(queue.next_deadline(), None);
}

#[test]
fn later_train_starts_at_the_last_deadline() {
    let mut queue = PulseQueue::new();
    queue.add_pulses(100, 50, 10, 1).unwrap();
    // the clock has moved on, but the queue is not empty
    queue.add_pulses(400, 30, 30, 2).unwrap();
    assert_eq!(
        contents(&queue),
        vec![
            change(100, true),
            change(110, false),
            change(110, true),
            change(140, false),
            change(140, true),
            change(170, false),
        ]
    );
    assert_eq!(queue.next_deadline(), Some(100));
}

#[test]
fn no_pulses_add_nothing() {
    let mut queue = PulseQueue::new();
    assert_eq!(queue.add_pulses(5, 10, 3, 0), Ok(()));
    assert!(queue.is_empty());
}

#[test]
fn pulse_wider_than_period_is_not_queued() {
    let mut queue = PulseQueue::new();
    assert_eq!(queue.add_pulses(0, 10, 11, 1), Err(Error::PulseTooLong));
    assert_eq!(queue.add_pulses(0, 10, 11, 0), Err(Error::PulseTooLong));
    assert!(queue.is_empty());
}

#[test]
fn train_past_the_last_instant_is_not_queued() {
    let mut queue = PulseQueue::new();
    assert_eq!(queue.add_pulses(u64::MAX - 29, 20, 10, 2), Err(Error::TooFar));
    assert!(queue.is_empty());
    assert_eq!(queue.add_pulses(u64::MAX - 30, 20, 10, 2), Ok(()));
    assert_eq!(queue.get(3), Some(change(u64::MAX, false)));
    assert_eq!(queue.add_pulses(0, 0, 0, 5), Ok(()));
    assert_eq!(queue.add_pulses(0, 1, 0, 1), Ok(()));
    assert_eq!(queue.add_pulses(0, 1, 0, 2), Err(Error::TooFar));
    assert_eq!(queue.len(), 16);
}

#[test]
fn delivery_waits_for_the_deadline() {
    let mut bank = PinBank::new(4);
    let mut pin = bank.claim(0).unwrap();
    let mut queue = PulseQueue::new();
    assert_eq!(queue.deliver(&mut pin, 0), Delivery::Idle);
    queue.add_pulses(100, 50, 10, 1).unwrap();
    assert_eq!(queue.deliver(&mut pin, 99), Delivery::Wait(100));
    assert_eq!(queue.len(), 2);
    assert!(!pin.level());
    assert_eq!(queue.deliver(&mut pin, 100), Delivery::Applied(change(100, true)));
    assert!(pin.level());
    assert_eq!(queue.deliver(&mut pin, 100), Delivery::Wait(110));
    assert_eq!(queue.deliver(&mut pin, 500), Delivery::Applied(change(110, false)));
    assert!(!pin.level());
    assert_eq!(queue.deliver(&mut pin, 500), Delivery::Idle);
}

#[test]
fn refused_write_stays_in_the_queue() {
    let mut bank = PinBank::new(4);
    let mut pin = bank.claim(0).unwrap();
    let mut queue = PulseQueue::new();
    queue.add_pulses(100, 50, 10, 1).unwrap();
    pin.fail(4);
    assert_eq!(queue.deliver(&mut pin, 100), Delivery::Failed(PinError::Io(4)));
    assert_eq!(queue.len(), 2);
    assert_eq!(queue.deliver(&mut pin, 99), Delivery::Wait(100));
    pin.recover();
    assert_eq!(queue.deliver(&mut pin, 100), Delivery::Applied(change(100, true)));
}

#[test]
fn drain_delivers_what_is_due_and_no_more() {
    let mut bank = PinBank::new(4);
    let mut pin = bank.claim(0).unwrap();
    let mut queue = PulseQueue::new();
    queue.add_pulses(100, 50, 10, 3).unwrap();
    assert_eq!(queue.drain(&mut pin, 99), Ok(0));
    assert_eq!(queue.len(), 6);
    assert_eq!(queue.drain(&mut pin, 150), Ok(3));
    assert!(pin.level());
    assert_eq!(contents(&queue), vec![change(160, false), change(200, true), change(210, false)]);
    assert_eq!(queue.drain(&mut pin, u64::MAX), Ok(3));
    assert!(!pin.level());
    assert!(queue.is_empty());
    assert_eq!(queue.drain(&mut pin, u64::MAX), Ok(0));
}

#[test]
fn drain_on_a_failing_line_loses_nothing() {
    let mut bank = PinBank::new(4);
    let mut pin = bank.claim(0).unwrap();
    let mut queue = PulseQueue::new();
    queue.add_pulses(100, 50, 10, 2).unwrap();
    pin.fail(8);
    assert_eq!(queue.drain(&mut pin, 1_000), Err(PinError::Io(8)));
    assert_eq!(queue.len(), 4);
    assert_eq!(queue.drain(&mut pin, 50), Ok(0));
    pin.recover();
    assert_eq!(queue.drain(&mut pin, 1_000), Ok(4));
}

#[test]
fn respawned_loop_goes_on_where_the_last_one_died() {
    let mut bank = PinBank::new(4);
    let mut pin = bank.claim(0).unwrap();
    let mut whole = PulseQueue::new();
    whole.add_pulses(100, 50, 10, 3).unwrap();
    let expected = contents(&whole);

    let mut queue = PulseQueue::new();
    queue.add_pulses(100, 50, 10, 3).unwrap();
    let mut supervisor = Supervisor::new();
    let mut delivered = Vec::new();
    // the first loop delivers two changes, then its line fails and it dies
    for _ in 0..2 {
        match queue.deliver(&mut pin, 1_000) {
            Delivery::Applied(change) => delivered.push(change),
            other => panic!("{:?}", other),
        }
    }
    pin.fail(1);
    assert_eq!(queue.deliver(&mut pin, 1_000), Delivery::Failed(PinError::Io(1)));
    assert_eq!(supervisor.supervise(Exit::Crashed), Verdict::Respawn);
    // the producer goes on queuing meanwhile
    queue.add_pulses(0, 50, 10, 1).unwrap();
    pin.recover();
    // the second loop takes over the same queue
    loop {
        match queue.deliver(&mut pin, 1_000) {
            Delivery::Applied(change) => delivered.push(change),
            Delivery::Idle => break,
            other => panic!("{:?}", other),
        }
    }
    assert_eq!(delivered[..6], expected[..]);
    assert_eq!(delivered[6..], [change(210, true), change(220, false)]);
    assert_eq!(supervisor.respawns(), 1);
}

#[test]
fn supervisor_respawns_until_told_to_stop() {
    let mut supervisor = Supervisor::new();
    assert!(!supervisor.is_stopping());
    assert_eq!(supervisor.supervise(Exit::Crashed), Verdict::Respawn);
    assert_eq!(supervisor.supervise(Exit::Crashed), Verdict::Respawn);
    assert_eq!(supervisor.respawns(), 2);
    assert_eq!(supervisor.supervise(Exit::Stopped), Verdict::Halt);
    assert_eq!(supervisor.respawns(), 2);
    supervisor.stop();
    assert!(supervisor.is_stopping());
    assert_eq!(supervisor.supervise(Exit::Crashed), Verdict::Halt);
    assert_eq!(supervisor.supervise(Exit::Stopped), Verdict::Halt);
    assert_eq!(supervisor.respawns(), 2);
}

#[test]
fn front_change_is_due_from_its_deadline() {
    let mut bank = PinBank::new(4);
    let mut pin = bank.claim(0).unwrap();
    let mut queue = PulseQueue::new();
    assert_eq!(queue.due(u64::MAX), None);
    queue.add_pulses(100, 50, 10, 1).unwrap();
    assert_eq!(queue.due(99), None);
    assert_eq!(queue.due(100), Some(true));
    assert_eq!(queue.len(), 2);
    queue.deliver(&mut pin, 100);
    assert_eq!(queue.due(109), None);
    assert_eq!(queue.due(110), Some(false));
}

#[test]
fn refused_change_waits_at_the_front() {
    let mut bank = PinBank::new(4);
    let mut pin = bank.claim(0).unwrap();
    let mut queue = PulseQueue::new();
    assert_eq!(queue.committed(&mut pin, 0, Some(1)), Delivery::Idle);
    assert_eq!(pin.fault(), None);
    queue.add_pulses(100, 50, 10, 1).unwrap();
    assert_eq!(queue.committed(&mut pin, 99, Some(1)), Delivery::Wait(100));
    assert_eq!(pin.fault(), None);
    assert_eq!(queue.committed(&mut pin, 100, Some(6)), Delivery::Failed(PinError::Io(6)));
    assert_eq!(pin.fault(), Some(6));
    assert!(!pin.level());
    assert_eq!(queue.len(), 2);
    assert_eq!(queue.committed(&mut pin, 100, None), Delivery::Applied(change(100, true)));
    assert_eq!(pin.fault(), None);
    assert!(pin.level());
    assert_eq!(queue.len(), 1);
}
