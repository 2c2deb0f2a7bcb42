//! Timed delivery of level changes to a line.
//!
//! A pulse train is a queue of level changes, each with the instant at which
//! it is due. Whoever produces a train appends to the queue; a delivery loop
//! takes the changes off the front, one at a time, when their instant has
//! come, and writes them to the line. The queue outlives the loop: a loop
//! that dies is replaced by another that goes on where the first one stopped.

use crate::pin::{written, Error as PinError, Pin, PinView};
use std::collections::VecDeque;
use vstd::prelude::*;

verus! {

/// A level to write to a line, and the instant from which it is due.
#[derive(Clone, Copy, Debug, PartialEq, Eq, Structural)]
pub struct ScheduledChange {
    /// The instant from which the change is due.
    pub deadline: u64,
    /// The level to write.
    pub level: bool,
}

/// Why a pulse train could not be queued.
#[derive(Clone, Copy, Debug, PartialEq, Eq, Structural)]
pub enum Error {
    /// The pulse is wider than the period, so one pulse would end after the
    /// next has begun.
    PulseTooLong,
    /// The end of the train lies past the last instant that can be written down.
    TooFar,
}

/// What the delivery loop found at the front of the queue.
#[derive(Clone, Copy, Debug, PartialEq, Eq, Structural)]
pub enum Delivery {
    /// The queue is empty.
    Idle,
    /// The change at the front is not due before the given instant.
    Wait(u64),
    /// The change at the front was due, was written to the line and has left the queue.
    Applied(ScheduledChange),
    /// The change at the front was due but the line refused it; it is still in the queue.
    Failed(PinError),
}

/// How a delivery loop came to its end.
#[derive(Clone, Copy, Debug, PartialEq, Eq, Structural)]
pub enum Exit {
    /// The loop saw the stop signal and returned.
    Stopped,
    /// The loop died.
    Crashed,
}

/// What to do about a delivery loop that has ended.
#[derive(Clone, Copy, Debug, PartialEq, Eq, Structural)]
pub enum Verdict {
    /// Start a new loop on the same queue and line.
    Respawn,
    /// Leave it ended.
    Halt,
}

/// The changes of a train of `count` pulses that starts at `base`: for pulse
/// `i` a rise at `base + i * period` and a fall `width` later.
pub open spec fn train(base: int, period: int, width: int, count: int) -> Seq<ScheduledChange> {
    Seq::new(
        (2 * count) as nat,
        |k: int|
            if k % 2 == 0 {
                ScheduledChange { deadline: (base + (k / 2) * period) as u64, level: true }
            } else {
                ScheduledChange {
                    deadline: (base + (k / 2) * period + width) as u64,
                    level: false,
                }
            },
    )
}

/// No change in `queue` is due before one that stands in front of it.
pub open spec fn ordered(queue: Seq<ScheduledChange>) -> bool {
    forall|i: int, j: int| 0 <= i <= j < queue.len() ==> queue[i].deadline <= queue[j].deadline
}

/// How many changes at the front of `queue` are due at the instant `now`.
pub open spec fn due_count(queue: Seq<ScheduledChange>, now: u64) -> int
    decreases queue.len(),
{
    if queue.len() == 0 || queue[0].deadline > now {
        0
    } else {
        1 + due_count(queue.skip(1), now)
    }
}

/// The instant from which a train appended to `queue` at the instant `now`
/// starts: the deadline of the last change in the queue, or `now` if it is empty.
pub open spec fn train_base(queue: Seq<ScheduledChange>, now: u64) -> u64 {
    if queue.len() == 0 {
        now
    } else {
        queue.last().deadline
    }
}

/// The instant at which a train of `count` pulses from `base` ends; for no
/// pulses, `base` itself.
pub open spec fn train_end(base: int, period: int, width: int, count: int) -> int {
    if count <= 0 {
        base
    } else {
        base + (count - 1) * period + width
    }
}

/// The instant of change `k` of a train, before it is fitted into 64 bits.
spec fn instant(base: int, period: int, width: int, k: int) -> int {
    if k % 2 == 0 {
        base + (k / 2) * period
    } else {
        base + (k / 2) * period + width
    }
}

/// The instants of a train never go back, and none lies past its end.
proof fn lemma_instants_ordered(base: int, period: int, width: int, count: int, i: int, j: int)
    requires
        0 <= base,
        0 <= width <= period,
        0 <= i <= j < 2 * count,
    ensures
        base <= instant(base, period, width, i) <= instant(base, period, width, j) <= train_end(
            base,
            period,
            width,
            count,
        ),
{
    let a = i / 2;
    let b = j / 2;
    assert(0 <= a <= b <= count - 1);
    assert(0 <= a * period <= b * period <= (count - 1) * period) by (nonlinear_arith)
        requires
            0 <= a <= b <= count - 1,
            0 <= period,
    ;
    if a < b {
        assert(a * period + period <= b * period) by (nonlinear_arith)
            requires
                a + 1 <= b,
                0 <= period,
        ;
    }
}

/// A train appended to an ordered queue that ends no later than the train
/// begins leaves the queue ordered.
proof fn lemma_train_keeps_order(
    queue: Seq<ScheduledChange>,
    base: int,
    period: int,
    width: int,
    count: int,
)
    requires
        ordered(queue),
        0 <= base,
        0 <= width <= period,
        0 <= count,
        train_end(base, period, width, count) <= u64::MAX,
        queue.len() > 0 ==> queue.last().deadline <= base,
    ensures
        ordered(queue + train(base, period, width, count)),
{
    let added = train(base, period, width, count);
    let whole = queue + added;
    assert forall|i: int, j: int| 0 <= i <= j < whole.len() implies whole[i].deadline
        <= whole[j].deadline by {
        if j < queue.len() {
        } else {
            let jj = j - queue.len();
            lemma_instants_ordered(base, period, width, count, jj, jj);
            assert(added[jj].deadline == instant(base, period, width, jj));
            if i < queue.len() {
                assert(queue[i].deadline <= queue.last().deadline);
            } else {
                let ii = i - queue.len();
                lemma_instants_ordered(base, period, width, count, ii, jj);
                lemma_instants_ordered(base, period, width, count, ii, ii);
                assert(added[ii].deadline == instant(base, period, width, ii));
            }
        }
    }
}

/// What a train looks like, pulse by pulse.
///
/// A train of `count` pulses has two changes for each pulse. Pulse `i`
/// rises at `base + i * period` and falls `width` later, and its two changes
/// stand next to each other, the rise first. If the pulse is no wider than
/// the period and the train ends by `u64::MAX`, the changes stand in the
/// order in which they are due.
pub proof fn law_train_shape(base: int, period: int, width: int, count: int, i: int)
    requires
        0 <= base,
        0 <= i < count,
    ensures
        train(base, period, width, count).len() == 2 * count,
        train(base, period, width, count)[2 * i] == (ScheduledChange {
            deadline: (base + i * period) as u64,
            level: true,
        }),
        train(base, period, width, count)[2 * i + 1] == (ScheduledChange {
            deadline: (base + i * period + width) as u64,
            level: false,
        }),
        0 <= width <= period && train_end(base, period, width, count) <= u64::MAX ==> ordered(
            train(base, period, width, count),
        ),
{
    if 0 <= width <= period && train_end(base, period, width, count) <= u64::MAX {
        lemma_train_keeps_order(Seq::empty(), base, period, width, count);
        assert(Seq::<ScheduledChange>::empty() + train(base, period, width, count) =~= train(
            base,
            period,
            width,
            count,
        ));
    }
}

/// The changes that are due stand at the front of the queue.
proof fn lemma_due_count_bounds(queue: Seq<ScheduledChange>, now: u64)
    ensures
        0 <= due_count(queue, now) <= queue.len(),
        forall|i: int| 0 <= i < due_count(queue, now) ==> (#[trigger] queue[i]).deadline <= now,
        due_count(queue, now) < queue.len() ==> queue[due_count(queue, now)].deadline > now,
    decreases queue.len(),
{
    if queue.len() == 0 || queue[0].deadline > now {
    } else {
        let rest = queue.skip(1);
        lemma_due_count_bounds(rest, now);
        assert forall|i: int| 0 <= i < due_count(queue, now) implies (#[trigger] queue[i]).deadline
            <= now by {
            if i > 0 {
                assert(queue[i] == rest[i - 1]);
            }
        }
        if due_count(queue, now) < queue.len() {
            assert(queue[due_count(queue, now)] == rest[due_count(rest, now)]);
        }
    }
}

/// A loop that takes over goes on where the last one stopped.
///
/// Let a delivery loop die after it has delivered `k` of the changes that
/// are due at `now`. A new loop on what is left of the queue then delivers
/// the rest of them: what the two deliver together, and what they leave
/// behind, is what one loop would have delivered and left had it lived. No
/// change is lost and none is delivered twice.
pub proof fn law_respawn_resumes(queue: Seq<ScheduledChange>, now: u64, k: int)
    requires
        0 <= k <= due_count(queue, now),
    ensures
        k <= queue.len(),
        due_count(queue.skip(k), now) == due_count(queue, now) - k,
        queue.take(k) + queue.skip(k).take(due_count(queue.skip(k), now)) == queue.take(
            due_count(queue, now),
        ),
        queue.skip(k).skip(due_count(queue.skip(k), now)) == queue.skip(due_count(queue, now)),
    decreases k,
{
    lemma_due_count_bounds(queue, now);
    if k == 0 {
        assert(queue.skip(0) =~= queue);
        assert(queue.take(0) + queue.take(due_count(queue, now)) =~= queue.take(
            due_count(queue, now),
        ));
    } else {
        let rest = queue.skip(1);
        law_respawn_resumes(rest, now, k - 1);
        lemma_due_count_bounds(rest, now);
        assert(rest.skip(k - 1) =~= queue.skip(k));
        let left = due_count(queue.skip(k), now);
        assert(queue.take(k) + queue.skip(k).take(left) =~= queue.take(due_count(queue, now)));
        assert(queue.skip(k).skip(left) =~= queue.skip(due_count(queue, now)));
    }
}

/// Appending never disturbs what is already queued.
///
/// A train appended to a queue of which `k` changes have since been
/// delivered stands behind all the changes that were there before it, in
/// their old order.
pub proof fn law_append_behind(queue: Seq<ScheduledChange>, added: Seq<ScheduledChange>, k: int)
    requires
        0 <= k <= queue.len(),
    ensures
        (queue + added).take(queue.len() as int) == queue,
        (queue + added).skip(k) == queue.skip(k) + added,
{
    assert((queue + added).take(queue.len() as int) =~= queue);
    assert((queue + added).skip(k) =~= queue.skip(k) + added);
}

/// The changes queued for one line, soonest first.
#[derive(Debug)]
pub struct PulseQueue {
    entries: VecDeque<ScheduledChange>,
}

impl View for PulseQueue {
    type V = Seq<ScheduledChange>;

    closed spec fn view(&self) -> Seq<ScheduledChange> {
        self.entries@
    }
}

impl PulseQueue {
    /// What every queue satisfies between calls: its changes stand in the
    /// order in which they are due.
    pub open spec fn wf(queue: Seq<ScheduledChange>) -> bool {
        ordered(queue)
    }

    /// An empty queue.
    pub fn new() -> (queue: Self)
        ensures
            queue@ == Seq::<ScheduledChange>::empty(),
            Self::wf(queue@),
    {
        PulseQueue { entries: VecDeque::new() }
    }

    /// The number of changes waiting.
    pub fn len(&self) -> (n: usize)
        ensures
            n == self@.len(),
    {
        self.entries.len()
    }

    /// Whether no change is waiting.
    pub fn is_empty(&self) -> (empty: bool)
        ensures
            empty == (self@.len() == 0),
    {
        self.entries.len() == 0
    }

    /// The change in place `index`, counted from the front.
    pub fn get(&self, index: usize) -> (change: Option<ScheduledChange>)
        ensures
            change == if index < self@.len() {
                Some(self@[index as int])
            } else {
                None
            },
    {
        if index < self.entries.len() {
            Some(self.entries[index])
        } else {
            None
        }
    }

    /// Appends a train of `count` pulses of the given period and width.
    ///
    /// The first pulse rises at the deadline of the last change in the queue,
    /// or at `now` if the queue is empty; each further pulse rises one period
    /// after the one before, and every pulse falls `width` after it rose.
    /// Nothing already in the queue is moved.
    ///
    /// Fails with [`Error::PulseTooLong`] when `width` exceeds `period`, and
    /// otherwise with [`Error::TooFar`] when the last fall would lie past
    /// `u64::MAX`. A failed call changes nothing.
    pub fn add_pulses(&mut self, now: u64, period: u64, width: u64, count: u32) -> (r: Result<
        (),
        Error,
    >)
        requires
            Self::wf(old(self)@),
        ensures
            Self::wf(final(self)@),
            match r {
                Ok(()) => {
                    &&& width <= period
                    &&& train_end(
                        train_base(old(self)@, now) as int,
                        period as int,
                        width as int,
                        count as int,
                    ) <= u64::MAX
                    &&& final(self)@ == old(self)@ + train(
                        train_base(old(self)@, now) as int,
                        period as int,
                        width as int,
                        count as int,
                    )
                },
                Err(e) => {
                    &&& final(self)@ == old(self)@
                    &&& e == if width > period {
                        Error::PulseTooLong
                    } else {
                        Error::TooFar
                    }
                    &&& width > period || train_end(
                        train_base(old(self)@, now) as int,
                        period as int,
                        width as int,
                        count as int,
                    ) > u64::MAX
                },
            },
    {
        if width > period {
            return Err(Error::PulseTooLong);
        }
        let waiting = self.entries.len();
        let base: u64 = if waiting == 0 {
            now
        } else {
            self.entries[waiting - 1].deadline
        };
        if count == 0 {
            proof {
                assert(self@ + train(base as int, period as int, width as int, 0) =~= self@);
            }
            return Ok(());
        }
        proof {
            assert(0 <= (count - 1) * period <= 0xffff_ffff * 0xffff_ffff_ffff_ffff)
                by (nonlinear_arith)
                requires
                    0 <= count - 1 <= 0xffff_ffff,
                    0 <= period <= 0xffff_ffff_ffff_ffff,
            ;
        }
        let end: u128 = ((count - 1) as u128) * (period as u128) + (base as u128) + (width as u128);
        if end > u64::MAX as u128 {
            return Err(Error::TooFar);
        }
        let mut done: u32 = 0;
        let mut rise: u64 = base;
        while done < count
            invariant
                done <= count,
                width <= period,
                base + (count - 1) * period + width <= u64::MAX,
                done < count ==> rise == base + done * period,
                self.entries@ == old(self)@ + train(
                    base as int,
                    period as int,
                    width as int,
                    done as int,
                ),
            decreases count - done,
        {
            proof {
                assert(done * period <= (count - 1) * period) by (nonlinear_arith)
                    requires
                        0 <= done <= count - 1,
                        0 <= period,
                ;
                assert((done + 1) * period == done * period + period) by (nonlinear_arith);
            }
            let fall: u64 = rise + width;
            self.entries.push_back(ScheduledChange { deadline: rise, level: true });
            self.entries.push_back(ScheduledChange { deadline: fall, level: false });
            proof {
                let before = train(base as int, period as int, width as int, done as int);
                let after = train(base as int, period as int, width as int, done + 1);
                assert(after =~= before.push(ScheduledChange { deadline: rise, level: true }).push(
                    ScheduledChange { deadline: fall, level: false },
                ));
                assert(self.entries@ =~= old(self)@ + after);
            }
            done += 1;
            if done < count {
                proof {
                    assert(done * period <= (count - 1) * period) by (nonlinear_arith)
                        requires
                            0 <= done <= count - 1,
                            0 <= period,
                    ;
                }
                rise = rise + period;
            }
        }
        proof {
            lemma_train_keeps_order(
                old(self)@,
                base as int,
                period as int,
                width as int,
                count as int,
            );
        }
        Ok(())
    }

    /// Looks at the change at the front of the queue and, if it is due at
    /// the instant `now`, writes it to `pin`.
    ///
    /// The change leaves the queue only once the line has taken it: a
    /// refused write leaves the queue as it was, so nothing is lost when the
    /// loop that made the call dies of it.
    pub fn deliver(&mut self, pin: &mut Pin, now: u64) -> (r: Delivery)
        requires
            Self::wf(old(self)@),
        ensures
            Self::wf(final(self)@),
            match r {
                Delivery::Idle => {
                    &&& old(self)@.len() == 0
                    &&& final(self)@ == old(self)@
                    &&& final(pin)@ == old(pin)@
                },
                Delivery::Wait(until) => {
                    &&& old(self)@.len() > 0
                    &&& old(self)@[0].deadline > now
                    &&& until == old(self)@[0].deadline
                    &&& final(self)@ == old(self)@
                    &&& final(pin)@ == old(pin)@
                },
                Delivery::Applied(change) => {
                    &&& old(self)@.len() > 0
                    &&& change == old(self)@[0]
                    &&& change.deadline <= now
                    &&& old(pin)@.fault is None
                    &&& final(self)@ == old(self)@.skip(1)
                    &&& final(pin)@ == written(old(pin)@, change.level)
                },
                Delivery::Failed(e) => {
                    &&& old(self)@.len() > 0
                    &&& old(self)@[0].deadline <= now
                    &&& old(pin)@.fault is Some
                    &&& e == PinError::Io(old(pin)@.fault->Some_0)
                    &&& final(self)@ == old(self)@
                    &&& final(pin)@ == old(pin)@
                },
            },
    {
        if self.entries.len() == 0 {
            return Delivery::Idle;
        }
        let change = self.entries[0];
        if change.deadline > now {
            return Delivery::Wait(change.deadline);
        }
        match pin.set(change.level) {
            Ok(()) => {
                let _ = self.entries.pop_front();
                proof {
                    assert(self.entries@ =~= old(self)@.skip(1));
                }
                Delivery::Applied(change)
            },
            Err(e) => Delivery::Failed(e),
        }
    }

    /// Takes note of how the change that is due at the instant `now` went on
    /// the hardware, [`PulseQueue::due`] having named its level.
    ///
    /// With a refusal the failure is put on record for the line and the
    /// change stays at the front of the queue. Without one, any failure on
    /// record is cleared, the line records the level and the change leaves
    /// the queue. If no change is due, nothing is on its way to the
    /// hardware: `refused` is not looked at and nothing changes.
    pub fn committed(&mut self, pin: &mut Pin, now: u64, refused: Option<u32>) -> (r: Delivery)
        requires
            Self::wf(old(self)@),
        ensures
            Self::wf(final(self)@),
            match r {
                Delivery::Idle => {
                    &&& old(self)@.len() == 0
                    &&& final(self)@ == old(self)@
                    &&& final(pin)@ == old(pin)@
                },
                Delivery::Wait(until) => {
                    &&& old(self)@.len() > 0
                    &&& old(self)@[0].deadline > now
                    &&& until == old(self)@[0].deadline
                    &&& final(self)@ == old(self)@
                    &&& final(pin)@ == old(pin)@
                },
                Delivery::Applied(change) => {
                    &&& old(self)@.len() > 0
                    &&& change == old(self)@[0]
                    &&& change.deadline <= now
                    &&& refused is None
                    &&& final(self)@ == old(self)@.skip(1)
                    &&& final(pin)@ == (PinView {
                        level: change.level,
                        signal: None,
                        fault: None,
                        ..old(pin)@
                    })
                },
                Delivery::Failed(e) => {
                    &&& old(self)@.len() > 0
                    &&& old(self)@[0].deadline <= now
                    &&& refused is Some
                    &&& e == PinError::Io(refused->Some_0)
                    &&& final(self)@ == old(self)@
                    &&& final(pin)@ == (PinView { fault: refused, ..old(pin)@ })
                },
            },
    {
        if self.due(now).is_some() {
            match refused {
                Some(code) => pin.fail(code),
                None => pin.recover(),
            }
        }
        self.deliver(pin, now)
    }

    /// Delivers every change that is due at the instant `now`, front first,
    /// and returns how many there were.
    ///
    /// If the line has a failure on record and a change is due, the first
    /// write is refused: the call fails with the line's error and nothing has
    /// changed. Otherwise the line ends at the level of the last change
    /// delivered, and the changes not yet due stay in the queue.
    pub fn drain(&mut self, pin: &mut Pin, now: u64) -> (r: Result<usize, PinError>)
        requires
            Self::wf(old(self)@),
        ensures
            Self::wf(final(self)@),
            0 <= due_count(old(self)@, now) <= old(self)@.len(),
            match r {
                Ok(delivered) => {
                    &&& delivered == due_count(old(self)@, now)
                    &&& delivered == 0 || old(pin)@.fault is None
                    &&& final(self)@ == old(self)@.skip(delivered as int)
                    &&& final(pin)@ == if delivered == 0 {
                        old(pin)@
                    } else {
                        written(old(pin)@, old(self)@[delivered - 1].level)
                    }
                },
                Err(e) => {
                    &&& due_count(old(self)@, now) > 0
                    &&& old(pin)@.fault is Some
                    &&& e == PinError::Io(old(pin)@.fault->Some_0)
                    &&& final(self)@ == old(self)@
                    &&& final(pin)@ == old(pin)@
                },
            },
    {
        let mut delivered: usize = 0;
        let waiting = self.entries.len();
        proof {
            lemma_due_count_bounds(self@, now);
            assert(self@.skip(0) =~= self@);
        }
        loop
            invariant
                Self::wf(self@),
                old(self)@.len() == waiting,
                delivered + self@.len() == old(self)@.len(),
                self@ == old(self)@.skip(delivered as int),
                due_count(self@, now) == due_count(old(self)@, now) - delivered,
                0 <= due_count(old(self)@, now) <= old(self)@.len(),
                delivered > 0 ==> old(pin)@.fault is None,
                pin@ == if delivered == 0 {
                    old(pin)@
                } else {
                    written(old(pin)@, old(self)@[delivered - 1].level)
                },
            decreases self@.len(),
        {
            let ghost before = self@;
            match self.deliver(pin, now) {
                Delivery::Applied(_) => {
                    proof {
                        assert(before.skip(1) =~= old(self)@.skip(delivered + 1));
                        assert(before[0] == old(self)@[delivered as int]);
                    }
                    delivered += 1;
                },
                Delivery::Failed(e) => {
                    proof {
                        lemma_due_count_bounds(before.skip(1), now);
                    }
                    return Err(e);
                },
                Delivery::Idle => {
                    return Ok(delivered);
                },
                Delivery::Wait(_) => {
                    return Ok(delivered);
                },
            }
        }
    }

    /// The level of the change at the front of the queue, if that change is
    /// due at the instant `now`: what [`PulseQueue::deliver`] would write.
    pub fn due(&self, now: u64) -> (level: Option<bool>)
        ensures
            level == if self@.len() > 0 && self@[0].deadline <= now {
                Some(self@[0].level)
            } else {
                None
            },
    {
        if self.entries.len() > 0 && self.entries[0].deadline <= now {
            Some(self.entries[0].level)
        } else {
            None
        }
    }

    /// The instant from which the change at the front is due.
    pub fn next_deadline(&self) -> (deadline: Option<u64>)
        ensures
            deadline == if self@.len() > 0 {
                Some(self@[0].deadline)
            } else {
                None
            },
    {
        if self.entries.len() > 0 {
            Some(self.entries[0].deadline)
        } else {
            None
        }
    }
}

/// What a [`Supervisor`] stands for in contracts.
pub struct SupervisorView {
    /// Whether the stop signal has been given.
    pub stopping: bool,
    /// How many loops have been started to replace one that died.
    pub respawns: u64,
}

/// Keeps a delivery loop alive until it is told to stop.
///
/// The supervisor owns neither queue nor line: both stay where they are when
/// a loop ends, and the loop that replaces it is started on the same two.
#[derive(Debug)]
pub struct Supervisor {
    stopping: bool,
    respawns: u64,
}

impl View for Supervisor {
    type V = SupervisorView;

    closed spec fn view(&self) -> SupervisorView {
        SupervisorView { stopping: self.stopping, respawns: self.respawns }
    }
}

impl Supervisor {
    /// A supervisor that has not been told to stop and has replaced no loop.
    pub fn new() -> (supervisor: Self)
        ensures
            supervisor@ == (SupervisorView { stopping: false, respawns: 0 }),
    {
        Supervisor { stopping: false, respawns: 0 }
    }

    /// Gives the stop signal: the running loop is to return, and no loop is
    /// started after it.
    pub fn stop(&mut self)
        ensures
            final(self)@ == (SupervisorView { stopping: true, ..old(self)@ }),
    {
        self.stopping = true;
    }

    /// Whether the stop signal has been given. The delivery loop asks this
    /// before each delivery.
    pub fn is_stopping(&self) -> (stopping: bool)
        ensures
            stopping == self@.stopping,
    {
        self.stopping
    }

    /// How many loops have been started to replace one that died; the count
    /// stays at `u64::MAX` once it has got there.
    pub fn respawns(&self) -> (respawns: u64)
        ensures
            respawns == self@.respawns,
    {
        self.respawns
    }

    /// Decides what follows the end of a delivery loop.
    ///
    /// A loop that died is replaced, unless the stop signal has been given;
    /// a loop that returned is not.
    pub fn supervise(&mut self, exit: Exit) -> (verdict: Verdict)
        ensures
            verdict == if exit == Exit::Crashed && !old(self)@.stopping {
                Verdict::Respawn
            } else {
                Verdict::Halt
            },
            final(self)@.stopping == old(self)@.stopping,
            final(self)@.respawns == if verdict == Verdict::Respawn && old(self)@.respawns
                < u64::MAX {
                (old(self)@.respawns + 1) as u64
            } else {
                old(self)@.respawns
            },
    {
        match exit {
            Exit::Crashed => {
                if self.stopping {
                    Verdict::Halt
                } else {
                    if self.respawns < u64::MAX {
                        self.respawns = self.respawns + 1;
                    }
                    Verdict::Respawn
                }
            },
            Exit::Stopped => Verdict::Halt,
        }
    }
}

} // verus!
