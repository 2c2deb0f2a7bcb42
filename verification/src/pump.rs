//! The peristaltic pump and the interlock of its H-bridge.
//!
//! Four lines switch the bridge, laid out as
//!
//! ```plaintext
//!  +-----+-----+
//!  |     0     1
//! +V     +-----+
//!  |     2     3
//!  +-----+-----+
//! ```
//!
//! Lines 0 and 3 together drive the pump forward, lines 1 and 2 backward. A
//! line of each pair high at the same moment shorts the supply, so the pump
//! never raises one pair before the other is low and has had time to settle.

use crate::pin::{written, Error, Pin, PinBank, PinView};
use vstd::prelude::*;

verus! {

/// How long the bridge rests, in microseconds, between the moment it is
/// switched off and the moment it is switched on again.
pub const SETTLE_MICROS: u64 = 20_000;

/// Messages that can be sent to the pump to change its direction or turn it off.
#[derive(Clone, Copy, Debug, PartialEq, Eq, Structural)]
pub enum Message {
    /// Asks the pump to run in the forward direction.
    Perfuse,
    /// Asks the pump to run in the backward direction.
    Drain,
    /// Asks the pump to stop.
    Stop,
}

/// The direction of a pump.
#[derive(Clone, Copy, Debug, PartialEq, Eq, Structural)]
pub enum Direction {
    /// Toward the sample, perfusing it.
    Forward,
    /// Toward waste, draining the sample.
    Backward,
}

/// One effect that the pump has decided on, to be carried out on the hardware.
#[derive(Clone, Copy, Debug, PartialEq, Eq, Structural)]
pub enum Signal {
    /// Drive the line in `slot` (0 to 3, as in the diagram) to `level`.
    Write {
        /// Which of the four lines.
        slot: u8,
        /// The level to drive it to.
        level: bool,
    },
    /// Leave every line as it is for `micros` microseconds.
    Settle {
        /// How long to rest.
        micros: u64,
    },
}

/// What a [`Pump`] stands for in contracts.
pub struct PumpView {
    /// The four lines, by slot.
    pub pins: Seq<PinView>,
    /// The direction the pump runs in; `None` while it is stopped.
    pub direction: Option<Direction>,
    /// Every effect decided on and not yet collected, oldest first.
    pub journal: Seq<Signal>,
}

/// The two slots that are high while the pump runs in `direction`.
pub open spec fn pair(direction: Direction) -> (int, int) {
    match direction {
        Direction::Forward => (0, 3),
        Direction::Backward => (1, 2),
    }
}

/// No line of the forward pair is high together with a line of the backward pair.
pub open spec fn safe(levels: Seq<bool>) -> bool {
    !((levels[0] || levels[3]) && (levels[1] || levels[2]))
}

/// The levels of four lines.
pub open spec fn levels(pins: Seq<PinView>) -> Seq<bool> {
    Seq::new(4, |i: int| pins[i].level)
}

/// The levels that a run of signals leaves behind, starting from `start`.
pub open spec fn replay(start: Seq<bool>, signals: Seq<Signal>) -> Seq<bool>
    decreases signals.len(),
{
    if signals.len() == 0 {
        start
    } else {
        let before = replay(start, signals.drop_last());
        match signals.last() {
            Signal::Write { slot, level } => if slot < 4 {
                before.update(slot as int, level)
            } else {
                before
            },
            Signal::Settle { .. } => before,
        }
    }
}

/// The signals that switch off the first `count` lines, in slot order.
pub open spec fn lowering(count: int) -> Seq<Signal> {
    Seq::new(count as nat, |i: int| Signal::Write { slot: i as u8, level: false })
}

/// The signals that switch the pair of `direction` on, first line first.
pub open spec fn raising(direction: Direction) -> Seq<Signal> {
    seq![
        Signal::Write { slot: pair(direction).0 as u8, level: true },
        Signal::Write { slot: pair(direction).1 as u8, level: true },
    ]
}

/// The levels of the four lines of a pump that runs in `direction`, or is
/// stopped: exactly the pair of the direction is high.
pub open spec fn levels_of(direction: Option<Direction>) -> Seq<bool> {
    Seq::new(
        4,
        |i: int|
            match direction {
                None => false,
                Some(d) => i == pair(d).0 || i == pair(d).1,
            },
    )
}

/// What a pump sets out to do when it is asked for `target`.
///
/// To stop, every line is switched off. To run from a standstill the pair is
/// switched on at once. To run while running, the lines are switched off, the
/// bridge rests for [`SETTLE_MICROS`], and only then the pair is switched on.
pub open spec fn plan(running: bool, target: Option<Direction>) -> Seq<Signal> {
    match target {
        None => lowering(4),
        Some(direction) => if running {
            lowering(4).push(Signal::Settle { micros: SETTLE_MICROS }) + raising(direction)
        } else {
            raising(direction)
        },
    }
}

/// How many signals at the head of the plan switch lines off.
pub open spec fn descent(running: bool, target: Option<Direction>) -> int {
    if target is None || running {
        4
    } else {
        0
    }
}

/// The failure on record for the line that `signal` writes to, if any.
pub open spec fn fault_of(pins: Seq<PinView>, signal: Signal) -> Option<u32> {
    match signal {
        Signal::Write { slot, .. } => if slot < 4 {
            pins[slot as int].fault
        } else {
            None
        },
        Signal::Settle { .. } => None,
    }
}

/// The place of the first of `signals`, from `from` on, that writes to a
/// line with a failure on record, or the number of signals when none does.
pub open spec fn first_refused(pins: Seq<PinView>, signals: Seq<Signal>, from: int) -> int
    decreases signals.len() - from,
{
    if from < 0 || from >= signals.len() {
        signals.len() as int
    } else if fault_of(pins, signals[from]) is Some {
        from
    } else {
        first_refused(pins, signals, from + 1)
    }
}

/// The signals that raise again those of the first `upto` lines that were
/// high as `levels` has them, in slot order.
pub open spec fn restoring(levels: Seq<bool>, upto: int) -> Seq<Signal>
    decreases upto,
{
    if upto <= 0 {
        Seq::empty()
    } else if levels[upto - 1] {
        restoring(levels, upto - 1).push(Signal::Write { slot: (upto - 1) as u8, level: true })
    } else {
        restoring(levels, upto - 1)
    }
}

/// The signals that bring the bridge back to a settled state when signal
/// `at` of the plan was refused, the signals before it having been taken.
///
/// If a line refused to be switched off, the lines switched off before it
/// are raised again: the pump runs on as it ran. If the second line of a
/// pair refused to be switched on, the first is switched off again: the pump
/// is stopped. Nothing else needs mending.
pub open spec fn recovery(pump: PumpView, target: Option<Direction>, at: int) -> Seq<Signal> {
    let running = pump.direction is Some;
    if at < descent(running, target) {
        restoring(levels(pump.pins), at)
    } else if target is Some && at + 1 == plan(running, target).len() {
        seq![Signal::Write { slot: pair(target->Some_0).0 as u8, level: false }]
    } else {
        Seq::empty()
    }
}

/// The direction a pump is left in when it was asked for `target` and signal
/// `refused_at` of the plan was refused, or none was.
///
/// The pump gets to `target` only if every signal was taken. A refusal to
/// switch off leaves it in the direction it had; a refusal later leaves it
/// stopped.
pub open spec fn resolved(
    pump: PumpView,
    target: Option<Direction>,
    refused_at: Option<int>,
) -> Option<Direction> {
    match refused_at {
        None => target,
        Some(at) => if at < descent(pump.direction is Some, target) {
            pump.direction
        } else {
            None
        },
    }
}

/// The pump with `direction` on record and its lines at the levels of that
/// direction.
pub open spec fn with_direction(pump: PumpView, direction: Option<Direction>) -> PumpView {
    PumpView {
        pins: Seq::new(
            4,
            |i: int| PinView { level: levels_of(direction)[i], signal: None, ..pump.pins[i] },
        ),
        direction,
        ..pump
    }
}

/// The pump once a change of direction has come to its end: in the
/// direction that [`resolved`] gives, with the signals of [`recovery`]
/// added to the journal if a signal was refused.
pub open spec fn resolution(
    pump: PumpView,
    target: Option<Direction>,
    refused_at: Option<int>,
) -> PumpView {
    let mended = match refused_at {
        Some(at) => recovery(pump, target, at),
        None => Seq::empty(),
    };
    PumpView {
        journal: pump.journal + mended,
        ..with_direction(pump, resolved(pump, target, refused_at))
    }
}

/// The pump after [`Pump::set_direction`] was asked for `target`.
///
/// The signals of the plan go to the journal up to the first that writes to
/// a line with a failure on record. If there is one, the signals that mend
/// the bridge follow, and the pump is left as [`resolved`] says.
pub open spec fn redirected(pump: PumpView, target: Option<Direction>) -> PumpView {
    let signals = plan(pump.direction is Some, target);
    let at = first_refused(pump.pins, signals, 0);
    resolution(
        PumpView { journal: pump.journal + signals.take(at), ..pump },
        target,
        if at < signals.len() {
            Some(at)
        } else {
            None
        },
    )
}

/// The failure that [`Pump::set_direction`] reports when asked for `target`, if any.
pub open spec fn redirect_failure(pump: PumpView, target: Option<Direction>) -> Option<Error> {
    let signals = plan(pump.direction is Some, target);
    let at = first_refused(pump.pins, signals, 0);
    if at < signals.len() {
        Some(Error::Io(fault_of(pump.pins, signals[at])->Some_0))
    } else {
        None
    }
}

/// A signal of the plan that the hardware did not take.
#[derive(Clone, Copy, Debug, PartialEq, Eq, Structural)]
pub struct Refusal {
    /// The place of the signal in the plan; the signals before it were taken.
    pub at: usize,
    /// The code that the hardware reported.
    pub code: u32,
}

/// The pump with `code` on record as the failure of the line that `signal`
/// writes to.
pub open spec fn marked(pump: PumpView, signal: Signal, code: u32) -> PumpView {
    match signal {
        Signal::Write { slot, .. } => if slot < 4 {
            PumpView {
                pins: pump.pins.update(
                    slot as int,
                    PinView { fault: Some(code), ..pump.pins[slot as int] },
                ),
                ..pump
            }
        } else {
            pump
        },
        Signal::Settle { .. } => pump,
    }
}

/// The pump after [`Pump::committed`] was told how the plan for `target`
/// went on the hardware.
///
/// A refusal is put on record for its line, the signals that mend the bridge
/// go to the journal, and the pump is left as [`resolved`] says. A refusal
/// that names no signal of the plan is none.
pub open spec fn committed(
    pump: PumpView,
    target: Option<Direction>,
    refusal: Option<Refusal>,
) -> PumpView {
    let signals = plan(pump.direction is Some, target);
    match refusal {
        Some(refusal) => if refusal.at < signals.len() {
            resolution(
                marked(pump, signals[refusal.at as int], refusal.code),
                target,
                Some(refusal.at as int),
            )
        } else {
            resolution(pump, target, None)
        },
        None => resolution(pump, target, None),
    }
}

/// Whether slot `slot` of `numbers` cannot be claimed from a bank in state
/// `bank`: the bank lacks the line, the line is taken, or an earlier slot
/// names the same line.
pub open spec fn blocked(bank: Seq<bool>, numbers: Seq<u8>, slot: int) -> bool {
    ||| !PinBank::free(bank, numbers[slot] as int)
    ||| exists|earlier: int| 0 <= earlier < slot && numbers[earlier] == numbers[slot]
}

/// The first slot of `numbers` that cannot be claimed, or 4 when all four can.
pub open spec fn first_blocked(bank: Seq<bool>, numbers: Seq<u8>) -> int {
    if blocked(bank, numbers, 0) {
        0
    } else if blocked(bank, numbers, 1) {
        1
    } else if blocked(bank, numbers, 2) {
        2
    } else if blocked(bank, numbers, 3) {
        3
    } else {
        4
    }
}

/// A bank in state `bank` after the first `count` lines of `numbers` were claimed.
pub open spec fn claimed(bank: Seq<bool>, numbers: Seq<u8>, count: int) -> Seq<bool>
    decreases count,
{
    if count <= 0 {
        bank
    } else {
        claimed(bank, numbers, count - 1).update(numbers[count - 1] as int, true)
    }
}

/// The direction that a message asks for; `None` is a stop.
pub open spec fn requested(message: Message) -> Option<Direction> {
    match message {
        Message::Perfuse => Some(Direction::Forward),
        Message::Drain => Some(Direction::Backward),
        Message::Stop => None,
    }
}

impl Message {
    /// The direction that the message asks for; `None` is a stop.
    pub fn direction(&self) -> (target: Option<Direction>)
        ensures
            target == requested(*self),
    {
        match self {
            Message::Perfuse => Some(Direction::Forward),
            Message::Drain => Some(Direction::Backward),
            Message::Stop => None,
        }
    }
}

/// Represents a pump on an H-bridge, which takes four output lines.
#[derive(Debug)]
pub struct Pump {
    /// The lines of the bridge, by slot.
    pins: [Pin; 4],
    /// The direction the pump runs in (if running).
    direction: Option<Direction>,
    /// The effects decided on since the journal was last collected.
    journal: Vec<Signal>,
}

impl View for Pump {
    type V = PumpView;

    closed spec fn view(&self) -> PumpView {
        PumpView {
            pins: Seq::new(4, |i: int| self.pins@[i]@),
            direction: self.direction,
            journal: self.journal@,
        }
    }
}

impl Pump {
    /// What every pump satisfies between calls: no line carries a repeating
    /// signal, a stopped pump has every line low, and a running pump has
    /// exactly the pair of its direction high.
    pub open spec fn settled(pump: PumpView) -> bool {
        &&& pump.pins.len() == 4
        &&& forall|i: int|
            0 <= i < 4 ==> (#[trigger] pump.pins[i]).signal is None && pump.pins[i].level
                == levels_of(pump.direction)[i]
    }

    /// A pump that was just built on the lines `numbers`: stopped, every line
    /// fresh, nothing in the journal.
    pub open spec fn initial(numbers: Seq<u8>) -> PumpView {
        PumpView {
            pins: Seq::new(4, |i: int| Pin::fresh(numbers[i] as u16)),
            direction: None,
            journal: Seq::empty(),
        }
    }

    /// Creates a new pump on the given lines of `bank`, one per slot.
    ///
    /// The lines are claimed in slot order. The first that cannot be claimed
    /// ends the attempt: with [`Error::NotFound`] when the bank has no such
    /// line, with [`Error::AlreadyInUse`] when it is taken or named twice.
    /// The lines claimed before it are given back, so a failed attempt leaves
    /// the bank as it was.
    pub fn try_new(bank: &mut PinBank, pins: [u8; 4]) -> (r: Result<Self, Error>)
        ensures
            match r {
                Ok(pump) => {
                    &&& first_blocked(old(bank)@, pins@) == 4
                    &&& pump@ == Self::initial(pins@)
                    &&& Self::settled(pump@)
                    &&& final(bank)@ == claimed(old(bank)@, pins@, 4)
                },
                Err(e) => {
                    let slot = first_blocked(old(bank)@, pins@);
                    &&& slot < 4
                    &&& final(bank)@ == old(bank)@
                    &&& e == if pins@[slot] >= old(bank)@.len() {
                        Error::NotFound
                    } else {
                        Error::AlreadyInUse
                    }
                },
            },
    {
        proof {
            reveal_with_fuel(claimed, 5);
        }
        let first = match bank.claim(pins[0] as u16) {
            Ok(pin) => pin,
            Err(e) => {
                return Err(e);
            },
        };
        let second = match bank.claim(pins[1] as u16) {
            Ok(pin) => pin,
            Err(e) => {
                bank.release(first);
                assert(bank@ =~= old(bank)@);
                return Err(e);
            },
        };
        let third = match bank.claim(pins[2] as u16) {
            Ok(pin) => pin,
            Err(e) => {
                bank.release(second);
                bank.release(first);
                assert(bank@ =~= old(bank)@);
                return Err(e);
            },
        };
        let fourth = match bank.claim(pins[3] as u16) {
            Ok(pin) => pin,
            Err(e) => {
                bank.release(third);
                bank.release(second);
                bank.release(first);
                assert(bank@ =~= old(bank)@);
                return Err(e);
            },
        };
        let pump = Pump { pins: [first, second, third, fourth], direction: None, journal: Vec::new() };
        proof {
            assert(pump@.pins =~= Self::initial(pins@).pins);
        }
        Ok(pump)
    }

    /// Creates a new pump on the given lines of `bank`, which must all be
    /// there, free and different from each other.
    pub fn new(bank: &mut PinBank, pins: [u8; 4]) -> (pump: Self)
        requires
            first_blocked(old(bank)@, pins@) == 4,
        ensures
            pump@ == Self::initial(pins@),
            Self::settled(pump@),
            final(bank)@ == claimed(old(bank)@, pins@, 4),
    {
        match Self::try_new(bank, pins) {
            Ok(pump) => pump,
            Err(_) => unreached(),
        }
    }

    /// Whether the line in `slot` is high while a pump runs in `direction`.
    fn high_in(direction: Option<Direction>, slot: usize) -> (high: bool)
        requires
            slot < 4,
        ensures
            high == levels_of(direction)[slot as int],
    {
        match direction {
            None => false,
            Some(Direction::Forward) => slot == 0 || slot == 3,
            Some(Direction::Backward) => slot == 1 || slot == 2,
        }
    }

    /// The signals that a change to `target` calls for, in the order in
    /// which they are to be carried out, should none of them be refused.
    /// Nothing is decided yet: the pump and its journal stay as they are.
    pub fn planned(&self, target: Option<Direction>) -> (signals: Vec<Signal>)
        ensures
            signals@ == plan(self@.direction is Some, target),
    {
        let mut signals: Vec<Signal> = Vec::new();
        let running = self.direction.is_some();
        if target.is_none() || running {
            signals.push(Signal::Write { slot: 0, level: false });
            signals.push(Signal::Write { slot: 1, level: false });
            signals.push(Signal::Write { slot: 2, level: false });
            signals.push(Signal::Write { slot: 3, level: false });
            proof {
                assert(signals@ =~= lowering(4));
            }
        }
        match target {
            Some(direction) => {
                if running {
                    signals.push(Signal::Settle { micros: SETTLE_MICROS });
                }
                let (top, bottom): (u8, u8) = match direction {
                    Direction::Forward => (0, 3),
                    Direction::Backward => (1, 2),
                };
                signals.push(Signal::Write { slot: top, level: true });
                signals.push(Signal::Write { slot: bottom, level: true });
                proof {
                    assert(signals@ =~= plan(running, target));
                }
            },
            None => {},
        }
        signals
    }

    /// Brings the pump to the end of a change of direction: mends the bridge
    /// if a signal was refused, and puts the direction it is left in on record.
    fn resolve(&mut self, target: Option<Direction>, refused_at: Option<usize>)
        requires
            Self::settled(old(self)@),
            refused_at matches Some(at) ==> at < plan(
                old(self)@.direction is Some,
                target,
            ).len(),
        ensures
            Self::settled(final(self)@),
            final(self)@ == resolution(
                old(self)@,
                target,
                match refused_at {
                    Some(at) => Some(at as int),
                    None => None,
                },
            ),
    {
        let running = self.direction.is_some();
        let down: usize = if target.is_none() || running {
            4
        } else {
            0
        };
        let length: usize = match target {
            None => 4,
            Some(_) => if running {
                7
            } else {
                2
            },
        };
        let mut direction = target;
        match refused_at {
            Some(at) => {
                if at < down {
                    direction = self.direction;
                    let mut slot: usize = 0;
                    while slot < at
                        invariant
                            slot <= at < 4,
                            self.pins == old(self).pins,
                            self.direction == old(self).direction,
                            self.journal@ == old(self).journal@ + restoring(
                                levels(old(self)@.pins),
                                slot as int,
                            ),
                        decreases at - slot,
                    {
                        if self.pins[slot].level() {
                            self.journal.push(Signal::Write { slot: slot as u8, level: true });
                        }
                        proof {
                            assert(self.journal@ =~= old(self).journal@ + restoring(
                                levels(old(self)@.pins),
                                slot + 1,
                            ));
                        }
                        slot += 1;
                    }
                } else {
                    direction = None;
                    match target {
                        Some(asked) => {
                            if at + 1 == length {
                                let top: u8 = match asked {
                                    Direction::Forward => 0,
                                    Direction::Backward => 1,
                                };
                                self.journal.push(Signal::Write { slot: top, level: false });
                            }
                        },
                        None => {},
                    }
                }
            },
            None => {},
        }
        self.direction = direction;
        let ghost mended = self.journal@;
        let mut slot: usize = 0;
        while slot < 4
            invariant
                slot <= 4,
                self.direction == direction,
                self.journal@ == mended,
                forall|i: int|
                    0 <= i < slot ==> self.pins@[i]@ == (PinView {
                        level: levels_of(direction)[i],
                        signal: None,
                        ..old(self).pins@[i]@
                    }),
                forall|i: int| slot <= i < 4 ==> self.pins@[i] == old(self).pins@[i],
            decreases 4 - slot,
        {
            let high = Self::high_in(direction, slot);
            self.pins[slot].record(high);
            slot += 1;
        }
        proof {
            let after = resolution(
                old(self)@,
                target,
                match refused_at {
                    Some(at) => Some(at as int),
                    None => None,
                },
            );
            assert(self@.pins =~= after.pins);
            assert(self@.journal =~= after.journal);
        }
    }

    /// Changes the pump direction to the specified direction, or stops the
    /// pump when given `None`.
    ///
    /// If the pump is not already stopped, it is stopped first and the bridge
    /// rests for [`SETTLE_MICROS`] before the new pair is switched on. The
    /// signals go to the journal one line at a time. The first that writes
    /// to a line with a failure on record ends the call with that failure:
    /// the bridge is mended, and the pump is left running as it ran, or
    /// stopped. The pump records the new direction only when every signal
    /// was taken.
    pub fn set_direction(&mut self, direction: Option<Direction>) -> (r: Result<(), Error>)
        requires
            Self::settled(old(self)@),
        ensures
            Self::settled(final(self)@),
            final(self)@ == redirected(old(self)@, direction),
            match r {
                Ok(()) => redirect_failure(old(self)@, direction) is None,
                Err(e) => redirect_failure(old(self)@, direction) == Some(e),
            },
    {
        let signals = self.planned(direction);
        let mut at: usize = 0;
        let mut refused: Option<u32> = None;
        while at < signals.len() && refused.is_none()
            invariant
                at <= signals@.len(),
                signals@ == plan(old(self)@.direction is Some, direction),
                self.pins == old(self).pins,
                self.direction == old(self).direction,
                first_refused(old(self)@.pins, signals@, 0) == first_refused(
                    old(self)@.pins,
                    signals@,
                    at as int,
                ),
                refused is Some ==> at < signals@.len() && refused == fault_of(
                    old(self)@.pins,
                    signals@[at as int],
                ),
                self.journal@ == old(self).journal@ + signals@.take(at as int),
            decreases signals@.len() - at + if refused is None { 1int } else { 0int },
        {
            let signal = signals[at];
            let fault = match signal {
                Signal::Write { slot, .. } => if slot < 4 {
                    self.pins[slot as usize].fault()
                } else {
                    None
                },
                Signal::Settle { .. } => None,
            };
            if fault.is_some() {
                refused = fault;
            } else {
                self.journal.push(signal);
                proof {
                    assert(self.journal@ =~= old(self).journal@ + signals@.take(at + 1));
                }
                at += 1;
            }
        }
        match refused {
            Some(code) => {
                self.resolve(direction, Some(at));
                Err(Error::Io(code))
            },
            None => {
                self.resolve(direction, None);
                Ok(())
            },
        }
    }

    /// Takes note of how the plan for `target` went on the hardware.
    ///
    /// The signals of [`Pump::planned`] were carried out in order. With no
    /// refusal every one of them was taken, and the pump runs in `target`.
    /// With a refusal, the signals before it were taken and the one at its
    /// place was not: the failure is put on record for that line, the
    /// signals that mend the bridge go to the journal, and the pump is left
    /// running as it ran, or stopped. The call reports the refusal as the
    /// line's error. A refusal past the end of the plan is none; one at the
    /// place of the rest, which writes to no line, leaves the pump stopped.
    pub fn committed(&mut self, target: Option<Direction>, refusal: Option<Refusal>) -> (r: Result<
        (),
        Error,
    >)
        requires
            Self::settled(old(self)@),
        ensures
            Self::settled(final(self)@),
            final(self)@ == committed(old(self)@, target, refusal),
            r == match refusal {
                Some(refusal) => if refusal.at < plan(old(self)@.direction is Some, target).len() {
                    Err::<(), Error>(Error::Io(refusal.code))
                } else {
                    Ok::<(), Error>(())
                },
                None => Ok::<(), Error>(()),
            },
    {
        let signals = self.planned(target);
        match refusal {
            Some(refusal) => {
                if refusal.at < signals.len() {
                    match signals[refusal.at] {
                        Signal::Write { slot, .. } => {
                            if slot < 4 {
                                self.pins[slot as usize].fail(refusal.code);
                            }
                        },
                        Signal::Settle { .. } => {},
                    }
                    proof {
                        assert(self@.pins =~= marked(
                            old(self)@,
                            signals@[refusal.at as int],
                            refusal.code,
                        ).pins);
                    }
                    self.resolve(target, Some(refusal.at));
                    Err(Error::Io(refusal.code))
                } else {
                    self.resolve(target, None);
                    Ok(())
                }
            },
            None => {
                self.resolve(target, None);
                Ok(())
            },
        }
    }

    /// Switches the pump to the forward direction.
    pub fn perfuse(&mut self) -> (r: Result<(), Error>)
        requires
            Self::settled(old(self)@),
        ensures
            Self::settled(final(self)@),
            final(self)@ == redirected(old(self)@, Some(Direction::Forward)),
            match r {
                Ok(()) => redirect_failure(old(self)@, Some(Direction::Forward)) is None,
                Err(e) => redirect_failure(old(self)@, Some(Direction::Forward)) == Some(e),
            },
    {
        self.set_direction(Some(Direction::Forward))
    }

    /// Switches the pump to the reverse direction.
    pub fn drain(&mut self) -> (r: Result<(), Error>)
        requires
            Self::settled(old(self)@),
        ensures
            Self::settled(final(self)@),
            final(self)@ == redirected(old(self)@, Some(Direction::Backward)),
            match r {
                Ok(()) => redirect_failure(old(self)@, Some(Direction::Backward)) is None,
                Err(e) => redirect_failure(old(self)@, Some(Direction::Backward)) == Some(e),
            },
    {
        self.set_direction(Some(Direction::Backward))
    }

    /// Stops the pump.
    pub fn stop(&mut self) -> (r: Result<(), Error>)
        requires
            Self::settled(old(self)@),
        ensures
            Self::settled(final(self)@),
            final(self)@ == redirected(old(self)@, None),
            match r {
                Ok(()) => redirect_failure(old(self)@, None) is None,
                Err(e) => redirect_failure(old(self)@, None) == Some(e),
            },
    {
        self.set_direction(None)
    }

    /// Carries out the request that `message` stands for.
    pub fn handle(&mut self, message: Message) -> (r: Result<(), Error>)
        requires
            Self::settled(old(self)@),
        ensures
            Self::settled(final(self)@),
            final(self)@ == redirected(old(self)@, requested(message)),
            match r {
                Ok(()) => redirect_failure(old(self)@, requested(message)) is None,
                Err(e) => redirect_failure(old(self)@, requested(message)) == Some(e),
            },
    {
        match message {
            Message::Perfuse => self.perfuse(),
            Message::Drain => self.drain(),
            Message::Stop => self.stop(),
        }
    }

    /// Hands over the effects decided on since the last collection, oldest
    /// first, and starts a new journal.
    pub fn take_journal(&mut self) -> (signals: Vec<Signal>)
        ensures
            signals@ == old(self)@.journal,
            final(self)@ == (PumpView { journal: Seq::empty(), ..old(self)@ }),
    {
        let mut signals: Vec<Signal> = Vec::new();
        std::mem::swap(&mut self.journal, &mut signals);
        signals
    }

    /// Records that the hardware refused a write to the line in `slot`; see
    /// [`Pin::fail`]. A slot past 3 names no line, and nothing changes.
    pub fn fail(&mut self, slot: usize, cause: u32)
        requires
            Self::settled(old(self)@),
        ensures
            Self::settled(final(self)@),
            slot >= 4 ==> final(self)@ == old(self)@,
            slot < 4 ==> final(self)@ == (PumpView {
                pins: old(self)@.pins.update(
                    slot as int,
                    PinView { fault: Some(cause), ..old(self)@.pins[slot as int] },
                ),
                ..old(self)@
            }),
    {
        if slot < 4 {
            self.pins[slot].fail(cause);
            proof {
                assert(self@.pins =~= old(self)@.pins.update(
                    slot as int,
                    PinView { fault: Some(cause), ..old(self)@.pins[slot as int] },
                ));
                assert forall|i: int| 0 <= i < 4 implies (#[trigger] self@.pins[i]).signal is None
                    && self@.pins[i].level == old(self)@.pins[i].level by {
                    assert(old(self)@.pins[i].signal is None);
                }
            }
        }
    }

    /// Clears a failure recorded for the line in `slot`; see [`Pin::recover`].
    /// A slot past 3 names no line, and nothing changes.
    pub fn recover(&mut self, slot: usize)
        requires
            Self::settled(old(self)@),
        ensures
            Self::settled(final(self)@),
            slot >= 4 ==> final(self)@ == old(self)@,
            slot < 4 ==> final(self)@ == (PumpView {
                pins: old(self)@.pins.update(
                    slot as int,
                    PinView { fault: None, ..old(self)@.pins[slot as int] },
                ),
                ..old(self)@
            }),
    {
        if slot < 4 {
            self.pins[slot].recover();
            proof {
                assert(self@.pins =~= old(self)@.pins.update(
                    slot as int,
                    PinView { fault: None, ..old(self)@.pins[slot as int] },
                ));
                assert forall|i: int| 0 <= i < 4 implies (#[trigger] self@.pins[i]).signal is None
                    && self@.pins[i].level == old(self)@.pins[i].level by {
                    assert(old(self)@.pins[i].signal is None);
                }
            }
        }
    }

    /// The direction the pump runs in, or `None` while it is stopped.
    pub fn direction(&self) -> (direction: Option<Direction>)
        ensures
            direction == self@.direction,
    {
        self.direction
    }

    /// The level of the line in `slot`, or `None` for a slot past 3.
    pub fn level(&self, slot: usize) -> (level: Option<bool>)
        ensures
            level == if slot < 4 {
                Some(self@.pins[slot as int].level)
            } else {
                None
            },
    {
        if slot < 4 {
            Some(self.pins[slot].level())
        } else {
            None
        }
    }

    /// The number of the line in `slot`, or `None` for a slot past 3.
    pub fn line(&self, slot: usize) -> (number: Option<u16>)
        ensures
            number == if slot < 4 {
                Some(self@.pins[slot as int].number)
            } else {
                None
            },
    {
        if slot < 4 {
            Some(self.pins[slot].number())
        } else {
            None
        }
    }

    /// Whether the pump is currently stopped.
    pub fn is_stopped(&self) -> (stopped: bool)
        ensures
            stopped == (self@.direction is None),
    {
        self.direction.is_none()
    }
}

} // verus!
