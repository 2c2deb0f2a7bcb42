//! Motor management.
//!
//! A motor turns the knob of one valve. Its position is set by the width of
//! the pulse on its line: the narrowest useful pulse is 0 degrees, the widest
//! 180 degrees, and the widths in between are spread evenly.

use crate::pin::{programmed, Error as PinError, Pin, PinBank, PinView, Pwm};
use crate::scheduler::{train, train_base, train_end, PulseQueue, ScheduledChange};
use vstd::prelude::*;
use vstd::std_specs::cmp::PartialEqSpecImpl;

verus! {

/// The range of motion of a motor, in degrees.
pub const HALF_TURN: u16 = 180;

/// A message that can be sent to a motor to change its position.
#[derive(Clone, Copy, Debug, PartialEq, Eq, Structural)]
pub enum Message {
    /// Requests that the motor be set to the closed position.
    Close,
    /// Requests that the motor be set to the open position.
    Open,
    /// Requests that the motor be set to the shut (not closed) position.
    Shut,
    /// Turns off the motor's output signal.
    Stop,
}

/// Why a motor did not do what it was asked.
#[derive(Clone, Copy, Debug, PartialEq, Eq, Structural)]
pub enum Error {
    /// The request was outside what the motor can do: an angle past 180
    /// degrees, a pulse width outside the signal range, or a signal range
    /// that is empty.
    OutOfBounds,
    /// The line did not take the signal; the detail is the line's own error.
    CommunicationError(Option<PinError>),
}

/// What a [`Motor`] stands for in contracts.
pub struct MotorView {
    /// The characteristic period of the motor.
    pub period: u64,
    /// The output line controlling the physical motor.
    pub pin: PinView,
    /// The narrowest useful pulse: the 0 degree position.
    pub min: u64,
    /// The widest useful pulse: the 180 degree position.
    pub max: u64,
    /// The time for which the signal is high in each period; 0 when the
    /// signal is off.
    pub pulse_width: u64,
    /// The handle of whatever is driving a pulse train for this motor.
    pub handle: Option<u64>,
}

/// A motor connected to the syringe manifold.
///
/// Moving a motor (physically) will cause the control knob to rotate.
#[derive(Debug)]
pub struct Motor {
    /// The characteristic period of the motor.
    period: u64,
    /// The output pin controlling the physical motor.
    pin: Pin,
    /// The range of acceptable signal lengths: the two ends correspond to
    /// antiparallel positions, 180 degrees apart.
    signal_range: (u64, u64),
    /// The duration for which the signal should be high in each period.
    ///
    /// Changing this property will change the position of the motor.
    pulse_width: u64,
    /// The handle to the main loop for this motor (for cancellation).
    main_handle: Option<u64>,
}

impl View for Motor {
    type V = MotorView;

    closed spec fn view(&self) -> MotorView {
        MotorView {
            period: self.period,
            pin: self.pin@,
            min: self.signal_range.0,
            max: self.signal_range.1,
            pulse_width: self.pulse_width,
            handle: self.main_handle,
        }
    }
}

impl PartialEq for Motor {
    /// Two motors are the same motor when they sit on the same line.
    fn eq(&self, other: &Self) -> (same: bool) {
        self.pin.number() == other.pin.number()
    }
}

impl Eq for Motor {

}

impl PartialEqSpecImpl for Motor {
    open spec fn obeys_eq_spec() -> bool {
        true
    }

    open spec fn eq_spec(&self, other: &Self) -> bool {
        self@.pin.number == other@.pin.number
    }
}

/// The pulse width that puts a motor with signal range `min` to `max` at
/// `angle` degrees.
pub open spec fn pulse_width_at(min: int, max: int, angle: int) -> int {
    min + (max - min) * angle / 180
}

/// The pulse width for `angle` degrees on a motor with signal range `min` to
/// `max`, or `None` where there is none: past 180 degrees, or when `max` is
/// below `min`.
pub fn pulse_width_for(min: u64, max: u64, angle: u16) -> (width: Option<u64>)
    ensures
        width is Some <==> min <= max && angle <= 180,
        width matches Some(w) ==> w == pulse_width_at(min as int, max as int, angle as int) && min
            <= w <= max,
{
    if min > max || angle > HALF_TURN {
        return None;
    }
    let delta: u64 = max - min;
    proof {
        assert(0 <= delta * angle <= delta * 180) by (nonlinear_arith)
            requires
                0 <= delta,
                0 <= angle <= 180,
        ;
        assert(0 <= (delta * angle) / 180 <= delta) by (nonlinear_arith)
            requires
                0 <= delta * angle <= delta * 180,
        ;
    }
    let scaled: u128 = (delta as u128) * (angle as u128);
    let offset: u128 = scaled / 180;
    Some(min + offset as u64)
}

/// What is left of a motor after an attempt to drive it with pulses of `width`.
///
/// The attempt gets through when the pulse fits the period and the line has
/// no failure on record. A failed attempt changes nothing.
pub open spec fn driven(motor: MotorView, width: u64) -> MotorView {
    if drive_failure(motor, width) is Some {
        motor
    } else {
        MotorView {
            pin: programmed(motor.pin, Pwm { period: motor.period, pulse_width: width }),
            pulse_width: width,
            ..motor
        }
    }
}

/// The failure that an attempt to drive a motor with pulses of `width` runs
/// into, if any.
pub open spec fn drive_failure(motor: MotorView, width: u64) -> Option<Error> {
    if width > motor.period {
        Some(Error::CommunicationError(Some(PinError::PulseTooLong)))
    } else if motor.pin.fault is Some {
        Some(Error::CommunicationError(Some(PinError::Io(motor.pin.fault->Some_0))))
    } else {
        None
    }
}

/// The angle that a message asks for; `None` asks for the signal to be turned off.
pub open spec fn position(message: Message) -> Option<u16> {
    match message {
        Message::Open => Some(0u16),
        Message::Close => Some(90u16),
        Message::Shut => Some(180u16),
        Message::Stop => None,
    }
}

impl Motor {
    /// What every motor satisfies between calls: its signal range is not
    /// empty, and its pulse width lies in that range or is 0, the signal
    /// being off.
    pub open spec fn wf(motor: MotorView) -> bool {
        &&& motor.min < motor.max
        &&& motor.pulse_width == 0 || motor.min <= motor.pulse_width <= motor.max
    }

    /// A motor that was just built: at the closed position, its line fresh.
    pub open spec fn initial(period: u64, range: (u64, u64), pin: u16) -> MotorView {
        MotorView {
            period,
            pin: Pin::fresh(pin),
            min: range.0,
            max: range.1,
            pulse_width: pulse_width_at(range.0 as int, range.1 as int, 90) as u64,
            handle: None,
        }
    }

    /// Drives the line with pulses of `width`, and records the width once
    /// the line has taken it.
    fn drive(&mut self, width: u64) -> (r: Result<(), Error>)
        ensures
            final(self)@ == driven(old(self)@, width),
            match r {
                Ok(()) => drive_failure(old(self)@, width) is None,
                Err(e) => drive_failure(old(self)@, width) == Some(e),
            },
    {
        match self.pin.set_pwm(self.period, width) {
            Ok(()) => {
                self.pulse_width = width;
                Ok(())
            },
            Err(e) => Err(Error::CommunicationError(Some(e))),
        }
    }

    /// Sets the width of the pulse directly. A width of 0 turns the signal off.
    ///
    /// Fails with [`Error::OutOfBounds`] when `width` is neither 0 nor within
    /// the signal range, and with [`Error::CommunicationError`] when the line
    /// does not take the signal. A failed call changes nothing.
    pub fn set_pulse_width(&mut self, width: u64) -> (r: Result<(), Error>)
        requires
            Self::wf(old(self)@),
        ensures
            Self::wf(final(self)@),
            width != 0 && !(old(self)@.min <= width <= old(self)@.max) ==> {
                &&& r == Err::<(), Error>(Error::OutOfBounds)
                &&& final(self)@ == old(self)@
            },
            width == 0 || old(self)@.min <= width <= old(self)@.max ==> {
                &&& final(self)@ == driven(old(self)@, width)
                &&& match r {
                    Ok(()) => drive_failure(old(self)@, width) is None,
                    Err(e) => drive_failure(old(self)@, width) == Some(e),
                }
            },
    {
        if width != 0 && (width < self.signal_range.0 || width > self.signal_range.1) {
            return Err(Error::OutOfBounds);
        }
        self.drive(width)
    }

    /// Sets the motor's angle in degrees (relative to the open position).
    ///
    /// Fails with [`Error::OutOfBounds`] when `angle` is greater than 180, and
    /// with [`Error::CommunicationError`] when the line does not take the
    /// signal. A failed call changes nothing.
    pub fn set_angle(&mut self, angle: u16) -> (r: Result<(), Error>)
        requires
            Self::wf(old(self)@),
        ensures
            Self::wf(final(self)@),
            angle > 180 ==> {
                &&& r == Err::<(), Error>(Error::OutOfBounds)
                &&& final(self)@ == old(self)@
            },
            angle <= 180 ==> {
                let width = pulse_width_at(
                    old(self)@.min as int,
                    old(self)@.max as int,
                    angle as int,
                ) as u64;
                &&& old(self)@.min <= width <= old(self)@.max
                &&& final(self)@ == driven(old(self)@, width)
                &&& match r {
                    Ok(()) => drive_failure(old(self)@, width) is None,
                    Err(e) => drive_failure(old(self)@, width) == Some(e),
                }
            },
    {
        match pulse_width_for(self.signal_range.0, self.signal_range.1, angle) {
            Some(width) => self.drive(width),
            None => Err(Error::OutOfBounds),
        }
    }

    /// Sets the motor to the closed position (angle of 90 degrees).
    ///
    /// Fluid will flow through the valve, but not from the associated buffer.
    pub fn close(&mut self) -> (r: Result<(), Error>)
        requires
            Self::wf(old(self)@),
        ensures
            Self::wf(final(self)@),
            final(self)@ == driven(old(self)@, Self::target(old(self)@, 90)),
            match r {
                Ok(()) => drive_failure(old(self)@, Self::target(old(self)@, 90)) is None,
                Err(e) => drive_failure(old(self)@, Self::target(old(self)@, 90)) == Some(e),
            },
    {
        self.set_angle(90)
    }

    /// Sets the motor to the shut position, where no fluid will flow through it.
    pub fn shut(&mut self) -> (r: Result<(), Error>)
        requires
            Self::wf(old(self)@),
        ensures
            Self::wf(final(self)@),
            final(self)@ == driven(old(self)@, Self::target(old(self)@, 180)),
            match r {
                Ok(()) => drive_failure(old(self)@, Self::target(old(self)@, 180)) is None,
                Err(e) => drive_failure(old(self)@, Self::target(old(self)@, 180)) == Some(e),
            },
    {
        self.set_angle(180)
    }

    /// Sets the motor to the open position (angle of 0 degrees).
    ///
    /// Fluid from the associated buffer will flow through the valve.
    pub fn open(&mut self) -> (r: Result<(), Error>)
        requires
            Self::wf(old(self)@),
        ensures
            Self::wf(final(self)@),
            final(self)@ == driven(old(self)@, Self::target(old(self)@, 0)),
            match r {
                Ok(()) => drive_failure(old(self)@, Self::target(old(self)@, 0)) is None,
                Err(e) => drive_failure(old(self)@, Self::target(old(self)@, 0)) == Some(e),
            },
    {
        self.set_angle(0)
    }

    /// Turns the motor's output signal off.
    pub fn stop(&mut self) -> (r: Result<(), Error>)
        requires
            Self::wf(old(self)@),
        ensures
            Self::wf(final(self)@),
            final(self)@ == driven(old(self)@, 0),
            match r {
                Ok(()) => drive_failure(old(self)@, 0) is None,
                Err(e) => drive_failure(old(self)@, 0) == Some(e),
            },
    {
        self.set_pulse_width(0)
    }

    /// Whether a train of `count` pulses for `motor` can be appended to
    /// `queue` at the instant `now`: the pulse is no wider than the period,
    /// and the last fall can be written down.
    pub open spec fn train_fits(
        motor: MotorView,
        queue: Seq<ScheduledChange>,
        now: u64,
        count: u32,
    ) -> bool {
        &&& motor.pulse_width <= motor.period
        &&& train_end(
            train_base(queue, now) as int,
            motor.period as int,
            motor.pulse_width as int,
            count as int,
        ) <= u64::MAX
    }

    /// The pulse width that puts `motor` at `angle` degrees.
    pub open spec fn target(motor: MotorView, angle: int) -> u64 {
        pulse_width_at(motor.min as int, motor.max as int, angle) as u64
    }

    /// The motor with `refused` on record as the failure of its line, or
    /// with none on record.
    pub open spec fn noted(motor: MotorView, refused: Option<u32>) -> MotorView {
        MotorView { pin: PinView { fault: refused, ..motor.pin }, ..motor }
    }

    /// The pulse width that `message` asks of `motor`.
    pub open spec fn asked(motor: MotorView, message: Message) -> u64 {
        match position(message) {
            Some(angle) => Self::target(motor, angle as int),
            None => 0,
        }
    }

    /// The pulse width that `message` asks of this motor.
    fn asked_width(&self, message: Message) -> (width: u64)
        requires
            Self::wf(self@),
        ensures
            width == Self::asked(self@, message),
    {
        let angle: u16 = match message {
            Message::Open => 0,
            Message::Close => 90,
            Message::Shut => 180,
            Message::Stop => {
                return 0;
            },
        };
        match pulse_width_for(self.signal_range.0, self.signal_range.1, angle) {
            Some(width) => width,
            None => unreached(),
        }
    }

    /// The signal that `message` calls for on the motor's line, or `None`
    /// when its pulse would be longer than the period, which no line takes.
    /// Nothing is decided yet: the motor stays as it is.
    pub fn planned(&self, message: Message) -> (signal: Option<Pwm>)
        requires
            Self::wf(self@),
        ensures
            signal == if Self::asked(self@, message) <= self@.period {
                Some(Pwm { period: self@.period, pulse_width: Self::asked(self@, message) })
            } else {
                None
            },
    {
        let width = self.asked_width(message);
        if width <= self.period {
            Some(Pwm { period: self.period, pulse_width: width })
        } else {
            None
        }
    }

    /// Takes note of how the signal for `message` went on the hardware.
    ///
    /// With a refusal the failure is put on record for the line, and the
    /// motor stays where it was. Without one, any failure on record is
    /// cleared and the motor records the new pulse width. The call reports
    /// the refusal as the motor's error.
    pub fn committed(&mut self, message: Message, refused: Option<u32>) -> (r: Result<(), Error>)
        requires
            Self::wf(old(self)@),
        ensures
            Self::wf(final(self)@),
            final(self)@ == driven(
                Self::noted(old(self)@, refused),
                Self::asked(old(self)@, message),
            ),
            match r {
                Ok(()) => drive_failure(
                    Self::noted(old(self)@, refused),
                    Self::asked(old(self)@, message),
                ) is None,
                Err(e) => drive_failure(
                    Self::noted(old(self)@, refused),
                    Self::asked(old(self)@, message),
                ) == Some(e),
            },
    {
        match refused {
            Some(code) => self.pin.fail(code),
            None => self.pin.recover(),
        }
        self.handle(message)
    }

    /// Carries out the request that `message` stands for.
    pub fn handle(&mut self, message: Message) -> (r: Result<(), Error>)
        requires
            Self::wf(old(self)@),
        ensures
            Self::wf(final(self)@),
            final(self)@ == driven(old(self)@, Self::asked(old(self)@, message)),
            match r {
                Ok(()) => drive_failure(old(self)@, Self::asked(old(self)@, message)) is None,
                Err(e) => drive_failure(old(self)@, Self::asked(old(self)@, message)) == Some(e),
            },
    {
        match message {
            Message::Open => self.open(),
            Message::Close => self.close(),
            Message::Shut => self.shut(),
            Message::Stop => self.stop(),
        }
    }

    /// Constructs a new motor with the given period and signal range on the
    /// given line of `bank`, if possible.
    ///
    /// The motor is recorded at the closed position; nothing is written to
    /// the line yet. Fails with [`Error::OutOfBounds`] when the range is
    /// empty (`range.0 >= range.1`), and otherwise with
    /// [`Error::CommunicationError`] when the line cannot be claimed. A failed
    /// call leaves the bank as it was.
    pub fn try_new(bank: &mut PinBank, period: u64, range: (u64, u64), pin: u16) -> (r: Result<
        Self,
        Error,
    >)
        ensures
            match r {
                Ok(motor) => {
                    &&& range.0 < range.1
                    &&& PinBank::free(old(bank)@, pin as int)
                    &&& motor@ == Self::initial(period, range, pin)
                    &&& Self::wf(motor@)
                    &&& final(bank)@ == old(bank)@.update(pin as int, true)
                },
                Err(e) => {
                    &&& final(bank)@ == old(bank)@
                    &&& e == if range.0 >= range.1 {
                        Error::OutOfBounds
                    } else if pin >= old(bank)@.len() {
                        Error::CommunicationError(Some(PinError::NotFound))
                    } else {
                        Error::CommunicationError(Some(PinError::AlreadyInUse))
                    }
                    &&& range.0 >= range.1 || !PinBank::free(old(bank)@, pin as int)
                },
            },
    {
        if range.0 >= range.1 {
            return Err(Error::OutOfBounds);
        }
        let pulse_width = match pulse_width_for(range.0, range.1, 90) {
            Some(width) => width,
            None => unreached(),
        };
        match Pin::try_new(bank, pin) {
            Ok(pin) => Ok(
                Motor { period, pin, signal_range: range, pulse_width, main_handle: None },
            ),
            Err(e) => Err(Error::CommunicationError(Some(e))),
        }
    }

    /// Queues a train of `count` pulses for the motor, at its period and its
    /// current pulse width; see [`PulseQueue::add_pulses`].
    ///
    /// Fails with [`Error::OutOfBounds`] when the pulse is wider than the
    /// period or the train would end past `u64::MAX`; the queue is then
    /// unchanged.
    pub fn add_pulses(&self, queue: &mut PulseQueue, now: u64, count: u32) -> (r: Result<(), Error>)
        requires
            PulseQueue::wf(old(queue)@),
        ensures
            PulseQueue::wf(final(queue)@),
            r is Ok <==> Self::train_fits(self@, old(queue)@, now, count),
            match r {
                Ok(()) => final(queue)@ == old(queue)@ + train(
                    train_base(old(queue)@, now) as int,
                    self@.period as int,
                    self@.pulse_width as int,
                    count as int,
                ),
                Err(e) => e == Error::OutOfBounds && final(queue)@ == old(queue)@,
            },
    {
        match queue.add_pulses(now, self.period, self.pulse_width, count) {
            Ok(()) => Ok(()),
            Err(_) => Err(Error::OutOfBounds),
        }
    }

    /// The characteristic period of the motor.
    pub fn period(&self) -> (period: u64)
        ensures
            period == self@.period,
    {
        self.period
    }

    /// The two ends of the signal range, narrowest pulse first.
    pub fn signal_range(&self) -> (range: (u64, u64))
        ensures
            range == (self@.min, self@.max),
    {
        self.signal_range
    }

    /// The width of the pulse that the line last took, or the one the motor
    /// was built with; 0 when the signal is off.
    pub fn pulse_width(&self) -> (width: u64)
        ensures
            width == self@.pulse_width,
    {
        self.pulse_width
    }

    /// The line the motor is driven through.
    pub fn pin(&self) -> (pin: &Pin)
        ensures
            pin@ == self@.pin,
    {
        &self.pin
    }

    /// The handle of whatever is driving a pulse train for this motor.
    pub fn main_handle(&self) -> (handle: Option<u64>)
        ensures
            handle == self@.handle,
    {
        self.main_handle
    }

    /// Records `handle` as the one driving this motor and returns the handle
    /// it takes over from, which the caller is to cancel.
    pub fn supersede(&mut self, handle: Option<u64>) -> (superseded: Option<u64>)
        ensures
            superseded == old(self)@.handle,
            final(self)@ == (MotorView { handle, ..old(self)@ }),
    {
        let superseded = self.main_handle;
        self.main_handle = handle;
        superseded
    }

    /// Records that the hardware refused a write to the motor's line; see
    /// [`Pin::fail`].
    pub fn fail(&mut self, cause: u32)
        ensures
            final(self)@ == (MotorView {
                pin: PinView { fault: Some(cause), ..old(self)@.pin },
                ..old(self)@
            }),
    {
        self.pin.fail(cause);
    }

    /// Clears a failure recorded for the motor's line; see [`Pin::recover`].
    pub fn recover(&mut self)
        ensures
            final(self)@ == (MotorView {
                pin: PinView { fault: None, ..old(self)@.pin },
                ..old(self)@
            }),
    {
        self.pin.recover();
    }

    /// Constructs a new motor with the given period and signal range on the
    /// given line of `bank`. The range must not be empty and the line must
    /// be there and free; for a fallible initializer, see [`Motor::try_new`].
    pub fn new(bank: &mut PinBank, period: u64, range: (u64, u64), pin: u16) -> (motor: Self)
        requires
            range.0 < range.1,
            PinBank::free(old(bank)@, pin as int),
        ensures
            motor@ == Self::initial(period, range, pin),
            Self::wf(motor@),
            final(bank)@ == old(bank)@.update(pin as int, true),
    {
        match Self::try_new(bank, period, range, pin) {
            Ok(motor) => motor,
            Err(_) => unreached(),
        }
    }
}

/// The pulse grows with the angle and stays within the signal range.
///
/// For a range from `min` to `max` and angles `a <= b` of at most 180
/// degrees, the pulse width for `a` is at most the one for `b`, and both lie
/// between `min` and `max`.
pub proof fn law_pulse_width_monotonic(min: int, max: int, a: int, b: int)
    requires
        min <= max,
        0 <= a <= b <= 180,
    ensures
        min <= pulse_width_at(min, max, a) <= pulse_width_at(min, max, b) <= max,
{
    let delta = max - min;
    assert(0 <= delta * a <= delta * b <= delta * 180) by (nonlinear_arith)
        requires
            0 <= delta,
            0 <= a <= b <= 180,
    ;
    assert(0 <= (delta * a) / 180 <= (delta * b) / 180 <= delta) by (nonlinear_arith)
        requires
            0 <= delta * a <= delta * b <= delta * 180,
    ;
}

/// The three named positions: 0 degrees is the narrowest pulse, 90 degrees
/// the middle of the range (rounded down), 180 degrees the widest pulse.
pub proof fn law_named_positions(min: int, max: int)
    requires
        0 <= min <= max,
    ensures
        pulse_width_at(min, max, 0) == min,
        pulse_width_at(min, max, 90) == (min + max) / 2,
        pulse_width_at(min, max, 180) == max,
{
    let delta = max - min;
    assert(delta * 0 / 180 == 0) by (nonlinear_arith);
    assert(delta * 180 / 180 == delta) by (nonlinear_arith);
    assert(delta * 90 / 180 == delta / 2) by (nonlinear_arith);
    assert((min + max) / 2 == min + delta / 2) by (nonlinear_arith)
        requires
            delta == max - min,
    ;
}

/// Opening, closing and shutting put the motor where they say.
///
/// When the line takes the signal, a motor that was opened has the narrowest
/// pulse of its range, one that was closed the middle of the range, and one
/// that was shut the widest. When the line does not, nothing has changed.
pub proof fn law_open_close_shut(motor: MotorView, message: Message)
    requires
        Motor::wf(motor),
    ensures
        drive_failure(motor, Motor::asked(motor, message)) is None ==> driven(
            motor,
            Motor::asked(motor, message),
        ).pulse_width == match message {
            Message::Open => motor.min as int,
            Message::Close => (motor.min + motor.max) / 2,
            Message::Shut => motor.max as int,
            Message::Stop => 0,
        },
        drive_failure(motor, Motor::asked(motor, message)) is Some ==> driven(
            motor,
            Motor::asked(motor, message),
        ) == motor,
{
    law_named_positions(motor.min as int, motor.max as int);
}

} // verus!
