//! Output lines and the bank that hands them out.

use vstd::prelude::*;

verus! {

/// Why a line could not be claimed or written.
#[derive(Clone, Copy, Debug, PartialEq, Eq, Structural)]
pub enum Error {
    /// The bank has no line with this number.
    NotFound,
    /// The line is already claimed by another actuator.
    AlreadyInUse,
    /// The hardware refused a write; the code is the one it reported.
    Io(u32),
    /// A pulse was asked to last longer than its period.
    PulseTooLong,
}

/// A repeating signal: the line is high for `pulse_width` out of every `period`.
#[derive(Clone, Copy, Debug, PartialEq, Eq, Structural)]
pub struct Pwm {
    /// Length of one cycle.
    pub period: u64,
    /// Time spent high in each cycle.
    pub pulse_width: u64,
}

/// What a [`Pin`] stands for in contracts.
pub struct PinView {
    /// The number of the line.
    pub number: u16,
    /// The level last written.
    pub level: bool,
    /// The repeating signal last programmed, if any.
    pub signal: Option<Pwm>,
    /// The failure last reported for the line, if it has not been cleared.
    pub fault: Option<u32>,
}

/// One claimed output line.
///
/// A pin is not `Clone`: whoever holds it is the only writer of its line.
#[derive(Debug)]
pub struct Pin {
    number: u16,
    level: bool,
    signal: Option<Pwm>,
    fault: Option<u32>,
}

impl View for Pin {
    type V = PinView;

    closed spec fn view(&self) -> PinView {
        PinView { number: self.number, level: self.level, signal: self.signal, fault: self.fault }
    }
}

/// The outcome of writing `level` to a line in state `pin`.
pub open spec fn written(pin: PinView, level: bool) -> PinView {
    if pin.fault is Some {
        pin
    } else {
        PinView { level, signal: None, ..pin }
    }
}

/// The outcome of programming `signal` on a line in state `pin`.
pub open spec fn programmed(pin: PinView, signal: Pwm) -> PinView {
    if signal.pulse_width > signal.period || pin.fault is Some {
        pin
    } else {
        PinView { level: false, signal: Some(signal), ..pin }
    }
}

impl Pin {
    /// A line that was just claimed: low, with no signal and no fault.
    pub open spec fn fresh(number: u16) -> PinView {
        PinView { number, level: false, signal: None, fault: None }
    }

    /// Claims line `number` of `bank`; see [`PinBank::claim`].
    pub fn try_new(bank: &mut PinBank, number: u16) -> (r: Result<Pin, Error>)
        ensures
            match r {
                Ok(pin) => PinBank::free(old(bank)@, number as int) && pin@ == Pin::fresh(number)
                    && final(bank)@ == old(bank)@.update(number as int, true),
                Err(e) => final(bank)@ == old(bank)@ && if number >= old(bank)@.len() {
                    e == Error::NotFound
                } else {
                    e == Error::AlreadyInUse && old(bank)@[number as int]
                },
            },
    {
        bank.claim(number)
    }

    /// The number of the line.
    pub fn number(&self) -> (n: u16)
        ensures
            n == self@.number,
    {
        self.number
    }

    /// The level last written.
    pub fn level(&self) -> (l: bool)
        ensures
            l == self@.level,
    {
        self.level
    }

    /// The repeating signal last programmed, if any.
    pub fn signal(&self) -> (s: Option<Pwm>)
        ensures
            s == self@.signal,
    {
        self.signal
    }

    /// The failure last reported for the line, if any.
    pub fn fault(&self) -> (f: Option<u32>)
        ensures
            f == self@.fault,
    {
        self.fault
    }

    /// Records that the hardware refused a write to this line. Until
    /// [`Pin::recover`] is called every write to the line fails with `cause`.
    pub fn fail(&mut self, cause: u32)
        ensures
            final(self)@ == (PinView { fault: Some(cause), ..old(self)@ }),
    {
        self.fault = Some(cause);
    }

    /// Clears a reported failure.
    pub fn recover(&mut self)
        ensures
            final(self)@ == (PinView { fault: None, ..old(self)@ }),
    {
        self.fault = None;
    }

    /// Records that the hardware has taken `level` on this line, whatever
    /// was on record for it before. Any repeating signal on the line has ended.
    pub fn record(&mut self, level: bool)
        ensures
            final(self)@ == (PinView { level, signal: None, ..old(self)@ }),
    {
        self.level = level;
        self.signal = None;
    }

    /// Writes `level`. Any repeating signal on the line ends.
    ///
    /// Fails with [`Error::Io`] exactly when a failure is on record, and then
    /// changes nothing.
    pub fn set(&mut self, level: bool) -> (r: Result<(), Error>)
        ensures
            final(self)@ == written(old(self)@, level),
            match old(self)@.fault {
                Some(cause) => r == Err::<(), Error>(Error::Io(cause)),
                None => r is Ok,
            },
    {
        match self.fault {
            Some(cause) => Err(Error::Io(cause)),
            None => {
                self.level = level;
                self.signal = None;
                Ok(())
            },
        }
    }

    /// Writes a high level.
    pub fn set_high(&mut self) -> (r: Result<(), Error>)
        ensures
            final(self)@ == written(old(self)@, true),
            match old(self)@.fault {
                Some(cause) => r == Err::<(), Error>(Error::Io(cause)),
                None => r is Ok,
            },
    {
        self.set(true)
    }

    /// Writes a low level.
    pub fn set_low(&mut self) -> (r: Result<(), Error>)
        ensures
            final(self)@ == written(old(self)@, false),
            match old(self)@.fault {
                Some(cause) => r == Err::<(), Error>(Error::Io(cause)),
                None => r is Ok,
            },
    {
        self.set(false)
    }

    /// Programs a repeating signal of the given period and pulse width.
    ///
    /// Fails with [`Error::PulseTooLong`] when the pulse is longer than the
    /// period, else with [`Error::Io`] when a failure is on record; a failed
    /// call changes nothing.
    pub fn set_pwm(&mut self, period: u64, pulse_width: u64) -> (r: Result<(), Error>)
        ensures
            final(self)@ == programmed(old(self)@, Pwm { period, pulse_width }),
            pulse_width > period ==> r == Err::<(), Error>(Error::PulseTooLong),
            pulse_width <= period ==> match old(self)@.fault {
                Some(cause) => r == Err::<(), Error>(Error::Io(cause)),
                None => r is Ok,
            },
    {
        if pulse_width > period {
            return Err(Error::PulseTooLong);
        }
        match self.fault {
            Some(cause) => Err(Error::Io(cause)),
            None => {
                self.level = false;
                self.signal = Some(Pwm { period, pulse_width });
                Ok(())
            },
        }
    }
}

/// The lines of one output header, and which of them are taken.
///
/// Entry `n` of the view is `true` while line `n` is claimed.
#[derive(Debug)]
pub struct PinBank {
    claimed: Vec<bool>,
}

impl View for PinBank {
    type V = Seq<bool>;

    closed spec fn view(&self) -> Seq<bool> {
        self.claimed@
    }
}

impl PinBank {
    /// Whether `number` names a line of a bank in state `bank` that nobody holds.
    pub open spec fn free(bank: Seq<bool>, number: int) -> bool {
        0 <= number < bank.len() && !bank[number]
    }

    /// A bank of `lines` lines, numbered from 0, none of them claimed.
    pub fn new(lines: u16) -> (bank: Self)
        ensures
            bank@.len() == lines,
            forall|n: int| 0 <= n < lines ==> !bank@[n],
    {
        let mut claimed: Vec<bool> = Vec::new();
        let mut n: u16 = 0;
        while n < lines
            invariant
                n <= lines,
                claimed@.len() == n,
                forall|k: int| 0 <= k < n ==> !claimed@[k],
            decreases lines - n,
        {
            claimed.push(false);
            n += 1;
        }
        PinBank { claimed }
    }

    /// How many lines the bank has.
    pub fn lines(&self) -> (n: usize)
        ensures
            n == self@.len(),
    {
        self.claimed.len()
    }

    /// Whether line `number` is currently claimed.
    pub fn is_claimed(&self, number: u16) -> (taken: bool)
        ensures
            taken == (number < self@.len() && self@[number as int]),
    {
        let index: usize = number as usize;
        index < self.claimed.len() && self.claimed[index]
    }

    /// Claims line `number`.
    ///
    /// Fails with [`Error::NotFound`] when the bank has no such line and with
    /// [`Error::AlreadyInUse`] when the line is taken; the bank is then
    /// unchanged. Otherwise the line is marked as taken and returned fresh.
    pub fn claim(&mut self, number: u16) -> (r: Result<Pin, Error>)
        ensures
            match r {
                Ok(pin) => Self::free(old(self)@, number as int) && pin@ == Pin::fresh(number)
                    && final(self)@ == old(self)@.update(number as int, true),
                Err(e) => final(self)@ == old(self)@ && if number >= old(self)@.len() {
                    e == Error::NotFound
                } else {
                    e == Error::AlreadyInUse && old(self)@[number as int]
                },
            },
    {
        let index: usize = number as usize;
        if index >= self.claimed.len() {
            return Err(Error::NotFound);
        }
        if self.claimed[index] {
            return Err(Error::AlreadyInUse);
        }
        self.claimed[index] = true;
        Ok(Pin { number, level: false, signal: None, fault: None })
    }

    /// Gives a line back: it may be claimed again.
    pub fn release(&mut self, pin: Pin)
        ensures
            pin@.number < old(self)@.len() ==> final(self)@ == old(self)@.update(
                pin@.number as int,
                false,
            ),
            pin@.number >= old(self)@.len() ==> final(self)@ == old(self)@,
    {
        let index: usize = pin.number as usize;
        if index < self.claimed.len() {
            self.claimed[index] = false;
        }
    }
}

} // verus!
