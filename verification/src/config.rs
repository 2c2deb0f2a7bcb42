//! Handles user-given configuration: motor types, pins, etc.

use vstd::prelude::*;

verus! {

/// Why a configuration cannot be used.
#[derive(Clone, Debug, PartialEq, Eq)]
pub enum ConfigError {
    /// The motor on line `pin` has a signal range whose first value is not
    /// below its second.
    EmptyRange {
        /// The line of the motor.
        pin: u16,
    },
    /// The period of the motor on line `pin` is too long to be counted in microseconds.
    PeriodTooLong {
        /// The line of the motor.
        pin: u16,
    },
    /// More than one actuator is set on each of these lines.
    PinConflict {
        /// The numbers of the contested lines, each once.
        pins: Vec<u16>,
    },
}

/// Fully specifies a motor.
// To prevent multiple things on one pin, this is not Copy.
#[derive(Clone, Debug)]
pub struct MotorSpec {
    pin: u16,
    range: [u32; 2],  // microseconds
    period: u64,  // milliseconds
}

/// What a [`MotorSpec`] stands for in contracts.
pub struct MotorSpecView {
    /// The line the motor is attached to.
    pub pin: u16,
    /// The narrowest useful pulse, in microseconds.
    pub min: u32,
    /// The widest useful pulse, in microseconds.
    pub max: u32,
    /// The period of the motor, in milliseconds.
    pub period: u64,
}

impl View for MotorSpec {
    type V = MotorSpecView;

    closed spec fn view(&self) -> MotorSpecView {
        MotorSpecView { pin: self.pin, min: self.range@[0], max: self.range@[1], period: self.period }
    }
}

/// The longest period, in milliseconds, that can be counted in microseconds.
pub const MAX_PERIOD_MILLIS: u64 = 18_446_744_073_709_551;

impl MotorSpec {
    /// A motor on line `pin` with the given signal range, in microseconds,
    /// and period, in milliseconds.
    pub fn new(pin: u16, range: [u32; 2], period: u64) -> (spec: Self)
        ensures
            spec@ == (MotorSpecView { pin, min: range@[0], max: range@[1], period }),
    {
        MotorSpec { pin, range, period }
    }

    /// Returns the pin the motor is attached to.
    pub fn get_pin(&self) -> (pin: u16)
        ensures
            pin == self@.pin,
    {
        self.pin
    }

    /// Returns the minimum useful duty cycle.
    pub fn get_min(&self) -> (min: u32)
        ensures
            min == self@.min,
    {
        self.range[0]
    }

    /// Returns the maximum useful duty cycle.
    pub fn get_max(&self) -> (max: u32)
        ensures
            max == self@.max,
    {
        self.range[1]
    }

    /// Returns the period of the motor.
    pub fn get_period(&self) -> (period: u64)
        ensures
            period == self@.period,
    {
        self.period
    }

    /// What is wrong with a motor specified as `spec`, if anything: an empty
    /// signal range first, then a period too long to count.
    pub open spec fn defect(spec: MotorSpecView) -> Option<ConfigError> {
        if spec.min >= spec.max {
            Some(ConfigError::EmptyRange { pin: spec.pin })
        } else if spec.period > MAX_PERIOD_MILLIS {
            Some(ConfigError::PeriodTooLong { pin: spec.pin })
        } else {
            None
        }
    }

    /// Checks that the signal range is not empty and that the period can be
    /// counted in microseconds.
    pub fn check(&self) -> (r: Result<(), ConfigError>)
        ensures
            match r {
                Ok(()) => Self::defect(self@) is None,
                Err(e) => Self::defect(self@) == Some(e),
            },
    {
        if self.range[0] >= self.range[1] {
            Err(ConfigError::EmptyRange { pin: self.pin })
        } else if self.period > MAX_PERIOD_MILLIS {
            Err(ConfigError::PeriodTooLong { pin: self.pin })
        } else {
            Ok(())
        }
    }
}

/// The four lines of the pump's H-bridge, by slot.
#[derive(Clone, Copy, Debug, PartialEq, Eq)]
pub struct PumpConfig {
    /// The numbers of the lines, by slot.
    pub pins: [u8; 4],
}

/// Holds the configuration for the given instance.
#[derive(Debug)]
pub struct Config {
    motors: Vec<MotorSpec>,
    pump: Option<PumpConfig>,
}

/// What a [`Config`] stands for in contracts.
pub struct ConfigView {
    /// The motors, in the order in which they were given.
    pub motors: Seq<MotorSpecView>,
    /// The lines of the pump by slot, if there is a pump.
    pub pump: Option<Seq<u8>>,
}

impl View for Config {
    type V = ConfigView;

    closed spec fn view(&self) -> ConfigView {
        ConfigView {
            motors: Seq::new(self.motors@.len(), |i: int| self.motors@[i]@),
            pump: match self.pump {
                Some(pump) => Some(pump.pins@),
                None => None,
            },
        }
    }
}

/// The lines that a configuration sets an actuator on: one for each motor,
/// in order, then the four of the pump.
pub open spec fn claims(config: ConfigView) -> Seq<u16> {
    let motors = Seq::new(config.motors.len(), |i: int| config.motors[i].pin);
    match config.pump {
        Some(pins) => motors + Seq::new(4, |i: int| pins[i] as u16),
        None => motors,
    }
}

/// The numbers that occur more than once in `lines`, each once, in the order
/// in which their first repetition comes.
pub open spec fn repeated(lines: Seq<u16>) -> Seq<u16>
    decreases lines.len(),
{
    if lines.len() == 0 {
        Seq::empty()
    } else {
        let before = repeated(lines.drop_last());
        let last = lines.last();
        if lines.drop_last().contains(last) && !before.contains(last) {
            before.push(last)
        } else {
            before
        }
    }
}

/// Where the first motor with something wrong stands in `motors`, if `at`
/// is that place.
pub open spec fn first_defect_at(motors: Seq<MotorSpecView>, at: int) -> bool {
    &&& 0 <= at < motors.len()
    &&& MotorSpec::defect(motors[at]) is Some
    &&& forall|k: int| 0 <= k < at ==> MotorSpec::defect(#[trigger] motors[k]) is None
}

/// Whether `error` is what is wrong with `config`: the defect of its first
/// motor that has one, or, if no motor has one, the list of the lines with
/// more than one actuator on them, which is not empty.
pub open spec fn rejected(config: ConfigView, error: ConfigError) -> bool {
    match error {
        ConfigError::PinConflict { pins } => {
            &&& forall|k: int|
                0 <= k < config.motors.len() ==> MotorSpec::defect(
                    #[trigger] config.motors[k],
                ) is None
            &&& pins@ == repeated(claims(config))
            &&& pins@.len() > 0
        },
        _ => exists|at: int|
            first_defect_at(config.motors, at) && MotorSpec::defect(config.motors[at]) == Some(
                error,
            ),
    }
}

/// Whether `lines[..upto]` holds `line`.
fn holds(lines: &Vec<u16>, upto: usize, line: u16) -> (found: bool)
    requires
        upto <= lines@.len(),
    ensures
        found == lines@.take(upto as int).contains(line),
{
    let mut i: usize = 0;
    while i < upto
        invariant
            i <= upto <= lines@.len(),
            !lines@.take(i as int).contains(line),
        decreases upto - i,
    {
        if lines[i] == line {
            proof {
                assert(lines@.take(upto as int)[i as int] == line);
            }
            return true;
        }
        proof {
            assert(lines@.take(i + 1) =~= lines@.take(i as int).push(lines@[i as int]));
        }
        i += 1;
    }
    false
}

/// Lists the numbers that occur more than once in `lines`.
pub fn find_repeated(lines: &Vec<u16>) -> (found: Vec<u16>)
    ensures
        found@ == repeated(lines@),
{
    let mut found: Vec<u16> = Vec::new();
    let mut i: usize = 0;
    while i < lines.len()
        invariant
            i <= lines@.len(),
            found@ == repeated(lines@.take(i as int)),
            found@.len() <= i,
        decreases lines@.len() - i,
    {
        let line = lines[i];
        let seen = holds(lines, i, line);
        let listed = holds(&found, found.len(), line);
        proof {
            assert(lines@.take(i + 1).drop_last() =~= lines@.take(i as int));
            assert(found@.take(found@.len() as int) =~= found@);
        }
        if seen && !listed {
            found.push(line);
        }
        i += 1;
    }
    proof {
        assert(lines@.take(lines@.len() as int) =~= lines@);
    }
    found
}

impl Config {
    /// A configuration with the given motors and pump.
    pub fn new(motors: Vec<MotorSpec>, pump: Option<PumpConfig>) -> (config: Self)
        ensures
            config@.motors == Seq::new(motors@.len(), |i: int| motors@[i]@),
            config@.pump == match pump {
                Some(pump) => Some(pump.pins@),
                None => None,
            },
    {
        Config { motors, pump }
    }

    /// All motors specified by the configuration.
    pub fn motors(&self) -> (motors: &[MotorSpec])
        ensures
            motors@.len() == self@.motors.len(),
            forall|i: int| 0 <= i < motors@.len() ==> (#[trigger] motors@[i])@ == self@.motors[i],
    {
        self.motors.as_slice()
    }

    /// The pump specified by the configuration, if any.
    pub fn pump(&self) -> (pump: Option<PumpConfig>)
        ensures
            self@.pump == match pump {
                Some(pump) => Some(pump.pins@),
                None => None,
            },
    {
        self.pump
    }

    /// The lines that the configuration sets an actuator on: one for each
    /// motor, in order, then the four of the pump.
    pub fn claims(&self) -> (lines: Vec<u16>)
        ensures
            lines@ == claims(self@),
    {
        let mut lines: Vec<u16> = Vec::new();
        let mut i: usize = 0;
        while i < self.motors.len()
            invariant
                i <= self.motors@.len(),
                lines@ == Seq::new(i as nat, |k: int| self.motors@[k]@.pin),
            decreases self.motors@.len() - i,
        {
            lines.push(self.motors[i].get_pin());
            proof {
                assert(lines@ =~= Seq::new((i + 1) as nat, |k: int| self.motors@[k]@.pin));
            }
            i += 1;
        }
        proof {
            assert(lines@ =~= Seq::new(self@.motors.len(), |k: int| self@.motors[k].pin));
        }
        match self.pump {
            Some(pump) => {
                let ghost motors = lines@;
                lines.push(pump.pins[0] as u16);
                lines.push(pump.pins[1] as u16);
                lines.push(pump.pins[2] as u16);
                lines.push(pump.pins[3] as u16);
                proof {
                    assert(lines@ =~= motors + Seq::new(4, |k: int| pump.pins@[k] as u16));
                }
            },
            None => {},
        }
        lines
    }

    /// The lines on which the configuration sets more than one actuator.
    pub fn conflicts(&self) -> (pins: Vec<u16>)
        ensures
            pins@ == repeated(claims(self@)),
    {
        let lines = self.claims();
        find_repeated(&lines)
    }

    /// Checks the whole configuration.
    ///
    /// The motors are checked in order, and the first with something wrong
    /// is reported; see [`MotorSpec::check`]. If nothing is wrong with any of
    /// them, the lines are checked: a line with more than one actuator on it
    /// fails the configuration with [`ConfigError::PinConflict`], which lists
    /// every such line.
    pub fn validate(&self) -> (r: Result<(), ConfigError>)
        ensures
            match r {
                Ok(()) => {
                    &&& forall|k: int|
                        0 <= k < self@.motors.len() ==> MotorSpec::defect(
                            #[trigger] self@.motors[k],
                        ) is None
                    &&& repeated(claims(self@)).len() == 0
                },
                Err(e) => rejected(self@, e),
            },
    {
        let mut i: usize = 0;
        while i < self.motors.len()
            invariant
                i <= self.motors@.len(),
                forall|k: int| 0 <= k < i ==> MotorSpec::defect(#[trigger] self@.motors[k]) is None,
            decreases self.motors@.len() - i,
        {
            match self.motors[i].check() {
                Ok(()) => {},
                Err(e) => {
                    proof {
                        assert(self@.motors[i as int] == self.motors@[i as int]@);
                        assert(first_defect_at(self@.motors, i as int));
                    }
                    return Err(e);
                },
            }
            i += 1;
        }
        let pins = self.conflicts();
        if pins.len() > 0 {
            Err(ConfigError::PinConflict { pins })
        } else {
            Ok(())
        }
    }
}

impl Default for Config {
    /// A rig with nothing attached: no motors and no pump.
    fn default() -> (config: Self)
        ensures
            config@.motors.len() == 0,
            config@.pump is None,
    {
        Config { motors: Vec::new(), pump: None }
    }
}

/// What the list of contested lines holds.
///
/// A number is listed exactly when it stands in two different places of
/// `lines`, and no number is listed twice.
pub proof fn law_repeated_lists_conflicts(lines: Seq<u16>)
    ensures
        repeated(lines).no_duplicates(),
        forall|n: u16| #[trigger]
            repeated(lines).contains(n) <==> exists|i: int, j: int|
                0 <= i < j < lines.len() && lines[i] == n && lines[j] == n,
    decreases lines.len(),
{
    if lines.len() == 0 {
    } else {
        let head = lines.drop_last();
        let last = lines.last();
        law_repeated_lists_conflicts(head);
        let before = repeated(head);
        let now = repeated(lines);
        assert forall|n: u16| #[trigger]
            now.contains(n) <==> exists|i: int, j: int|
                0 <= i < j < lines.len() && lines[i] == n && lines[j] == n by {
            if now.contains(n) {
                if before.contains(n) {
                    let (i, j) = choose|i: int, j: int|
                        0 <= i < j < head.len() && head[i] == n && head[j] == n;
                    assert(lines[i] == n && lines[j] == n);
                } else {
                    let at = choose|at: int| 0 <= at < now.len() && now[at] == n;
                    assert(now == before.push(last));
                    if at < before.len() {
                        assert(before[at] == n);
                    }
                    assert(n == last);
                    let i = choose|i: int| 0 <= i < head.len() && head[i] == last;
                    assert(lines[i] == n && lines[lines.len() - 1] == n);
                }
            }
            if exists|i: int, j: int| 0 <= i < j < lines.len() && lines[i] == n && lines[j] == n {
                let (i, j) = choose|i: int, j: int|
                    0 <= i < j < lines.len() && lines[i] == n && lines[j] == n;
                if j < head.len() {
                    assert(head[i] == n && head[j] == n);
                    assert(before.contains(n));
                    let at = choose|at: int| 0 <= at < before.len() && before[at] == n;
                    if now != before {
                        assert(now[at] == n);
                    }
                } else {
                    assert(head[i] == last);
                    assert(head.contains(last));
                    if before.contains(last) {
                    } else {
                        assert(now[now.len() - 1] == last);
                    }
                }
            }
        }
    }
}

} // verus!
