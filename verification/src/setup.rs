//! Building a rig from its configuration.
//!
//! Everything that can be wrong with a configuration is found here, before
//! any line is claimed: a rig is built whole or not at all.

use crate::comm::{Coordinator, CoordinatorView, Rig, State};
use crate::config::{claims, law_repeated_lists_conflicts, repeated, Config, ConfigError, ConfigView, MotorSpec, MotorSpecView};
use crate::motor::{Motor, MotorView};
use crate::pin::{Error as PinError, PinBank};
use crate::pump::{claimed, first_blocked, Pump};
use vstd::prelude::*;

verus! {

/// Why a rig could not be built.
#[derive(Clone, Debug, PartialEq, Eq)]
pub enum SetupError {
    /// The configuration is wrong in itself.
    Config(ConfigError),
    /// The configuration asks for a line that the bank cannot give.
    Line {
        /// The number of the line.
        line: u16,
        /// Why it cannot be claimed.
        error: PinError,
    },
}

/// The motor that is built from `spec`: the period goes from milliseconds
/// to microseconds, the rest is taken as it is.
pub open spec fn built(spec: MotorSpecView) -> MotorView {
    Motor::initial((spec.period * 1000) as u64, (spec.min as u64, spec.max as u64), spec.pin)
}

/// Whether a configuration is right in itself: nothing is wrong with any
/// motor, and no line has two actuators on it.
pub open spec fn sound(config: ConfigView) -> bool {
    &&& forall|k: int|
        0 <= k < config.motors.len() ==> MotorSpec::defect(#[trigger] config.motors[k]) is None
    &&& repeated(claims(config)).len() == 0
}

/// Whether `at` is the place of the first line of `lines` that a bank in
/// state `bank` cannot give.
pub open spec fn first_taken_at(bank: Seq<bool>, lines: Seq<u16>, at: int) -> bool {
    &&& 0 <= at < lines.len()
    &&& !PinBank::free(bank, lines[at] as int)
    &&& forall|k: int| 0 <= k < at ==> PinBank::free(bank, #[trigger] lines[k] as int)
}

/// Whether `lines` names line `n`.
pub open spec fn names(lines: Seq<u16>, n: int) -> bool {
    exists|k: int| 0 <= k < lines.len() && (#[trigger] lines[k]) == n
}

/// The rig that is built from `config`, before its first run.
pub open spec fn assembled(config: ConfigView) -> CoordinatorView {
    CoordinatorView {
        rig: Rig {
            motors: Seq::new(config.motors.len(), |i: int| built(config.motors[i])),
            pump: match config.pump {
                Some(pins) => Some(Pump::initial(pins)),
                None => None,
            },
        },
        steps: Seq::empty(),
        state: State::Idle,
        acknowledged: 0,
        last_error: None,
        updates: Seq::empty(),
    }
}

/// A list in which nothing is repeated has no two places with the same number.
proof fn lemma_unrepeated_is_distinct(lines: Seq<u16>)
    requires
        repeated(lines).len() == 0,
    ensures
        forall|i: int, j: int| 0 <= i < j < lines.len() ==> lines[i] != lines[j],
{
    law_repeated_lists_conflicts(lines);
    assert forall|i: int, j: int| 0 <= i < j < lines.len() implies lines[i] != lines[j] by {
        if lines[i] == lines[j] {
            let n = lines[i];
            assert(repeated(lines).contains(n));
        }
    }
}

/// Builds the rig that `config` describes on the lines of `bank`.
///
/// The configuration is checked first, as [`Config::validate`] does. Then
/// every line it names is looked up in the bank, in the order of
/// [`Config::claims`]; the first that the bank lacks or has given away fails
/// the attempt. Only then are the lines claimed, so a failed attempt leaves
/// the bank as it was. The rig starts idle, each motor at its closed
/// position and the pump stopped, with nothing written to any line.
pub fn assemble(bank: &mut PinBank, config: &Config) -> (r: Result<Coordinator, SetupError>)
    ensures
        match r {
            Ok(rig) => {
                &&& sound(config@)
                &&& forall|k: int|
                    0 <= k < claims(config@).len() ==> PinBank::free(
                        old(bank)@,
                        #[trigger] claims(config@)[k] as int,
                    )
                &&& rig@ == assembled(config@)
                &&& Coordinator::wf(rig@)
                &&& final(bank)@.len() == old(bank)@.len()
                &&& forall|n: int|
                    0 <= n < old(bank)@.len() ==> (#[trigger] final(bank)@[n]) == (old(bank)@[n]
                        || names(claims(config@), n))
            },
            Err(SetupError::Config(e)) => {
                &&& !sound(config@)
                &&& crate::config::rejected(config@, e)
                &&& final(bank)@ == old(bank)@
            },
            Err(SetupError::Line { line, error }) => {
                &&& sound(config@)
                &&& exists|at: int|
                    first_taken_at(old(bank)@, claims(config@), at) && claims(config@)[at] == line
                &&& error == if line >= old(bank)@.len() {
                    PinError::NotFound
                } else {
                    PinError::AlreadyInUse
                }
                &&& final(bank)@ == old(bank)@
            },
        },
{
    match config.validate() {
        Ok(()) => {},
        Err(e) => {
            return Err(SetupError::Config(e));
        },
    }
    let lines = config.claims();
    let mut looked: usize = 0;
    while looked < lines.len()
        invariant
            looked <= lines@.len(),
            bank@ == old(bank)@,
            sound(config@),
            lines@ == claims(config@),
            forall|k: int| 0 <= k < looked ==> PinBank::free(bank@, #[trigger] lines@[k] as int),
        decreases lines@.len() - looked,
    {
        let line = lines[looked];
        if line as usize >= bank.lines() {
            proof {
                assert(first_taken_at(bank@, lines@, looked as int));
            }
            return Err(SetupError::Line { line, error: PinError::NotFound });
        }
        if bank.is_claimed(line) {
            proof {
                assert(first_taken_at(bank@, lines@, looked as int));
            }
            return Err(SetupError::Line { line, error: PinError::AlreadyInUse });
        }
        looked += 1;
    }
    proof {
        lemma_unrepeated_is_distinct(lines@);
    }
    let specs = config.motors();
    let mut motors: Vec<Motor> = Vec::new();
    let mut made: usize = 0;
    while made < specs.len()
        invariant
            made <= specs@.len(),
            specs@.len() == config@.motors.len(),
            forall|i: int| 0 <= i < specs@.len() ==> (#[trigger] specs@[i])@ == config@.motors[i],
            sound(config@),
            lines@ == claims(config@),
            forall|i: int, j: int| 0 <= i < j < lines@.len() ==> lines@[i] != lines@[j],
            forall|k: int| 0 <= k < lines@.len() ==> PinBank::free(old(bank)@, #[trigger] lines@[k] as int),
            motors@.len() == made,
            forall|k: int| 0 <= k < made ==> (#[trigger] motors@[k])@ == built(config@.motors[k]),
            forall|k: int| 0 <= k < made ==> Motor::wf((#[trigger] motors@[k])@),
            bank@.len() == old(bank)@.len(),
            forall|n: int|
                0 <= n < bank@.len() ==> (#[trigger] bank@[n]) == (old(bank)@[n] || names(
                    lines@.take(made as int),
                    n,
                )),
        decreases specs@.len() - made,
    {
        let spec = &specs[made];
        let ghost before = bank@;
        proof {
            assert(MotorSpec::defect(config@.motors[made as int]) is None);
            assert(lines@[made as int] == spec@.pin);
            assert(PinBank::free(old(bank)@, lines@[made as int] as int));
            if names(lines@.take(made as int), spec@.pin as int) {
                let at = choose|at: int|
                    0 <= at < made && (#[trigger] lines@.take(made as int)[at]) == spec@.pin;
                assert(lines@[at] == lines@[made as int]);
            }
        }
        let motor = Motor::new(
            bank,
            spec.get_period() * 1000,
            (spec.get_min() as u64, spec.get_max() as u64),
            spec.get_pin(),
        );
        motors.push(motor);
        proof {
            let taken = lines@.take(made as int);
            let more = lines@.take(made + 1);
            assert(more =~= taken.push(spec@.pin));
            assert forall|n: int| 0 <= n < bank@.len() implies (#[trigger] bank@[n]) == (old(
                bank,
            )@[n] || names(more, n)) by {
                if n == spec@.pin {
                    assert(more[made as int] == n);
                } else {
                    if names(more, n) {
                        let at = choose|at: int| 0 <= at < more.len() && (#[trigger] more[at]) == n;
                        assert(taken[at] == n);
                    }
                    if names(taken, n) {
                        let at = choose|at: int|
                            0 <= at < taken.len() && (#[trigger] taken[at]) == n;
                        assert(more[at] == n);
                    }
                }
            }
        }
        made += 1;
    }
    let ghost motor_lines = lines@.take(made as int);
    let ghost mid = bank@;
    let pump = match config.pump() {
        Some(pump) => {
            proof {
                let pins = pump.pins@;
                let count = config@.motors.len() as int;
                assert(lines@.len() == count + 4);
                assert forall|slot: int| 0 <= slot < 4 implies lines@[count + slot]
                    == pins[slot] as u16 && PinBank::free(bank@, pins[slot] as int) by {
                    assert(PinBank::free(old(bank)@, lines@[count + slot] as int));
                    if names(motor_lines, pins[slot] as int) {
                        let at = choose|at: int|
                            0 <= at < count && (#[trigger] motor_lines[at]) == pins[slot];
                        assert(lines@[at] == lines@[count + slot]);
                    }
                }
                assert forall|a: int, b: int| 0 <= a < b < 4 implies pins[a] != pins[b] by {
                    assert(lines@[count + a] != lines@[count + b]);
                }
                assert(first_blocked(bank@, pins) == 4);
            }
            Some(Pump::new(bank, pump.pins))
        },
        None => None,
    };
    proof {
        reveal_with_fuel(claimed, 5);
        assert(bank@.len() == mid.len());
        assert forall|n: int| 0 <= n < old(bank)@.len() implies (#[trigger] bank@[n]) == (old(
            bank,
        )@[n] || names(lines@, n)) by {
            let count = config@.motors.len() as int;
            if names(motor_lines, n) {
                let at = choose|at: int| 0 <= at < count && (#[trigger] motor_lines[at]) == n;
                assert(lines@[at] == n);
            }
            match config@.pump {
                Some(pins) => {
                    assert(bank@ == claimed(mid, pins, 4));
                    assert(lines@[count] == pins[0]);
                    assert(lines@[count + 1] == pins[1]);
                    assert(lines@[count + 2] == pins[2]);
                    assert(lines@[count + 3] == pins[3]);
                    if names(lines@, n) {
                        let at = choose|at: int|
                            0 <= at < lines@.len() && (#[trigger] lines@[at]) == n;
                        if at < count {
                            assert(motor_lines[at] == n);
                        } else {
                            assert(pins[at - count] == n);
                        }
                    }
                },
                None => {
                    assert(motor_lines =~= lines@);
                },
            }
        }
    }
    let rig = Coordinator::new(motors, pump);
    proof {
        assert(rig@.rig.motors =~= assembled(config@).rig.motors);
    }
    Ok(rig)
}

} // verus!
