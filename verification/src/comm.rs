//! Sequencing of actuator commands into a protocol run.
//!
//! The coordinator owns the actuators. A run is an ordered list of steps,
//! each a command for one actuator; the coordinator carries them out one at
//! a time, waits for each to be acknowledged before it goes on, and stops at
//! the first that fails. After every change of state it publishes a
//! snapshot, so observers can follow a run without touching it.

use crate::motor::{drive_failure, driven, Error as MotorError, Message as MotorMessage, Motor, MotorView};
use crate::pin::Error as PinError;
use crate::pump::{
    redirect_failure, redirected, requested, Message as PumpMessage, Pump, PumpView,
};
use vstd::prelude::*;

verus! {

/// An actuator of the rig.
#[derive(Clone, Copy, Debug, PartialEq, Eq, Structural)]
pub enum Actuator {
    /// The motor with the given index.
    Motor(usize),
    /// The pump.
    Pump,
}

/// One step of a protocol: a command for one actuator.
#[allow(inconsistent_fields)]
#[derive(Clone, Copy, Debug, PartialEq, Eq, Structural)]
pub enum Step {
    /// A command for the motor with the given index.
    Motor {
        /// Which motor.
        index: usize,
        /// What it is to do.
        message: MotorMessage,
    },
    /// A command for the pump.
    Pump {
        /// What it is to do.
        message: PumpMessage,
    },
}

/// Why an actuator did not carry out a step.
#[derive(Clone, Copy, Debug, PartialEq, Eq, Structural)]
pub enum Cause {
    /// The rig has no such actuator.
    Missing,
    /// The motor reported an error.
    Motor(MotorError),
    /// A line of the pump reported an error.
    Pump(PinError),
}

/// Why a run came to a halt.
#[derive(Clone, Copy, Debug, PartialEq, Eq, Structural)]
pub enum Error {
    /// An actuator did not carry out its step.
    ActuatorFailed {
        /// The actuator that the step was for.
        which: Actuator,
        /// What went wrong.
        cause: Cause,
    },
}

/// Where the coordinator stands in a run.
#[derive(Clone, Copy, Debug, PartialEq, Eq, Structural)]
pub enum State {
    /// No run has been started.
    Idle,
    /// The step with the given index is the next to be carried out.
    Running(usize),
    /// Every step of the run was acknowledged.
    Completed,
    /// A step failed; the steps after it were not carried out.
    Failed(Error),
}

/// A snapshot of the coordinator, as published to observers.
#[derive(Clone, Copy, Debug, PartialEq, Eq, Structural)]
pub struct Status {
    /// Where the coordinator stood.
    pub state: State,
    /// The error of the last step that failed in this run, if any.
    pub last_error: Option<Error>,
}

/// The actuators of a rig, as they stand in contracts.
pub struct Rig {
    /// The motors, by index.
    pub motors: Seq<MotorView>,
    /// The pump, if the rig has one.
    pub pump: Option<PumpView>,
}

/// What a [`Coordinator`] stands for in contracts.
pub struct CoordinatorView {
    /// The actuators.
    pub rig: Rig,
    /// The steps of the current run.
    pub steps: Seq<Step>,
    /// Where the coordinator stands in the run.
    pub state: State,
    /// How many steps of the run have been acknowledged.
    pub acknowledged: nat,
    /// The error of the last step that failed in this run, if any.
    pub last_error: Option<Error>,
    /// The snapshots published and not yet collected, oldest first.
    pub updates: Seq<Status>,
}

/// The actuator that a step is for.
pub open spec fn target(step: Step) -> Actuator {
    match step {
        Step::Motor { index, .. } => Actuator::Motor(index),
        Step::Pump { .. } => Actuator::Pump,
    }
}

impl Step {
    /// The actuator that the step is for.
    pub fn target(&self) -> (which: Actuator)
        ensures
            which == target(*self),
    {
        match self {
            Step::Motor { index, .. } => Actuator::Motor(*index),
            Step::Pump { .. } => Actuator::Pump,
        }
    }
}

/// What keeps a rig from carrying out `step`, if anything.
pub open spec fn refusal(rig: Rig, step: Step) -> Option<Cause> {
    match step {
        Step::Motor { index, message } => if index >= rig.motors.len() {
            Some(Cause::Missing)
        } else {
            match drive_failure(rig.motors[index as int], Motor::asked(rig.motors[index as int], message)) {
                Some(e) => Some(Cause::Motor(e)),
                None => None,
            }
        },
        Step::Pump { message } => match rig.pump {
            None => Some(Cause::Missing),
            Some(pump) => match redirect_failure(pump, requested(message)) {
                Some(e) => Some(Cause::Pump(e)),
                None => None,
            },
        },
    }
}

/// The error reported for a step that a rig does not carry out.
pub open spec fn failure(rig: Rig, step: Step) -> Option<Error> {
    match refusal(rig, step) {
        Some(cause) => Some(Error::ActuatorFailed { which: target(step), cause }),
        None => None,
    }
}

/// The rig after `step` was handed to its actuator. Only that actuator can
/// have changed, and a step for an actuator that is missing changes nothing.
pub open spec fn dispatched(rig: Rig, step: Step) -> Rig {
    match step {
        Step::Motor { index, message } => if index >= rig.motors.len() {
            rig
        } else {
            Rig {
                motors: rig.motors.update(
                    index as int,
                    driven(rig.motors[index as int], Motor::asked(rig.motors[index as int], message)),
                ),
                ..rig
            }
        },
        Step::Pump { message } => match rig.pump {
            None => rig,
            Some(pump) => Rig { pump: Some(redirected(pump, requested(message))), ..rig },
        },
    }
}

/// The coordinator after it was given `steps` to run: at the first step, or
/// done at once if there is none, with the errors of earlier runs forgotten
/// and a snapshot published.
pub open spec fn begun(c: CoordinatorView, steps: Seq<Step>) -> CoordinatorView {
    let state = if steps.len() == 0 {
        State::Completed
    } else {
        State::Running(0)
    };
    CoordinatorView {
        steps,
        state,
        acknowledged: 0,
        last_error: None,
        updates: c.updates.push(Status { state, last_error: None }),
        ..c
    }
}

/// The coordinator after the step it stands at was answered, with an
/// acknowledgement or with `failure`.
///
/// On an acknowledgement the coordinator moves on to the step after it, or
/// completes the run if there is none. On a failure the run fails with it.
/// Either way a snapshot is published. A coordinator that is not running
/// stays as it is.
pub open spec fn acknowledged(c: CoordinatorView, failure: Option<Error>) -> CoordinatorView {
    match c.state {
        State::Running(at) => if at < c.steps.len() {
            let state = match failure {
                Some(e) => State::Failed(e),
                None => if at + 1 == c.steps.len() {
                    State::Completed
                } else {
                    State::Running((at + 1) as usize)
                },
            };
            let last_error = match failure {
                Some(e) => Some(e),
                None => c.last_error,
            };
            CoordinatorView {
                state,
                acknowledged: if failure is None {
                    c.acknowledged + 1
                } else {
                    c.acknowledged
                },
                last_error,
                updates: c.updates.push(Status { state, last_error }),
                ..c
            }
        } else {
            c
        },
        _ => c,
    }
}

/// The coordinator after it carried out the next step of its run on its
/// own rig: the step is handed to its actuator, and what the actuator
/// answers is taken as [`acknowledged`] says.
pub open spec fn advanced(c: CoordinatorView) -> CoordinatorView {
    match c.state {
        State::Running(at) => if at < c.steps.len() {
            acknowledged(
                CoordinatorView { rig: dispatched(c.rig, c.steps[at as int]), ..c },
                failure(c.rig, c.steps[at as int]),
            )
        } else {
            c
        },
        _ => c,
    }
}

/// The coordinator after `turns` turns of [`advanced`].
pub open spec fn finished(c: CoordinatorView, turns: nat) -> CoordinatorView
    decreases turns,
{
    if turns == 0 {
        c
    } else {
        finished(advanced(c), (turns - 1) as nat)
    }
}

/// After `turns` turns a run stands at step `turns`, unless it is over.
spec fn on_track(c: CoordinatorView, turns: int) -> bool {
    match c.state {
        State::Running(at) => at == turns && at < c.steps.len(),
        State::Idle => false,
        _ => true,
    }
}

/// One more turn keeps a run on track.
proof fn lemma_advance_keeps_track(c: CoordinatorView, turns: int)
    requires
        on_track(c, turns),
        0 <= turns < c.steps.len() <= usize::MAX,
    ensures
        on_track(advanced(c), turns + 1),
        advanced(c).steps == c.steps,
        finished(c, (c.steps.len() - turns) as nat) == finished(
            advanced(c),
            (c.steps.len() - turns - 1) as nat,
        ),
{
}

/// A run that is over stays as it is, however many turns follow.
proof fn lemma_finished_is_final(c: CoordinatorView, turns: nat)
    requires
        !(c.state is Running),
    ensures
        finished(c, turns) == c,
    decreases turns,
{
    if turns > 0 {
        lemma_finished_is_final(c, (turns - 1) as nat);
    }
}

/// The rig after the first `count` steps of `steps` were handed to their
/// actuators, in order.
pub open spec fn after_steps(rig: Rig, steps: Seq<Step>, count: int) -> Rig
    decreases count,
{
    if count <= 0 {
        rig
    } else {
        dispatched(after_steps(rig, steps, count - 1), steps[count - 1])
    }
}

/// Whether step `at` of `steps` fails, the steps before it having been
/// carried out on `rig`.
pub open spec fn fails_at(rig: Rig, steps: Seq<Step>, at: int) -> bool {
    failure(after_steps(rig, steps, at), steps[at]) is Some
}

/// The snapshots published as a run of `total` steps moves from position
/// `from` to position `to`, one for each position.
pub open spec fn progress(total: int, from: int, to: int) -> Seq<Status> {
    Seq::new(
        (to - from + 1) as nat,
        |j: int|
            Status {
                state: if from + j < total {
                    State::Running((from + j) as usize)
                } else {
                    State::Completed
                },
                last_error: None,
            },
    )
}

/// The snapshot published when a run fails with `error`.
pub open spec fn halted(error: Error) -> Status {
    Status { state: State::Failed(error), last_error: Some(error) }
}

/// What is left of a run that stands at step `at`, when `stop` is the first
/// step to fail, or the number of steps if none does.
proof fn lemma_rest_of_run(c: CoordinatorView, base: Rig, at: int, stop: int)
    requires
        0 <= at <= stop <= c.steps.len() <= usize::MAX,
        c.rig == after_steps(base, c.steps, at),
        c.state == if at < c.steps.len() {
            State::Running(at as usize)
        } else {
            State::Completed
        },
        c.acknowledged == at,
        c.last_error is None,
        forall|n: int| at <= n < stop ==> !fails_at(base, c.steps, n),
        stop < c.steps.len() ==> fails_at(base, c.steps, stop),
    ensures
        ({
            let end = finished(c, (c.steps.len() - at) as nat);
            &&& end.steps == c.steps
            &&& end.acknowledged == stop
            &&& if stop < c.steps.len() {
                let error = failure(after_steps(base, c.steps, stop), c.steps[stop])->Some_0;
                &&& end.rig == after_steps(base, c.steps, stop + 1)
                &&& end.state == State::Failed(error)
                &&& end.last_error == Some(error)
                &&& end.updates == c.updates + progress(c.steps.len() as int, at + 1, stop).push(
                    halted(error),
                )
            } else {
                &&& end.rig == after_steps(base, c.steps, stop)
                &&& end.state == State::Completed
                &&& end.last_error is None
                &&& end.updates == c.updates + progress(c.steps.len() as int, at + 1, stop)
            }
        }),
    decreases stop - at,
{
    let total = c.steps.len() as int;
    let turns = (total - at) as nat;
    if at == stop {
        assert(progress(total, at + 1, stop) =~= Seq::<Status>::empty());
        if stop < total {
            let next = advanced(c);
            lemma_finished_is_final(next, (turns - 1) as nat);
            assert(next.updates =~= c.updates + progress(total, at + 1, stop).push(
                halted(failure(c.rig, c.steps[at])->Some_0),
            ));
        } else {
            lemma_finished_is_final(c, turns);
            assert(c.updates =~= c.updates + progress(total, at + 1, stop));
        }
    } else {
        let next = advanced(c);
        assert(!fails_at(base, c.steps, at));
        lemma_rest_of_run(next, base, at + 1, stop);
        let end = finished(c, turns);
        assert(end == finished(next, (total - at - 1) as nat));
        let first = Status {
            state: if at + 1 < total {
                State::Running((at + 1) as usize)
            } else {
                State::Completed
            },
            last_error: None,
        };
        assert(next.updates == c.updates.push(first));
        assert(progress(total, at + 1, stop) =~= seq![first] + progress(total, at + 2, stop));
        if stop < total {
            let error = failure(after_steps(base, c.steps, stop), c.steps[stop])->Some_0;
            assert(c.updates.push(first) + progress(total, at + 2, stop).push(halted(error))
                =~= c.updates + progress(total, at + 1, stop).push(halted(error)));
        } else {
            assert(c.updates.push(first) + progress(total, at + 2, stop) =~= c.updates + progress(
                total,
                at + 1,
                stop,
            ));
        }
    }
}

/// A failure ends the run for good.
///
/// Once the answer to a step is a failure the coordinator is no longer
/// running, so it has no step to hand out, and whatever answer may still
/// come in changes nothing.
pub proof fn law_failure_ends_the_run(c: CoordinatorView, error: Error, later: Option<Error>)
    requires
        c.state matches State::Running(at) && at < c.steps.len(),
    ensures
        acknowledged(c, Some(error)).state == State::Failed(error),
        acknowledged(c, Some(error)).last_error == Some(error),
        acknowledged(c, Some(error)).acknowledged == c.acknowledged,
        acknowledged(c, Some(error)).rig == c.rig,
        acknowledged(acknowledged(c, Some(error)), later) == acknowledged(c, Some(error)),
        advanced(acknowledged(c, Some(error))) == acknowledged(c, Some(error)),
{
}

/// A run halts at the first step that fails.
///
/// Let `stop` be the first step of `steps` that fails when the steps before
/// it have been carried out, or the number of steps if none fails. Then the
/// run hands the steps up to and including `stop` to their actuators, in
/// order, and no step after it. If a step failed, the run ends as failed
/// with the error of that step; if none did, it ends as completed, without
/// an error. Either way the steps before `stop` are the ones acknowledged,
/// and the snapshots published are one for the start, one for each
/// acknowledgement and one for the failure.
pub proof fn law_run_halts_at_first_failure(c: CoordinatorView, steps: Seq<Step>, stop: int)
    requires
        0 <= stop <= steps.len() <= usize::MAX,
        forall|n: int| 0 <= n < stop ==> !fails_at(c.rig, steps, n),
        stop < steps.len() ==> fails_at(c.rig, steps, stop),
    ensures
        ({
            let end = finished(begun(c, steps), steps.len());
            &&& end.acknowledged == stop
            &&& if stop < steps.len() {
                let error = failure(after_steps(c.rig, steps, stop), steps[stop])->Some_0;
                &&& end.rig == after_steps(c.rig, steps, stop + 1)
                &&& end.state == State::Failed(error)
                &&& end.last_error == Some(error)
                &&& end.updates == c.updates + progress(steps.len() as int, 0, stop).push(
                    halted(error),
                )
            } else {
                &&& end.rig == after_steps(c.rig, steps, stop)
                &&& end.state == State::Completed
                &&& end.last_error is None
                &&& end.updates == c.updates + progress(steps.len() as int, 0, stop)
            }
        }),
{
    let start = begun(c, steps);
    let total = steps.len() as int;
    lemma_rest_of_run(start, c.rig, 0, stop);
    let first = Status {
        state: if 0 < total {
            State::Running(0)
        } else {
            State::Completed
        },
        last_error: None,
    };
    assert(progress(total, 0, stop) =~= seq![first] + progress(total, 1, stop));
    if stop < total {
        let error = failure(after_steps(c.rig, steps, stop), steps[stop])->Some_0;
        assert(c.updates.push(first) + progress(total, 1, stop).push(halted(error)) =~= c.updates
            + progress(total, 0, stop).push(halted(error)));
    } else {
        assert(c.updates.push(first) + progress(total, 1, stop) =~= c.updates + progress(
            total,
            0,
            stop,
        ));
    }
}

/// Sequences the actuators of a rig into protocol runs.
#[derive(Debug)]
pub struct Coordinator {
    motors: Vec<Motor>,
    pump: Option<Pump>,
    steps: Vec<Step>,
    state: State,
    acknowledged: usize,
    last_error: Option<Error>,
    updates: Vec<Status>,
}

impl View for Coordinator {
    type V = CoordinatorView;

    closed spec fn view(&self) -> CoordinatorView {
        CoordinatorView {
            rig: Rig {
                motors: Seq::new(self.motors@.len(), |i: int| self.motors@[i]@),
                pump: match self.pump {
                    Some(pump) => Some(pump@),
                    None => None,
                },
            },
            steps: self.steps@,
            state: self.state,
            acknowledged: self.acknowledged as nat,
            last_error: self.last_error,
            updates: self.updates@,
        }
    }
}

impl Coordinator {
    /// Every actuator of the rig is well formed.
    pub open spec fn rig_wf(rig: Rig) -> bool {
        &&& forall|i: int| 0 <= i < rig.motors.len() ==> Motor::wf(#[trigger] rig.motors[i])
        &&& rig.pump matches Some(pump) ==> Pump::settled(pump)
    }

    /// What every coordinator satisfies between calls: its actuators are
    /// well formed, a running coordinator stands at a step of its run with
    /// all the steps before it acknowledged, and no more steps are
    /// acknowledged than the run has.
    pub open spec fn wf(c: CoordinatorView) -> bool {
        &&& Self::rig_wf(c.rig)
        &&& c.state matches State::Running(at) ==> at < c.steps.len() && c.acknowledged == at
        &&& c.acknowledged <= c.steps.len()
    }

    /// A coordinator for the given actuators, with no run started.
    pub fn new(motors: Vec<Motor>, pump: Option<Pump>) -> (coordinator: Self)
        requires
            forall|i: int| 0 <= i < motors@.len() ==> Motor::wf(#[trigger] motors@[i]@),
            pump matches Some(p) ==> Pump::settled(p@),
        ensures
            Self::wf(coordinator@),
            coordinator@ == (CoordinatorView {
                rig: Rig {
                    motors: Seq::new(motors@.len(), |i: int| motors@[i]@),
                    pump: match pump {
                        Some(p) => Some(p@),
                        None => None,
                    },
                },
                steps: Seq::empty(),
                state: State::Idle,
                acknowledged: 0,
                last_error: None,
                updates: Seq::empty(),
            }),
    {
        Coordinator {
            motors,
            pump,
            steps: Vec::new(),
            state: State::Idle,
            acknowledged: 0,
            last_error: None,
            updates: Vec::new(),
        }
    }

    /// Hands `step` to its actuator and waits for the acknowledgement.
    fn dispatch(&mut self, step: Step) -> (r: Result<(), Error>)
        requires
            Self::wf(old(self)@),
        ensures
            Self::rig_wf(final(self)@.rig),
            final(self)@ == (CoordinatorView { rig: dispatched(old(self)@.rig, step), ..old(self)@ }),
            match r {
                Ok(()) => failure(old(self)@.rig, step) is None,
                Err(e) => failure(old(self)@.rig, step) == Some(e),
            },
    {
        match step {
            Step::Motor { index, message } => {
                if index >= self.motors.len() {
                    return Err(
                        Error::ActuatorFailed { which: Actuator::Motor(index), cause: Cause::Missing },
                    );
                }
                proof {
                    assert(Motor::wf(old(self)@.rig.motors[index as int]));
                }
                let outcome = self.motors[index].handle(message);
                proof {
                    assert(self@.rig.motors =~= dispatched(old(self)@.rig, step).motors);
                    assert forall|i: int| 0 <= i < self@.rig.motors.len() implies Motor::wf(
                        #[trigger] self@.rig.motors[i],
                    ) by {
                        if i != index {
                            assert(Motor::wf(old(self)@.rig.motors[i]));
                        }
                    }
                }
                match outcome {
                    Ok(()) => Ok(()),
                    Err(e) => Err(
                        Error::ActuatorFailed {
                            which: Actuator::Motor(index),
                            cause: Cause::Motor(e),
                        },
                    ),
                }
            },
            Step::Pump { message } => {
                let outcome = match &mut self.pump {
                    Some(pump) => pump.handle(message),
                    None => {
                        return Err(
                            Error::ActuatorFailed { which: Actuator::Pump, cause: Cause::Missing },
                        );
                    },
                };
                proof {
                    assert(self@.rig.motors =~= old(self)@.rig.motors);
                }
                match outcome {
                    Ok(()) => Ok(()),
                    Err(e) => Err(
                        Error::ActuatorFailed { which: Actuator::Pump, cause: Cause::Pump(e) },
                    ),
                }
            },
        }
    }

    /// Starts a run of `steps`. Whatever run came before is over: its error
    /// is forgotten and its steps are dropped. A snapshot is published.
    pub fn begin(&mut self, steps: Vec<Step>)
        requires
            Self::wf(old(self)@),
        ensures
            Self::wf(final(self)@),
            final(self)@ == begun(old(self)@, steps@),
    {
        self.state = if steps.len() == 0 {
            State::Completed
        } else {
            State::Running(0)
        };
        self.steps = steps;
        self.acknowledged = 0;
        self.last_error = None;
        self.updates.push(Status { state: self.state, last_error: None });
        proof {
            assert(self@.rig.motors =~= old(self)@.rig.motors);
        }
    }

    /// The step that the coordinator stands at: the next to be handed to
    /// its actuator. `None` when no run is under way.
    pub fn pending(&self) -> (step: Option<Step>)
        requires
            Self::wf(self@),
        ensures
            step == match self@.state {
                State::Running(at) => Some(self@.steps[at as int]),
                _ => None,
            },
    {
        match self.state {
            State::Running(at) => Some(self.steps[at]),
            _ => None,
        }
    }

    /// Takes the answer of the actuator that the pending step was handed
    /// to, and returns the state the coordinator is in afterwards.
    ///
    /// `Ok` acknowledges the step: the run goes on to the next, or is
    /// completed. `Err` fails the run, and no step after it is handed out.
    /// The rig of the coordinator is not touched. Without a run under way
    /// nothing changes.
    pub fn acknowledge(&mut self, outcome: Result<(), Error>) -> (state: State)
        requires
            Self::wf(old(self)@),
        ensures
            Self::wf(final(self)@),
            final(self)@ == acknowledged(
                old(self)@,
                match outcome {
                    Ok(()) => None,
                    Err(e) => Some(e),
                },
            ),
            state == final(self)@.state,
    {
        let at = match self.state {
            State::Running(at) => at,
            _ => {
                return self.state;
            },
        };
        let total = self.steps.len();
        match outcome {
            Ok(()) => {
                self.acknowledged = self.acknowledged + 1;
                self.state = if at + 1 == total {
                    State::Completed
                } else {
                    State::Running(at + 1)
                };
            },
            Err(e) => {
                self.state = State::Failed(e);
                self.last_error = Some(e);
            },
        }
        self.updates.push(Status { state: self.state, last_error: self.last_error });
        proof {
            assert(self@.rig.motors =~= old(self)@.rig.motors);
        }
        self.state
    }

    /// Carries out the next step of the run on the coordinator's own rig,
    /// if the coordinator is running, and returns the state it is in
    /// afterwards.
    pub fn advance(&mut self) -> (state: State)
        requires
            Self::wf(old(self)@),
        ensures
            Self::wf(final(self)@),
            final(self)@ == advanced(old(self)@),
            state == final(self)@.state,
    {
        let step = match self.state {
            State::Running(at) => self.steps[at],
            _ => {
                return self.state;
            },
        };
        let outcome = self.dispatch(step);
        self.acknowledge(outcome)
    }

    /// Takes the coordinator apart and hands over its actuators, so that
    /// each can be driven on its own.
    pub fn into_actuators(self) -> (actuators: (Vec<Motor>, Option<Pump>))
        ensures
            actuators.0@.len() == self@.rig.motors.len(),
            forall|i: int|
                0 <= i < actuators.0@.len() ==> (#[trigger] actuators.0@[i])@
                    == self@.rig.motors[i],
            self@.rig.pump == match actuators.1 {
                Some(pump) => Some(pump@),
                None => None,
            },
    {
        (self.motors, self.pump)
    }

    /// Runs `steps` from the first to the last, or to the first that fails,
    /// and returns the state the run ended in.
    pub fn run(&mut self, steps: Vec<Step>) -> (state: State)
        requires
            Self::wf(old(self)@),
        ensures
            Self::wf(final(self)@),
            final(self)@ == finished(begun(old(self)@, steps@), steps@.len()),
            state == final(self)@.state,
            !(state is Running),
    {
        let ghost start = begun(self@, steps@);
        let total = steps.len();
        self.begin(steps);
        let mut turns: usize = 0;
        while self.is_running()
            invariant
                Self::wf(self@),
                turns <= total,
                total == start.steps.len(),
                self@.steps == start.steps,
                finished(self@, (total - turns) as nat) == finished(start, total as nat),
                on_track(self@, turns as int),
            decreases total - turns,
        {
            proof {
                lemma_advance_keeps_track(self@, turns as int);
            }
            let _ = self.advance();
            turns += 1;
        }
        proof {
            lemma_finished_is_final(self@, (total - turns) as nat);
        }
        self.state
    }

    /// Whether a run is under way.
    pub fn is_running(&self) -> (running: bool)
        ensures
            running == (self@.state is Running),
    {
        match self.state {
            State::Running(_) => true,
            _ => false,
        }
    }

    /// How many motors the rig has.
    pub fn motor_count(&self) -> (count: usize)
        ensures
            count == self@.rig.motors.len(),
    {
        self.motors.len()
    }

    /// The motor with the given index, if the rig has one.
    pub fn motor(&self, index: usize) -> (motor: Option<&Motor>)
        ensures
            match motor {
                Some(motor) => index < self@.rig.motors.len() && motor@
                    == self@.rig.motors[index as int],
                None => index >= self@.rig.motors.len(),
            },
    {
        if index < self.motors.len() {
            Some(&self.motors[index])
        } else {
            None
        }
    }

    /// The pump, if the rig has one.
    pub fn pump(&self) -> (pump: Option<&Pump>)
        ensures
            match pump {
                Some(pump) => self@.rig.pump == Some(pump@),
                None => self@.rig.pump is None,
            },
    {
        self.pump.as_ref()
    }

    /// Records that the hardware refused a write to the line of the motor
    /// with the given index; see [`Motor::fail`]. Nothing changes if the rig
    /// has no such motor.
    pub fn fail_motor(&mut self, index: usize, cause: u32)
        requires
            Self::wf(old(self)@),
        ensures
            Self::wf(final(self)@),
            final(self)@ == (CoordinatorView {
                rig: Rig {
                    motors: if index < old(self)@.rig.motors.len() {
                        old(self)@.rig.motors.update(
                            index as int,
                            MotorView {
                                pin: crate::pin::PinView {
                                    fault: Some(cause),
                                    ..old(self)@.rig.motors[index as int].pin
                                },
                                ..old(self)@.rig.motors[index as int]
                            },
                        )
                    } else {
                        old(self)@.rig.motors
                    },
                    ..old(self)@.rig
                },
                ..old(self)@
            }),
    {
        if index < self.motors.len() {
            proof {
                assert(Motor::wf(old(self)@.rig.motors[index as int]));
            }
            self.motors[index].fail(cause);
            proof {
                assert forall|i: int| 0 <= i < self@.rig.motors.len() implies Motor::wf(
                    #[trigger] self@.rig.motors[i],
                ) by {
                    if i != index {
                        assert(Motor::wf(old(self)@.rig.motors[i]));
                    }
                }
            }
        }
        proof {
            assert(self@.rig.motors =~= if index < old(self)@.rig.motors.len() {
                old(self)@.rig.motors.update(
                    index as int,
                    MotorView {
                        pin: crate::pin::PinView {
                            fault: Some(cause),
                            ..old(self)@.rig.motors[index as int].pin
                        },
                        ..old(self)@.rig.motors[index as int]
                    },
                )
            } else {
                old(self)@.rig.motors
            });
        }
    }

    /// Records that the hardware refused a write to the line in `slot` of
    /// the pump; see [`Pump::fail`]. Nothing changes if the rig has no pump
    /// or the pump no such slot.
    pub fn fail_pump(&mut self, slot: usize, cause: u32)
        requires
            Self::wf(old(self)@),
        ensures
            Self::wf(final(self)@),
            final(self)@ == (CoordinatorView {
                rig: Rig {
                    pump: match old(self)@.rig.pump {
                        Some(pump) => Some(
                            if slot < 4 {
                                PumpView {
                                    pins: pump.pins.update(
                                        slot as int,
                                        crate::pin::PinView {
                                            fault: Some(cause),
                                            ..pump.pins[slot as int]
                                        },
                                    ),
                                    ..pump
                                }
                            } else {
                                pump
                            },
                        ),
                        None => None,
                    },
                    ..old(self)@.rig
                },
                ..old(self)@
            }),
    {
        match &mut self.pump {
            Some(pump) => {
                pump.fail(slot, cause);
            },
            None => {},
        }
        proof {
            assert(self@.rig.motors =~= old(self)@.rig.motors);
        }
    }

    /// Hands over what the pump has decided on since the last collection;
    /// see [`Pump::take_journal`]. A rig without a pump has decided on nothing.
    pub fn take_pump_journal(&mut self) -> (signals: Vec<crate::pump::Signal>)
        requires
            Self::wf(old(self)@),
        ensures
            Self::wf(final(self)@),
            signals@ == match old(self)@.rig.pump {
                Some(pump) => pump.journal,
                None => Seq::empty(),
            },
            final(self)@ == (CoordinatorView {
                rig: Rig {
                    pump: match old(self)@.rig.pump {
                        Some(pump) => Some(PumpView { journal: Seq::empty(), ..pump }),
                        None => None,
                    },
                    ..old(self)@.rig
                },
                ..old(self)@
            }),
    {
        let signals = match &mut self.pump {
            Some(pump) => pump.take_journal(),
            None => Vec::new(),
        };
        proof {
            assert(self@.rig.motors =~= old(self)@.rig.motors);
        }
        signals
    }

    /// Hands over the snapshots published since the last collection, oldest first.
    pub fn take_updates(&mut self) -> (updates: Vec<Status>)
        ensures
            updates@ == old(self)@.updates,
            final(self)@ == (CoordinatorView { updates: Seq::empty(), ..old(self)@ }),
    {
        let mut updates: Vec<Status> = Vec::new();
        std::mem::swap(&mut self.updates, &mut updates);
        proof {
            assert(self@.rig.motors =~= old(self)@.rig.motors);
        }
        updates
    }

    /// The current state and the last error, without side effects. Safe to
    /// ask at any time, also between the steps of a run.
    pub fn status(&self) -> (status: Status)
        ensures
            status == (Status { state: self@.state, last_error: self@.last_error }),
    {
        Status { state: self.state, last_error: self.last_error }
    }

    /// How many steps of the current run have been acknowledged.
    pub fn acknowledged(&self) -> (count: usize)
        ensures
            count == self@.acknowledged,
    {
        self.acknowledged
    }
}

} // verus!
