use deoxy::comm::{Actuator, Cause, Coordinator, Error, State, Status, Step};
use deoxy::motor::{Error as MotorError, Message as MotorMessage, Motor};
use deoxy::pin::{Error as PinError, PinBank};
use deoxy::pump::{Direction, Message as PumpMessage, Pump, Signal};

fn rig() -> Coordinator {
    let mut bank = PinBank::new(28);
    let a = Motor::new(&mut bank, 20_000, (1_000, 2_000), 17);
    let b = Motor::new(&mut bank, 20_000, (500, 2_500), 18);
    let pump = Pump::new(&mut bank, [5, 6, 13, 19]);
    Coordinator::new(vec![a, b], Some(pump))
}

fn open(index: usize) -> Step {
    Step::Motor { index, message: MotorMessage::Open }
}

fn perfuse() -> Step {
    Step::Pump { message: PumpMessage::Perfuse }
}

fn calm(state: State) -> Status {
    Status { state, last_error: None }
}

#[test]
fn new_coordinator_is_idle() {
    let mut coordinator = rig();
    assert_eq!(coordinator.status(), calm(State::Idle));
    assert_eq!(coordinator.acknowledged(), 0);
    assert!(!coordinator.is_running());
    assert_eq!(coordinator.motor_count(), 2);
    assert!(coordinator.motor(1).is_some());
    assert!(coordinator.motor(2).is_none());
    assert!(coordinator.pump().is_some());
    assert!(coordinator.take_updates().is_empty());
}

#[test]
fn run_of_two_steps_completes_in_order() {
    let mut coordinator = rig();
    assert_eq!(coordinator.run(vec![open(0), perfuse()]), State::Completed);
    assert_eq!(coordinator.status(), calm(State::Completed));
    assert_eq!(coordinator.acknowledged(), 2);
    assert_eq!(coordinator.motor(0).unwrap().pulse_width(), 1_000);
    assert_eq!(coordinator.pump().unwrap().direction(), Some(Direction::Forward));
    assert_eq!(
        coordinator.take_updates(),
        vec![calm(State::Running(0)), calm(State::Running(1)), calm(State::Completed)]
    );
}

#[test]
fn failed_step_halts_the_run() {
    let mut coordinator = rig();
    coordinator.fail_motor(0, 5);
    let error = Error::ActuatorFailed {
        which: Actuator::Motor(0),
        cause: Cause::Motor(MotorError::CommunicationError(Some(PinError::Io(5)))),
    };
    assert_eq!(coordinator.run(vec![open(0), perfuse()]), State::Failed(error));
    assert_eq!(
        coordinator.status(),
        Status { state: State::Failed(error), last_error: Some(error) }
    );
    assert_eq!(coordinator.acknowledged(), 0);
    // the pump was never asked for anything
    assert!(coordinator.pump().unwrap().is_stopped());
    assert!(coordinator.take_pump_journal().is_empty());
    assert_eq!(
        coordinator.take_updates(),
        vec![
            calm(State::Running(0)),
            Status { state: State::Failed(error), last_error: Some(error) },
        ]
    );
}

#[test]
fn failure_in_the_middle_keeps_what_was_done() {
    let mut coordinator = rig();
    coordinator.fail_pump(0, 2);
    let error = Error::ActuatorFailed {
        which: Actuator::Pump,
        cause: Cause::Pump(PinError::Io(2)),
    };
    let steps = vec![open(1), perfuse(), open(0)];
    assert_eq!(coordinator.run(steps), State::Failed(error));
    assert_eq!(coordinator.acknowledged(), 1);
    assert_eq!(coordinator.motor(1).unwrap().pulse_width(), 500);
    // the step after the failure was not carried out
    assert_eq!(coordinator.motor(0).unwrap().pulse_width(), 1_500);
    assert_eq!(coordinator.motor(0).unwrap().pin().signal(), None);
}

#[test]
fn step_for_a_missing_actuator_fails() {
    let mut coordinator = rig();
    let error = Error::ActuatorFailed { which: Actuator::Motor(2), cause: Cause::Missing };
    assert_eq!(coordinator.run(vec![open(2)]), State::Failed(error));

    let mut bank = PinBank::new(28);
    let motor = Motor::new(&mut bank, 20_000, (1_000, 2_000), 17);
    let mut pumpless = Coordinator::new(vec![motor], None);
    let error = Error::ActuatorFailed { which: Actuator::Pump, cause: Cause::Missing };
    assert_eq!(pumpless.run(vec![open(0), perfuse()]), State::Failed(error));
    assert_eq!(pumpless.acknowledged(), 1);
    assert!(pumpless.take_pump_journal().is_empty());
    pumpless.fail_pump(0, 1);
}

#[test]
fn empty_run_completes_at_once() {
    let mut coordinator = rig();
    assert_eq!(coordinator.run(Vec::new()), State::Completed);
    assert_eq!(coordinator.acknowledged(), 0);
    assert_eq!(coordinator.take_updates(), vec![calm(State::Completed)]);
}

#[test]
fn run_can_be_followed_step_by_step() {
    let mut coordinator = rig();
    coordinator.begin(vec![open(0), perfuse()]);
    assert!(coordinator.is_running());
    assert_eq!(coordinator.status(), calm(State::Running(0)));
    assert_eq!(coordinator.advance(), State::Running(1));
    assert_eq!(coordinator.status(), calm(State::Running(1)));
    assert_eq!(coordinator.acknowledged(), 1);
    assert!(coordinator.pump().unwrap().is_stopped());
    assert_eq!(coordinator.advance(), State::Completed);
    assert_eq!(coordinator.advance(), State::Completed);
    assert_eq!(coordinator.acknowledged(), 2);
    assert_eq!(coordinator.take_updates().len(), 3);
}

#[test]
fn new_run_forgets_the_last_error() {
    let mut coordinator = rig();
    coordinator.fail_motor(0, 5);
    assert!(matches!(coordinator.run(vec![open(0)]), State::Failed(_)));
    assert!(coordinator.status().last_error.is_some());
    assert_eq!(coordinator.run(vec![open(1)]), State::Completed);
    assert_eq!(coordinator.status(), calm(State::Completed));
    assert_eq!(coordinator.acknowledged(), 1);
}

#[test]
fn idle_coordinator_does_not_advance() {
    let mut coordinator = rig();
    assert_eq!(coordinator.advance(), State::Idle);
    assert!(coordinator.take_updates().is_empty());
}

#[test]
fn pump_journal_is_handed_over_once() {
    let mut coordinator = rig();
    coordinator.run(vec![perfuse()]);
    assert_eq!(
        coordinator.take_pump_journal(),
        vec![
            Signal::Write { slot: 0, level: true },
            Signal::Write { slot: 3, level: true },
        ]
    );
    assert!(coordinator.take_pump_journal().is_empty());
}

#[test]
fn pending_step_is_the_one_the_run_stands_at() {
    let mut coordinator = rig();
    assert_eq!(coordinator.pending(), None);
    coordinator.begin(vec![open(0), perfuse()]);
    assert_eq!(coordinator.pending(), Some(open(0)));
    assert_eq!(coordinator.acknowledge(Ok(())), State::Running(1));
    assert_eq!(coordinator.pending(), Some(perfuse()));
    assert_eq!(coordinator.acknowledge(Ok(())), State::Completed);
    assert_eq!(coordinator.pending(), None);
    assert_eq!(coordinator.acknowledged(), 2);
    assert_eq!(
        coordinator.take_updates(),
        vec![calm(State::Running(0)), calm(State::Running(1)), calm(State::Completed)]
    );
    // the answers did not touch the rig
    assert_eq!(coordinator.motor(0).unwrap().pulse_width(), 1_500);
    assert!(coordinator.pump().unwrap().is_stopped());
}

#[test]
fn refused_step_hands_out_no_further_step() {
    let mut coordinator = rig();
    coordinator.begin(vec![open(0), perfuse()]);
    let error = Error::ActuatorFailed {
        which: open(0).target(),
        cause: Cause::Motor(MotorError::CommunicationError(Some(PinError::Io(9)))),
    };
    assert_eq!(coordinator.acknowledge(Err(error)), State::Failed(error));
    assert_eq!(coordinator.pending(), None);
    assert_eq!(coordinator.acknowledged(), 0);
    assert_eq!(
        coordinator.status(),
        Status { state: State::Failed(error), last_error: Some(error) }
    );
    // answers that come in late change nothing
    assert_eq!(coordinator.acknowledge(Ok(())), State::Failed(error));
    assert_eq!(coordinator.advance(), State::Failed(error));
    assert_eq!(coordinator.take_updates().len(), 2);
    assert!(coordinator.pump().unwrap().is_stopped());
}

#[test]
fn step_names_its_actuator() {
    assert_eq!(open(3).target(), Actuator::Motor(3));
    assert_eq!(perfuse().target(), Actuator::Pump);
}

#[test]
fn coordinator_hands_over_its_actuators() {
    let mut coordinator = rig();
    coordinator.run(vec![open(1), perfuse()]);
    let (motors, pump) = coordinator.into_actuators();
    assert_eq!(motors.len(), 2);
    assert_eq!(motors[0].pin().number(), 17);
    assert_eq!(motors[1].pulse_width(), 500);
    assert_eq!(pump.unwrap().direction(), Some(Direction::Forward));
    let empty = Coordinator::new(Vec::new(), None);
    let (motors, pump) = empty.into_actuators();
    assert!(motors.is_empty());
    assert!(pump.is_none());
}

#[test]
fn idle_coordinator_takes_no_answer() {
    let mut coordinator = rig();
    assert_eq!(coordinator.acknowledge(Ok(())), State::Idle);
    assert!(coordinator.take_updates().is_empty());
}
