use deoxy::motor::{pulse_width_for, Error, Message, Motor};
use deoxy::pin::{Error as PinError, PinBank, Pwm};
use deoxy::scheduler::{PulseQueue, ScheduledChange};

fn servo(bank: &mut PinBank) -> Motor {
    Motor::try_new(bank, 20_000, (1_000, 2_000), 17).unwrap()
}

// Makes sure that a failure in the angle tests cannot come from constructing
// the motor and unwrapping it.
#[test]
fn make_fake_motor() {
    let mut bank = PinBank::new(28);
    let _motor = Motor::try_new(&mut bank, 2_000_000, (0, 1_000_000), 1).unwrap();
}

#[test]
fn angle_past_half_turn_is_an_error() {
    let mut bank = PinBank::new(28);
    let mut motor = Motor::try_new(&mut bank, 2_000_000, (0, 1_000_000), 1).unwrap();
    let before = motor.pulse_width();
    assert_eq!(motor.set_angle(181), Err(Error::OutOfBounds));
    assert_eq!(motor.set_angle(u16::MAX), Err(Error::OutOfBounds));
    assert_eq!(motor.pulse_width(), before);
    assert_eq!(motor.pin().signal(), None);
}

#[test]
fn new_motor_is_closed_and_silent() {
    let mut bank = PinBank::new(28);
    let motor = servo(&mut bank);
    assert_eq!(motor.pulse_width(), 1_500);
    assert_eq!(motor.period(), 20_000);
    assert_eq!(motor.signal_range(), (1_000, 2_000));
    assert_eq!(motor.pin().number(), 17);
    assert_eq!(motor.pin().signal(), None);
    assert!(!motor.pin().level());
    assert_eq!(motor.main_handle(), None);
    assert!(bank.is_claimed(17));
}

#[test]
fn new_motor_takes_a_free_line() {
    let mut bank = PinBank::new(4);
    let motor = Motor::new(&mut bank, 20_000, (500, 2_500), 3);
    assert_eq!(motor.pulse_width(), 1_500);
    assert!(bank.is_claimed(3));
}

#[test]
fn motor_rejects_empty_range() {
    let mut bank = PinBank::new(28);
    assert_eq!(
        Motor::try_new(&mut bank, 20_000, (2_000, 1_000), 17).err(),
        Some(Error::OutOfBounds)
    );
    assert_eq!(
        Motor::try_new(&mut bank, 20_000, (1_000, 1_000), 17).err(),
        Some(Error::OutOfBounds)
    );
    assert!(!bank.is_claimed(17));
}

#[test]
fn motor_reports_unclaimable_line() {
    let mut bank = PinBank::new(28);
    let _first = servo(&mut bank);
    assert_eq!(
        Motor::try_new(&mut bank, 20_000, (1_000, 2_000), 17).err(),
        Some(Error::CommunicationError(Some(PinError::AlreadyInUse)))
    );
    assert_eq!(
        Motor::try_new(&mut bank, 20_000, (1_000, 2_000), 28).err(),
        Some(Error::CommunicationError(Some(PinError::NotFound)))
    );
}

#[test]
fn pulse_width_follows_the_formula() {
    assert_eq!(pulse_width_for(1_000, 2_000, 0), Some(1_000));
    assert_eq!(pulse_width_for(1_000, 2_000, 45), Some(1_250));
    assert_eq!(pulse_width_for(1_000, 2_000, 90), Some(1_500));
    assert_eq!(pulse_width_for(1_000, 2_000, 180), Some(2_000));
    // 1000 * 1 / 180 = 5.55..., rounded down
    assert_eq!(pulse_width_for(1_000, 2_000, 1), Some(1_005));
    // 7 * 179 / 180 = 6.96..., rounded down
    assert_eq!(pulse_width_for(10, 17, 179), Some(16));
    assert_eq!(pulse_width_for(10, 17, 180), Some(17));
    assert_eq!(pulse_width_for(0, u64::MAX, 180), Some(u64::MAX));
    assert_eq!(pulse_width_for(0, u64::MAX, 90), Some(u64::MAX / 2));
    assert_eq!(pulse_width_for(5, 5, 77), Some(5));
    assert_eq!(pulse_width_for(1_000, 2_000, 181), None);
    assert_eq!(pulse_width_for(2_000, 1_000, 90), None);
}

#[test]
fn pulse_width_never_shrinks_as_the_angle_grows() {
    let mut last = 0;
    for angle in 0..=180u16 {
        let width = pulse_width_for(1_003, 2_411, angle).unwrap();
        assert!(width >= last);
        assert!((1_003..=2_411).contains(&width));
        last = width;
    }
    assert_eq!(last, 2_411);
}

#[test]
fn open_close_shut_reach_their_positions() {
    let mut bank = PinBank::new(28);
    let mut motor = Motor::try_new(&mut bank, 20_000, (1_000, 2_001), 17).unwrap();
    assert_eq!(motor.open(), Ok(()));
    assert_eq!(motor.pulse_width(), 1_000);
    assert_eq!(motor.pin().signal(), Some(Pwm { period: 20_000, pulse_width: 1_000 }));
    assert_eq!(motor.close(), Ok(()));
    assert_eq!(motor.pulse_width(), (1_000 + 2_001) / 2);
    assert_eq!(motor.pin().signal(), Some(Pwm { period: 20_000, pulse_width: 1_500 }));
    assert_eq!(motor.shut(), Ok(()));
    assert_eq!(motor.pulse_width(), 2_001);
    assert_eq!(motor.pin().signal(), Some(Pwm { period: 20_000, pulse_width: 2_001 }));
}

#[test]
fn stop_turns_the_signal_off() {
    let mut bank = PinBank::new(28);
    let mut motor = servo(&mut bank);
    assert_eq!(motor.shut(), Ok(()));
    assert_eq!(motor.stop(), Ok(()));
    assert_eq!(motor.pulse_width(), 0);
    assert_eq!(motor.pin().signal(), Some(Pwm { period: 20_000, pulse_width: 0 }));
}

#[test]
fn set_pulse_width_keeps_to_the_range() {
    let mut bank = PinBank::new(28);
    let mut motor = servo(&mut bank);
    assert_eq!(motor.set_pulse_width(999), Err(Error::OutOfBounds));
    assert_eq!(motor.set_pulse_width(2_001), Err(Error::OutOfBounds));
    assert_eq!(motor.pulse_width(), 1_500);
    assert_eq!(motor.set_pulse_width(1_000), Ok(()));
    assert_eq!(motor.pulse_width(), 1_000);
    assert_eq!(motor.set_pulse_width(2_000), Ok(()));
    assert_eq!(motor.pulse_width(), 2_000);
    assert_eq!(motor.set_pulse_width(0), Ok(()));
    assert_eq!(motor.pulse_width(), 0);
}

#[test]
fn failing_line_leaves_the_motor_as_it_was() {
    let mut bank = PinBank::new(28);
    let mut motor = servo(&mut bank);
    assert_eq!(motor.open(), Ok(()));
    motor.fail(5);
    assert_eq!(
        motor.shut(),
        Err(Error::CommunicationError(Some(PinError::Io(5))))
    );
    assert_eq!(motor.pulse_width(), 1_000);
    assert_eq!(motor.pin().signal(), Some(Pwm { period: 20_000, pulse_width: 1_000 }));
    motor.recover();
    assert_eq!(motor.shut(), Ok(()));
    assert_eq!(motor.pulse_width(), 2_000);
}

#[test]
fn pulse_longer_than_period_is_refused_by_the_line() {
    let mut bank = PinBank::new(28);
    let mut motor = Motor::try_new(&mut bank, 1_500, (1_000, 2_000), 17).unwrap();
    assert_eq!(motor.open(), Ok(()));
    assert_eq!(motor.close(), Ok(()));
    assert_eq!(
        motor.shut(),
        Err(Error::CommunicationError(Some(PinError::PulseTooLong)))
    );
    assert_eq!(motor.pulse_width(), 1_500);
}

#[test]
fn handle_maps_messages_to_positions() {
    let mut bank = PinBank::new(28);
    let mut motor = servo(&mut bank);
    assert_eq!(motor.handle(Message::Open), Ok(()));
    assert_eq!(motor.pulse_width(), 1_000);
    assert_eq!(motor.handle(Message::Close), Ok(()));
    assert_eq!(motor.pulse_width(), 1_500);
    assert_eq!(motor.handle(Message::Shut), Ok(()));
    assert_eq!(motor.pulse_width(), 2_000);
    assert_eq!(motor.handle(Message::Stop), Ok(()));
    assert_eq!(motor.pulse_width(), 0);
}

#[test]
fn motors_are_equal_when_their_lines_are() {
    let mut bank = PinBank::new(28);
    let mut other_bank = PinBank::new(28);
    let a = Motor::try_new(&mut bank, 20_000, (1_000, 2_000), 17).unwrap();
    let b = Motor::try_new(&mut other_bank, 10_000, (500, 900), 17).unwrap();
    let c = Motor::try_new(&mut bank, 20_000, (1_000, 2_000), 18).unwrap();
    assert!(a == b);
    assert!(a != c);
}

#[test]
fn supersede_hands_back_the_old_handle() {
    let mut bank = PinBank::new(28);
    let mut motor = servo(&mut bank);
    assert_eq!(motor.supersede(Some(7)), None);
    assert_eq!(motor.main_handle(), Some(7));
    assert_eq!(motor.supersede(Some(8)), Some(7));
    assert_eq!(motor.supersede(None), Some(8));
    assert_eq!(motor.main_handle(), None);
}

#[test]
fn motor_queues_a_train_at_its_own_width() {
    let mut bank = PinBank::new(28);
    let mut motor = servo(&mut bank);
    motor.open().unwrap();
    let mut queue = PulseQueue::new();
    assert_eq!(motor.add_pulses(&mut queue, 100, 2), Ok(()));
    assert_eq!(queue.len(), 4);
    assert_eq!(queue.get(0), Some(ScheduledChange { deadline: 100, level: true }));
    assert_eq!(queue.get(1), Some(ScheduledChange { deadline: 1_100, level: false }));
    assert_eq!(queue.get(2), Some(ScheduledChange { deadline: 20_100, level: true }));
    assert_eq!(queue.get(3), Some(ScheduledChange { deadline: 21_100, level: false }));
}

#[test]
fn motor_refuses_a_train_that_cannot_be_written_down() {
    let mut bank = PinBank::new(28);
    let motor = servo(&mut bank);
    let mut queue = PulseQueue::new();
    assert_eq!(motor.add_pulses(&mut queue, u64::MAX - 10, 1), Err(Error::OutOfBounds));
    assert!(queue.is_empty());
    let wide = Motor::try_new(&mut bank, 1_000, (1_000, 2_000), 18).unwrap();
    assert_eq!(wide.add_pulses(&mut queue, 0, 1), Err(Error::OutOfBounds));
    assert!(queue.is_empty());
}

#[test]
fn plan_names_the_signal_a_message_calls_for() {
    let mut bank = PinBank::new(28);
    let motor = servo(&mut bank);
    assert_eq!(motor.planned(Message::Open), Some(Pwm { period: 20_000, pulse_width: 1_000 }));
    assert_eq!(motor.planned(Message::Close), Some(Pwm { period: 20_000, pulse_width: 1_500 }));
    assert_eq!(motor.planned(Message::Shut), Some(Pwm { period: 20_000, pulse_width: 2_000 }));
    assert_eq!(motor.planned(Message::Stop), Some(Pwm { period: 20_000, pulse_width: 0 }));
    // planning decides nothing
    assert_eq!(motor.pulse_width(), 1_500);
    assert_eq!(motor.pin().signal(), None);
    let short = Motor::try_new(&mut bank, 1_500, (1_000, 2_000), 18).unwrap();
    assert_eq!(short.planned(Message::Close), Some(Pwm { period: 1_500, pulse_width: 1_500 }));
    assert_eq!(short.planned(Message::Shut), None);
}

#[test]
fn refused_signal_leaves_the_motor_where_it_was() {
    let mut bank = PinBank::new(28);
    let mut motor = servo(&mut bank);
    assert_eq!(motor.committed(Message::Open, None), Ok(()));
    assert_eq!(motor.pulse_width(), 1_000);
    assert_eq!(
        motor.committed(Message::Shut, Some(13)),
        Err(Error::CommunicationError(Some(PinError::Io(13))))
    );
    assert_eq!(motor.pulse_width(), 1_000);
    assert_eq!(motor.pin().signal(), Some(Pwm { period: 20_000, pulse_width: 1_000 }));
    assert_eq!(motor.pin().fault(), Some(13));
    // the next signal that the hardware takes clears the record
    assert_eq!(motor.committed(Message::Shut, None), Ok(()));
    assert_eq!(motor.pulse_width(), 2_000);
    assert_eq!(motor.pin().fault(), None);
}
