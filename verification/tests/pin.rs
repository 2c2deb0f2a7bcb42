use deoxy::pin::{Error, Pin, PinBank, Pwm};

#[test]
fn bank_starts_with_every_line_free() {
    let bank = PinBank::new(4);
    assert_eq!(bank.lines(), 4);
    for n in 0..6 {
        assert!(!bank.is_claimed(n));
    }
}

#[test]
fn claimed_line_is_fresh() {
    let mut bank = PinBank::new(4);
    let pin = bank.claim(2).unwrap();
    assert_eq!(pin.number(), 2);
    assert!(!pin.level());
    assert_eq!(pin.signal(), None);
    assert_eq!(pin.fault(), None);
    assert!(bank.is_claimed(2));
    assert!(!bank.is_claimed(1));
}

#[test]
fn line_cannot_be_claimed_twice() {
    let mut bank = PinBank::new(4);
    let pin = Pin::try_new(&mut bank, 2).unwrap();
    assert_eq!(Pin::try_new(&mut bank, 2).err(), Some(Error::AlreadyInUse));
    bank.release(pin);
    assert!(!bank.is_claimed(2));
    assert!(Pin::try_new(&mut bank, 2).is_ok());
}

#[test]
fn line_past_the_bank_is_not_found() {
    let mut bank = PinBank::new(4);
    assert_eq!(bank.claim(4).err(), Some(Error::NotFound));
    assert_eq!(bank.claim(u16::MAX).err(), Some(Error::NotFound));
    let mut none = PinBank::new(0);
    assert_eq!(none.claim(0).err(), Some(Error::NotFound));
}

#[test]
fn writes_set_the_level() {
    let mut bank = PinBank::new(4);
    let mut pin = bank.claim(0).unwrap();
    assert_eq!(pin.set_high(), Ok(()));
    assert!(pin.level());
    assert_eq!(pin.set_low(), Ok(()));
    assert!(!pin.level());
    assert_eq!(pin.set(true), Ok(()));
    assert!(pin.level());
    assert_eq!(pin.set(true), Ok(()));
    assert!(pin.level());
}

#[test]
fn pwm_needs_the_pulse_to_fit_the_period() {
    let mut bank = PinBank::new(4);
    let mut pin = bank.claim(0).unwrap();
    assert_eq!(pin.set_pwm(20_000, 20_001), Err(Error::PulseTooLong));
    assert_eq!(pin.signal(), None);
    assert_eq!(pin.set_pwm(20_000, 20_000), Ok(()));
    assert_eq!(pin.signal(), Some(Pwm { period: 20_000, pulse_width: 20_000 }));
    assert_eq!(pin.set_pwm(20_000, 0), Ok(()));
    assert_eq!(pin.signal(), Some(Pwm { period: 20_000, pulse_width: 0 }));
    assert_eq!(pin.set_high(), Ok(()));
    assert_eq!(pin.signal(), None);
}

#[test]
fn reported_failure_fails_every_write_until_cleared() {
    let mut bank = PinBank::new(4);
    let mut pin = bank.claim(0).unwrap();
    pin.set_high().unwrap();
    pin.fail(121);
    assert_eq!(pin.fault(), Some(121));
    assert_eq!(pin.set_low(), Err(Error::Io(121)));
    assert_eq!(pin.set(false), Err(Error::Io(121)));
    assert_eq!(pin.set_pwm(10, 5), Err(Error::Io(121)));
    assert_eq!(pin.set_pwm(5, 10), Err(Error::PulseTooLong));
    assert!(pin.level());
    assert_eq!(pin.signal(), None);
    pin.recover();
    assert_eq!(pin.fault(), None);
    assert_eq!(pin.set_low(), Ok(()));
    assert!(!pin.level());
}

#[test]
fn recorded_level_overrides_what_was_on_record() {
    let mut bank = PinBank::new(4);
    let mut pin = bank.claim(0).unwrap();
    pin.set_pwm(10, 5).unwrap();
    pin.fail(3);
    pin.record(true);
    assert!(pin.level());
    assert_eq!(pin.signal(), None);
    assert_eq!(pin.fault(), Some(3));
    pin.record(false);
    assert!(!pin.level());
}
