use icm426xx::config::{AccelMode, AccelOdr, Config, Drive, GyroOdr, Pin9Function, Polarity};
use icm426xx::ll;
use icm426xx::register_bank::{InvalidBank, Transaction, Update};
use icm426xx::registers::{AFSR, RTC_MODE};
use icm426xx::uninitialized::{
    intf_config1, step_at, watermark_high, watermark_low, Action, InitializationError,
    Initialization, Response, Step, IDENTITY_STEP, STEPS, WHO_AM_I_VALUE,
};
use icm426xx::ICM42688;

/// Carries a bring-up through, answering every read with `read` but the
/// identity with `identity`.  Returns every action that was pending.
fn drive(init: &mut Initialization<()>, read: u8, identity: u8) -> Vec<Action> {
    let mut actions = Vec::new();
    let mut action = init.pending();
    for _ in 0..200 {
        actions.push(action);
        action = match action {
            Action::Transfer(Transaction::Read { address: 0x75, .. }) => {
                init.advance(Response::Read(identity))
            }
            Action::Transfer(Transaction::Read { .. }) => init.advance(Response::Read(read)),
            Action::Transfer(Transaction::Write { .. }) => init.advance(Response::Written),
            Action::DelayMs(_) | Action::DelayUs(_) => init.advance(Response::Elapsed),
            Action::Done | Action::Failed | Action::Aborted | Action::Refused(_) => return actions,
        };
    }
    panic!("bring-up does not end");
}

fn writes(actions: &[Action]) -> Vec<(u8, u8)> {
    let mut pairs = Vec::new();
    for action in actions {
        if let Action::Transfer(Transaction::Write { address, value }) = action {
            pairs.push((*address, *value));
        }
    }
    pairs
}

fn addresses(actions: &[Action]) -> Vec<(bool, u8)> {
    let mut list = Vec::new();
    for action in actions {
        match action {
            Action::Transfer(Transaction::Read { address, .. }) => list.push((false, *address)),
            Action::Transfer(Transaction::Write { address, .. }) => list.push((true, *address)),
            _ => {}
        }
    }
    list
}

fn other_config() -> Config {
    let mut config = Config::default();
    config.gyro.odr = GyroOdr::_32kHz;
    config.accel.odr = AccelOdr::_1_5625Hz;
    config.accel.mode = AccelMode::LowPower;
    config.int1.drive = Drive::OpenDrain;
    config.int1.polarity = Polarity::ActiveHigh;
    config.pin9.function = Pin9Function::CLKIN;
    config.fifo_watermark = 0xABC;
    config
}

#[test]
fn default_config_is_as_documented() {
    let config = Config::default();
    assert_eq!(config.gyro.odr, GyroOdr::_1kHz);
    assert_eq!(config.accel.odr, AccelOdr::_1kHz);
    assert_eq!(config.accel.mode, AccelMode::LowNoise);
    assert_eq!(config.int1.drive, Drive::PushPull);
    assert_eq!(config.int1.polarity, Polarity::ActiveLow);
    assert_eq!(config.pin9.function, Pin9Function::INT2);
    assert_eq!(config.fifo_watermark, 0);
    assert_eq!(GyroOdr::default().bits(), 0b0110);
    assert_eq!(GyroOdr::_500Hz.bits(), 0b1111);
    assert_eq!(GyroOdr::_12_5Hz.bits(), 0b1011);
    assert_eq!(AccelOdr::_6_25Hz.bits(), 0b1100);
    assert_eq!(AccelOdr::_32kHz.bits(), 0b0001);
    assert_eq!(AccelMode::Off.bits(), 0);
    assert_eq!(AccelMode::LowPower.bits(), 2);
    assert_eq!(AccelMode::LowNoise.bits(), 3);
    assert_eq!(Pin9Function::FSYNC.bits(), 1);
    assert_eq!(Pin9Function::CLKIN.bits(), 2);
    assert_eq!(Drive::PushPull.bits(), 1);
    assert_eq!(Polarity::ActiveHigh.bits(), 1);
}

#[test]
fn watermark_is_split_over_two_registers() {
    for watermark in 0..4096u16 {
        let low = watermark_low(watermark);
        let high = watermark_high(watermark);
        assert_eq!(low as u16, watermark & 0xFF);
        assert_eq!(high as u16, (watermark >> 8) & 0xF);
        assert_eq!((high as u16) << 8 | low as u16, watermark);
    }
    assert_eq!(watermark_low(0xABC), 0xBC);
    assert_eq!(watermark_high(0xABC), 0x0A);
    assert_eq!(watermark_high(0xFABC), 0x0A);

    let mut config = Config::default();
    config.fifo_watermark = 0xABC;
    let mut init = ICM42688::new(()).initialize(config);
    let written = writes(&drive(&mut init, 0xF0, WHO_AM_I_VALUE));
    assert!(written.contains(&(0x60, 0xBC)));
    assert!(written.contains(&(0x61, 0xFA)));
}

#[test]
fn order_does_not_depend_on_the_configuration() {
    let mut first = ICM42688::new(()).initialize(Config::default());
    let mut second = ICM42688::new(()).initialize(other_config());
    let one = drive(&mut first, 0, WHO_AM_I_VALUE);
    let two = drive(&mut second, 0, WHO_AM_I_VALUE);
    assert_eq!(addresses(&one), addresses(&two));
    assert_eq!(one.len(), two.len());
    assert_eq!(addresses(&one).len(), 56);
    assert_eq!(one.last(), Some(&Action::Done));

    let mut again = ICM42688::new(()).initialize(other_config());
    assert_eq!(drive(&mut again, 0, WHO_AM_I_VALUE), two);
}

#[test]
fn configuration_reaches_the_registers() {
    let mut init = ICM42688::new(()).initialize(other_config());
    let written = writes(&drive(&mut init, 0, WHO_AM_I_VALUE));
    assert_eq!(
        written,
        vec![
            (0x11, 0x01),
            (0x14, 0x05),
            (0x16, 0xC0),
            (0x4C, 0x33),
            (0x4D, 0x44),
            (0x4F, 0x01),
            (0x50, 0x0E),
            (0x51, 0x00),
            (0x52, 0x00),
            (0x53, 0x00),
            (0x54, 0x1D),
            (0x5F, 0x37),
            (0x60, 0xBC),
            (0x61, 0x0A),
            (0x63, 0x08),
            (0x64, 0x00),
            (0x65, 0x04),
            (0x76, 0x01),
            (0x0B, 0x00),
            (0x0C, 0x0D),
            (0x0D, 0xAA),
            (0x0E, 0x80),
            (0x7B, 0x04),
            (0x76, 0x02),
            (0x03, 0x1A),
            (0x04, 0xAA),
            (0x05, 0x80),
            (0x76, 0x00),
            (0x4E, 0x0E),
        ]
    );
}

#[test]
fn bits_outside_the_fields_are_written_back_as_read() {
    let mut init = ICM42688::new(()).initialize(Config::default());
    let written = writes(&drive(&mut init, 0xFF, WHO_AM_I_VALUE));
    assert_eq!(written[0], (0x11, 0xFF));
    assert_eq!(written[1], (0x14, 0xFE));
    assert_eq!(written[2], (0x16, 0xFF));
    assert_eq!(written[4], (0x4D, 0x7F));
    assert_eq!(written[7], (0x51, 0xF3));
    assert_eq!(written[17], (0x76, 0x01));
    assert_eq!(written[28], (0x4E, 0xFF));
}

#[test]
fn wrong_identity_stops_after_the_reset() {
    for identity in [0x00u8, 0x46, 0x48, 0xFF] {
        let mut init = ICM42688::new(()).initialize(Config::default());
        let actions = drive(&mut init, 0, identity);
        assert_eq!(
            actions,
            vec![
                Action::Transfer(Transaction::Read { address: 0x11, len: 1 }),
                Action::Transfer(Transaction::Write { address: 0x11, value: 1 }),
                Action::DelayMs(1),
                Action::Transfer(Transaction::Read { address: 0x75, len: 1 }),
                Action::Failed,
            ]
        );
        assert_eq!(init.advance(Response::Written), Action::Failed);
        assert_eq!(init.advance(Response::Read(WHO_AM_I_VALUE)), Action::Failed);
        assert_eq!(init.advance(Response::Elapsed), Action::Failed);
        assert_eq!(init.finish().err(), Some(InitializationError));
    }
}

#[test]
fn finish_before_the_end_fails() {
    let init = ICM42688::new(()).initialize(Config::default());
    assert!(init.finish().is_err());
    let mut init = ICM42688::new(()).initialize(Config::default());
    init.advance(Response::Read(0));
    init.advance(Response::Written);
    assert_eq!(init.pending(), Action::DelayMs(1));
    assert!(init.finish().is_err());
}

#[test]
fn a_report_that_answers_nothing_changes_nothing() {
    let mut init = ICM42688::new(()).initialize(Config::default());
    let first = Action::Transfer(Transaction::Read { address: 0x11, len: 1 });
    assert_eq!(init.pending(), first);
    assert_eq!(init.advance(Response::Written), first);
    assert_eq!(init.advance(Response::Elapsed), first);
    let second = Action::Transfer(Transaction::Write { address: 0x11, value: 0x81 });
    assert_eq!(init.advance(Response::Read(0x80)), second);
    assert_eq!(init.advance(Response::Read(0x00)), second);
    assert_eq!(init.advance(Response::Elapsed), second);
    assert_eq!(init.advance(Response::Written), Action::DelayMs(1));
    assert_eq!(init.advance(Response::Written), Action::DelayMs(1));
    assert_eq!(init.advance(Response::Read(0x47)), Action::DelayMs(1));
    assert_eq!(
        init.advance(Response::Elapsed),
        Action::Transfer(Transaction::Read { address: 0x75, len: 1 })
    );
}

#[test]
fn bank_record_follows_each_selection() {
    let mut init = ICM42688::new(0u32).initialize(Config::default());
    let mut action = init.pending();
    let mut selections = Vec::new();
    let mut banks_at_write = Vec::new();
    loop {
        action = match action {
            Action::Transfer(Transaction::Read { address: 0x75, .. }) => {
                init.advance(Response::Read(WHO_AM_I_VALUE))
            }
            Action::Transfer(Transaction::Read { .. }) => init.advance(Response::Read(0)),
            Action::Transfer(Transaction::Write { address, value }) => {
                *init.spi() += 1;
                if address == 0x76 {
                    selections.push(value);
                }
                banks_at_write.push((address, value));
                init.advance(Response::Written)
            }
            Action::DelayMs(_) | Action::DelayUs(_) => init.advance(Response::Elapsed),
            Action::Done => break,
            Action::Failed | Action::Aborted | Action::Refused(_) => panic!("bring-up stopped"),
        };
    }
    assert_eq!(selections, vec![1, 2, 0]);
    assert_eq!(banks_at_write.len(), 29);
    let mut ready = init.finish().unwrap();
    assert_eq!(ready.ll().current_bank(), 0);
    assert_eq!(*ready.ll().spi(), 29);
}

#[test]
fn bring_up_from_another_bank_is_refused_before_anything_is_sent() {
    let mut icm = ICM42688::new(());
    icm.ll().set_bank(2);
    let mut init = icm.initialize(Config::default());
    let refusal = Action::Refused(InvalidBank { requested: 0, active: 2 });
    assert_eq!(init.pending(), refusal);
    assert_eq!(init.advance(Response::Read(0)), refusal);
    assert_eq!(init.advance(Response::Written), refusal);
    assert!(init.finish().is_err());
}

#[test]
fn steps_are_the_documented_ones() {
    let handle = ll::ICM42688::new(());
    let config = other_config();
    assert_eq!(STEPS, 32);
    assert_eq!(IDENTITY_STEP, 2);
    match step_at(&handle, &config, 0) {
        Ok(Step::Modify { register, update }) => {
            assert_eq!((register.bank, register.address), (0, 0x11));
            assert_eq!(update, Update { mask: 0x01, bits: 0x01 });
        }
        other => panic!("{:?}", other),
    }
    assert_eq!(step_at(&handle, &config, 1), Ok(Step::DelayMs { ms: 1 }));
    assert!(matches!(step_at(&handle, &config, 2), Ok(Step::Identify { .. })));
    assert!(matches!(step_at(&handle, &config, 19), Ok(Step::SelectBank { bank: 1, .. })));
    assert_eq!(
        step_at(&handle, &config, 20),
        Err(InvalidBank { requested: 1, active: 0 })
    );
    assert_eq!(
        step_at(&handle, &config, 26),
        Err(InvalidBank { requested: 2, active: 0 })
    );
    assert_eq!(step_at(&handle, &config, 31), Ok(Step::DelayUs { us: 200 }));
    let mut moved = ll::ICM42688::new(());
    moved.set_bank(1);
    assert!(matches!(step_at(&moved, &config, 24), Ok(Step::Modify { .. })));
    assert!(matches!(step_at(&moved, &config, 25), Ok(Step::SelectBank { bank: 2, .. })));
    assert_eq!(
        step_at(&moved, &config, 30),
        Err(InvalidBank { requested: 0, active: 1 })
    );
}

#[test]
fn clock_input_enables_the_clock_mode() {
    assert_eq!(intf_config1(Pin9Function::INT2), Update { mask: AFSR, bits: 0x40 });
    assert_eq!(intf_config1(Pin9Function::FSYNC), Update { mask: 0xC0, bits: 0x40 });
    assert_eq!(
        intf_config1(Pin9Function::CLKIN),
        Update { mask: AFSR | RTC_MODE, bits: 0x44 }
    );
}

#[test]
fn bus_fault_ends_the_bring_up() {
    let mut init = ICM42688::new(()).initialize(Config::default());
    assert_eq!(init.advance(Response::Fault), Action::Aborted);
    assert_eq!(init.advance(Response::Read(0)), Action::Aborted);
    assert_eq!(init.advance(Response::Written), Action::Aborted);
    assert_eq!(init.finish().err(), Some(InitializationError));

    let mut init = ICM42688::new(()).initialize(Config::default());
    init.advance(Response::Read(0));
    assert_eq!(init.advance(Response::Fault), Action::Aborted);
    assert!(init.finish().is_err());

    let mut init = ICM42688::new(()).initialize(Config::default());
    init.advance(Response::Read(0));
    assert_eq!(init.advance(Response::Written), Action::DelayMs(1));
    assert_eq!(init.advance(Response::Fault), Action::DelayMs(1));
    let identity = Action::Transfer(Transaction::Read { address: 0x75, len: 1 });
    assert_eq!(init.advance(Response::Elapsed), identity);
    assert_eq!(init.advance(Response::Fault), Action::Aborted);
    assert_eq!(init.advance(Response::Read(WHO_AM_I_VALUE)), Action::Aborted);
}
