use icm426xx::config::Config;
use icm426xx::fifo::decode;
use icm426xx::register_bank::{InvalidBank, Transaction};
use icm426xx::uninitialized::{Action, Response};
use icm426xx::{Ready, ICM42688};

fn ready() -> ICM42688<(), Ready> {
    let mut init = ICM42688::new(()).initialize(Config::default());
    let mut action = init.pending();
    loop {
        action = match action {
            Action::Transfer(Transaction::Read { address: 0x75, .. }) => {
                init.advance(Response::Read(0x47))
            }
            Action::Transfer(Transaction::Read { .. }) => init.advance(Response::Read(0)),
            Action::Transfer(Transaction::Write { .. }) => init.advance(Response::Written),
            Action::DelayMs(_) | Action::DelayUs(_) => init.advance(Response::Elapsed),
            Action::Done => break,
            Action::Failed | Action::Aborted | Action::Refused(_) => panic!("bring-up stopped"),
        };
    }
    init.finish().unwrap()
}

#[test]
fn fifo_count_is_read_in_one_transaction() {
    let icm = ready();
    let transaction = icm.read_fifo_count().unwrap();
    assert_eq!(transaction, Transaction::Read { address: 0x2E, len: 2 });
    assert_eq!(transaction.frame(), vec![0xAE, 0, 0]);
    assert_eq!(ICM42688::<(), Ready>::fifo_count(0x00, 0x13), 19);
    assert_eq!(ICM42688::<(), Ready>::fifo_count(0x08, 0x20), 2080);
    assert_eq!(ICM42688::<(), Ready>::fifo_count(0xFF, 0xFF), 65535);
}

#[test]
fn fifo_read_is_as_long_as_count_and_capacity_allow() {
    let icm = ready();
    assert_eq!(icm.read_fifo(19, 64), Ok(Transaction::Read { address: 0x30, len: 19 }));
    assert_eq!(icm.read_fifo(64, 64), Ok(Transaction::Read { address: 0x30, len: 64 }));
    assert_eq!(icm.read_fifo(2080, 512), Ok(Transaction::Read { address: 0x30, len: 512 }));
    assert_eq!(icm.read_fifo(0, 512), Ok(Transaction::Read { address: 0x30, len: 0 }));
    assert_eq!(icm.read_fifo(5, 0), Ok(Transaction::Read { address: 0x30, len: 0 }));
}

#[test]
fn fifo_is_refused_outside_bank_zero() {
    let mut icm = ready();
    icm.ll().set_bank(1);
    let refusal = InvalidBank { requested: 0, active: 1 };
    assert_eq!(icm.read_fifo_count(), Err(refusal));
    assert_eq!(icm.read_fifo(16, 16), Err(refusal));
    icm.ll().set_bank(0);
    assert!(icm.read_fifo_count().is_ok());
}

#[test]
fn drained_bytes_decode_to_samples() {
    let icm = ready();
    let device = [
        0x40u8, 0x00, 0x01, 0x00, 0x02, 0x00, 0x03, 0x19, 0x20, 0xFF, 0xFF, 0xFF, 0xFE, 0xFF,
        0xFD, 0xE7, 0x00, 0x00, 0x00,
    ];
    let count = ICM42688::<(), Ready>::fifo_count(0, device.len() as u8);
    let len = match icm.read_fifo(count, 128).unwrap() {
        Transaction::Read { address: 0x30, len } => len,
        other => panic!("{:?}", other),
    };
    assert_eq!(len, 19);
    let mut samples = Vec::new();
    assert_eq!(decode(&device[..len], &mut samples), 2);
    assert_eq!(samples[0].temperature, 25);
    assert_eq!(samples[1].temperature, -25);
    assert_eq!(samples[1].gyro.unwrap().z, -3);
}
