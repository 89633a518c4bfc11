use icm426xx::config::Config;
use icm426xx::register_bank::Transaction;
use icm426xx::uninitialized::{Action, Response};
use icm426xx::ICM42688;

/// One framed transfer as the bus sees it: the bytes sent, and for a read
/// the byte the device answers with.
struct Exchange {
    sent: Vec<u8>,
    answer: Option<u8>,
}

impl Exchange {
    fn read(sent: Vec<u8>, answer: u8) -> Exchange {
        Exchange { sent, answer: Some(answer) }
    }

    fn write(sent: Vec<u8>) -> Exchange {
        Exchange { sent, answer: None }
    }
}

#[test]
fn test_init() {
    let expected = vec![
        Exchange::read(vec![145, 0], 0),
        Exchange::write(vec![17, 1]),
        Exchange::read(vec![245, 0], 0x47),
        Exchange::read(vec![148, 0], 0),
        Exchange::write(vec![20, 6]),
        Exchange::read(vec![150, 0], 0),
        Exchange::write(vec![22, 192]),
        Exchange::read(vec![204, 0], 0),
        Exchange::write(vec![76, 51]),
        Exchange::read(vec![205, 0], 0),
        Exchange::write(vec![77, 64]),
        Exchange::read(vec![207, 0], 0),
        Exchange::write(vec![79, 6]),
        Exchange::read(vec![208, 0], 0),
        Exchange::write(vec![80, 6]),
        Exchange::read(vec![209, 0], 0),
        Exchange::write(vec![81, 0]),
        Exchange::read(vec![210, 0], 0),
        Exchange::write(vec![82, 0]),
        Exchange::read(vec![211, 0], 0),
        Exchange::write(vec![83, 0]),
        Exchange::read(vec![212, 0], 0),
        Exchange::write(vec![84, 29]),
        Exchange::read(vec![223, 0], 0),
        Exchange::write(vec![95, 55]),
        Exchange::read(vec![224, 0], 0),
        Exchange::write(vec![96, 0]),
        Exchange::read(vec![225, 0], 0),
        Exchange::write(vec![97, 0]),
        Exchange::read(vec![227, 0], 0),
        Exchange::write(vec![99, 8]),
        Exchange::read(vec![228, 0], 0),
        Exchange::write(vec![100, 0]),
        Exchange::read(vec![229, 0], 0),
        Exchange::write(vec![101, 4]),
        Exchange::write(vec![118, 1]),
        Exchange::read(vec![139, 0], 0),
        Exchange::write(vec![11, 0]),
        Exchange::read(vec![140, 0], 0),
        Exchange::write(vec![12, 13]),
        Exchange::read(vec![141, 0], 0),
        Exchange::write(vec![13, 170]),
        Exchange::read(vec![142, 0], 0),
        Exchange::write(vec![14, 128]),
        Exchange::read(vec![251, 0], 0),
        Exchange::write(vec![123, 0]),
        Exchange::write(vec![118, 2]),
        Exchange::read(vec![131, 0], 0),
        Exchange::write(vec![3, 26]),
        Exchange::read(vec![132, 0], 0),
        Exchange::write(vec![4, 170]),
        Exchange::read(vec![133, 0], 0),
        Exchange::write(vec![5, 128]),
        Exchange::write(vec![118, 0]),
        Exchange::read(vec![206, 0], 0),
        Exchange::write(vec![78, 15]),
    ];
    let icm = ICM42688::new(());
    let mut init = icm.initialize(Config::default());
    let mut action = init.pending();
    let mut delays: Vec<Action> = Vec::new();
    let mut at = 0;
    loop {
        action = match action {
            Action::Transfer(transaction) => {
                assert!(at < expected.len());
                assert_eq!(transaction.frame(), expected[at].sent);
                let response = match transaction {
                    Transaction::Read { .. } => Response::Read(expected[at].answer.unwrap()),
                    Transaction::Write { .. } => {
                        assert!(expected[at].answer.is_none());
                        Response::Written
                    }
                };
                at += 1;
                init.advance(response)
            }
            Action::DelayMs(_) | Action::DelayUs(_) => {
                delays.push(action);
                init.advance(Response::Elapsed)
            }
            Action::Done => break,
            Action::Failed | Action::Aborted | Action::Refused(_) => panic!("bring-up stopped"),
        };
    }
    assert_eq!(at, expected.len());
    assert_eq!(delays, vec![Action::DelayMs(1), Action::DelayUs(200)]);
    let mut ready = init.finish().unwrap();
    assert_eq!(ready.ll().current_bank(), 0);
}
