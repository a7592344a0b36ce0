use card_ledger::card_operations::{
    Action, CardManager, Event, Outcome, TransportError, WriteStatus, SCARD_E_NO_SMARTCARD,
    SCARD_S_SUCCESS,
};
use card_ledger::command::Command;
use card_ledger::coordinator::Delivery;
use card_ledger::ledger::{
    settle, Receipt, Settlement, Teller, TellerAction, TellerEvent, Transaction, BALANCE_BLOCK,
};
use card_ledger::poller::{greet, PollAction, PollEvent, Poller, IDENTIFIER_BLOCK};
use card_ledger::utils::{hexa_to_decimal, hexa_to_tableau};

fn block_of(hexa: &str) -> [u8; 16] {
    hexa_to_tableau(hexa.to_string())
}

#[test]
fn the_balance_is_kept_in_block_four() {
    assert_eq!(BALANCE_BLOCK, 4);
}

#[test]
fn depot_of_5_on_16_writes_21() {
    let block = block_of("00000000000000000000000000000010");
    assert_eq!(hexa_to_decimal(block.to_vec()), 16);
    let transaction = match Command::parse("depot 5") {
        Command::Transact(transaction) => transaction,
        other => panic!("unexpected command {:?}", other),
    };
    let settlement = settle(block.to_vec(), transaction);
    let written = block_of("00000000000000000000000000000015");
    assert_eq!(settlement, Settlement::Accepted { balance: 21, block: written });

    let mut manager = CardManager::loadreader(1, SCARD_S_SUCCESS).unwrap();
    let mut frame = vec![0xFF, 0xD6, 0x00, 0x04, 0x10];
    frame.extend_from_slice(&[0, 0, 0, 0, 0, 0, 0, 0, 0, 0, 0, 0, 0, 0, 0, 0x15]);
    assert_eq!(manager.write(BALANCE_BLOCK, written), Action::Transmit(frame));
    assert_eq!(
        manager.advance(Event::Response(vec![0x90, 0x00])),
        Action::Finished(Outcome::Written(WriteStatus::Accepted))
    );
}

#[test]
fn retrait_of_100_on_21_is_refused() {
    let block = block_of("00000000000000000000000000000015");
    let transaction = match Command::parse("retrait 100") {
        Command::Transact(transaction) => transaction,
        other => panic!("unexpected command {:?}", other),
    };
    assert_eq!(settle(block.to_vec(), transaction), Settlement::Refused { balance: 21 });
    assert_eq!(hexa_to_decimal(block.to_vec()), 21);
}

#[test]
fn retrait_down_to_zero_is_accepted() {
    let block = block_of("00000000000000000000000000000015");
    assert_eq!(
        settle(block.to_vec(), Transaction::Retrait(21)),
        Settlement::Accepted { balance: 0, block: [0; 16] }
    );
    assert_eq!(
        settle(block.to_vec(), Transaction::Retrait(22)),
        Settlement::Refused { balance: 21 }
    );
    assert_eq!(
        settle(block.to_vec(), Transaction::Retrait(1)),
        Settlement::Accepted {
            balance: 20,
            block: block_of("00000000000000000000000000000014")
        }
    );
}

#[test]
fn depot_beyond_the_block_is_refused() {
    let full = [0xFF; 16];
    assert_eq!(
        settle(full.to_vec(), Transaction::Depot(1)),
        Settlement::Refused { balance: u128::MAX }
    );
    assert_eq!(
        settle(full.to_vec(), Transaction::Depot(0)),
        Settlement::Accepted { balance: u128::MAX, block: full }
    );
    let mut nearly = [0xFF; 16];
    nearly[15] = 0xFE;
    assert_eq!(
        settle(nearly.to_vec(), Transaction::Depot(1)),
        Settlement::Accepted { balance: u128::MAX, block: full }
    );
    assert_eq!(
        settle(nearly.to_vec(), Transaction::Depot(2)),
        Settlement::Refused { balance: u128::MAX - 1 }
    );
}

#[test]
fn a_block_is_never_a_negative_balance() {
    let mut block = [0u8; 16];
    block[0] = 0x80;
    assert_eq!(
        settle(block.to_vec(), Transaction::Retrait(1)),
        Settlement::Accepted {
            balance: (1u128 << 127) - 1,
            block: block_of("7FFFFFFFFFFFFFFFFFFFFFFFFFFFFFFF")
        }
    );
}

#[test]
fn greet_welcomes_a_known_card() {
    assert_eq!(greet(Some("tonton".to_string())), "Bienvenue tonton !");
    assert_eq!(greet(Some(String::new())), "Bienvenue  !");
    assert_eq!(greet(None), "Carte non configuré");
}

fn identifier_answer() -> Vec<u8> {
    vec![
        0xA4, 0x50, 0x4F, 0xA1, 0x1A, 0x08, 0x04, 0x00, 0x62, 0x63, 0x64, 0x65, 0x66, 0x67, 0x68,
        0x69, 0x90, 0x00,
    ]
}

fn polled_up_to_the_lookup(poller: &mut Poller) {
    assert_eq!(poller.poll(PollEvent::Tick), PollAction::Open);
    assert_eq!(
        poller.poll(PollEvent::Opened { readers: 1, status: SCARD_S_SUCCESS }),
        PollAction::Transmit(vec![0xFF, 0x82, 0x00, 0x00, 0x06, 0xFF, 0xFF, 0xFF, 0xFF, 0xFF, 0xFF])
    );
    assert_eq!(
        poller.poll(PollEvent::Card(Event::Response(vec![0x90, 0x00]))),
        PollAction::Transmit(vec![0xFF, 0x86, 0x00, 0x00, 0x05, 0x01, 0x00, 0x00, 0x60, 0x00])
    );
    assert_eq!(
        poller.poll(PollEvent::Card(Event::Response(vec![0x90, 0x00]))),
        PollAction::Transmit(vec![0xFF, 0xB0, 0x00, IDENTIFIER_BLOCK, 0x10])
    );
    assert_eq!(
        poller.poll(PollEvent::Card(Event::Response(identifier_answer()))),
        PollAction::Lookup("A4504FA11A8406263646566676869".to_string())
    );
}

#[test]
fn a_poll_delivers_the_welcome_of_a_known_card() {
    let mut poller = Poller::new();
    assert!(poller.is_idle());
    polled_up_to_the_lookup(&mut poller);
    assert!(!poller.is_idle());
    assert_eq!(
        poller.poll(PollEvent::Looked(Some("tonton".to_string()))),
        PollAction::Deliver(Delivery {
            message: "Bienvenue tonton !".to_string(),
            identifier: "A4504FA11A8406263646566676869".to_string(),
        })
    );
    assert!(poller.is_idle());
}

#[test]
fn a_poll_delivers_a_notice_for_an_unknown_card() {
    let mut poller = Poller::new();
    polled_up_to_the_lookup(&mut poller);
    assert_eq!(
        poller.poll(PollEvent::Looked(None)),
        PollAction::Deliver(Delivery {
            message: "Carte non configuré".to_string(),
            identifier: "A4504FA11A8406263646566676869".to_string(),
        })
    );
}

#[test]
fn a_poll_is_skipped_when_no_session_opens() {
    let mut poller = Poller::new();
    assert_eq!(poller.poll(PollEvent::Tick), PollAction::Open);
    assert_eq!(
        poller.poll(PollEvent::Opened { readers: 1, status: SCARD_E_NO_SMARTCARD }),
        PollAction::Skip(TransportError::NoCardPresent)
    );
    assert!(poller.is_idle());
    assert_eq!(poller.poll(PollEvent::Tick), PollAction::Open);
    assert_eq!(
        poller.poll(PollEvent::Opened { readers: 0, status: SCARD_S_SUCCESS }),
        PollAction::Skip(TransportError::NoReaderAvailable)
    );
    assert_eq!(poller.poll(PollEvent::Tick), PollAction::Open);
    assert_eq!(
        poller.poll(PollEvent::Opened { readers: 1, status: 0x8010_0013 }),
        PollAction::Skip(TransportError::ConnectionFailed)
    );
    assert!(poller.is_idle());
}

#[test]
fn a_poll_is_skipped_when_the_transmission_fails() {
    let mut poller = Poller::new();
    poller.poll(PollEvent::Tick);
    poller.poll(PollEvent::Opened { readers: 1, status: SCARD_S_SUCCESS });
    poller.poll(PollEvent::Card(Event::Response(vec![0x90, 0x00])));
    assert_eq!(
        poller.poll(PollEvent::Card(Event::TransmissionFailed)),
        PollAction::Skip(TransportError::TransmissionFailed)
    );
    assert!(poller.is_idle());
    // The next tick opens a new session.
    assert_eq!(poller.poll(PollEvent::Tick), PollAction::Open);
}

#[test]
fn a_tick_during_a_poll_is_dropped() {
    let mut poller = Poller::new();
    poller.poll(PollEvent::Tick);
    assert_eq!(poller.poll(PollEvent::Tick), PollAction::Wait);
    poller.poll(PollEvent::Opened { readers: 1, status: SCARD_S_SUCCESS });
    assert_eq!(poller.poll(PollEvent::Tick), PollAction::Wait);
    assert_eq!(
        poller.poll(PollEvent::Card(Event::Response(vec![0x90, 0x00]))),
        PollAction::Transmit(vec![0xFF, 0x86, 0x00, 0x00, 0x05, 0x01, 0x00, 0x00, 0x60, 0x00])
    );
}

#[test]
fn an_event_that_is_not_awaited_is_dropped() {
    let mut poller = Poller::new();
    assert_eq!(poller.poll(PollEvent::Looked(None)), PollAction::Wait);
    assert_eq!(
        poller.poll(PollEvent::Opened { readers: 1, status: SCARD_S_SUCCESS }),
        PollAction::Wait
    );
    assert_eq!(poller.poll(PollEvent::Card(Event::TransmissionFailed)), PollAction::Wait);
    assert!(poller.is_idle());
    poller.poll(PollEvent::Tick);
    assert_eq!(poller.poll(PollEvent::Card(Event::Response(vec![]))), PollAction::Wait);
    assert_eq!(poller.poll(PollEvent::Looked(Some("x".to_string()))), PollAction::Wait);
    assert_eq!(
        poller.poll(PollEvent::Opened { readers: 1, status: SCARD_S_SUCCESS }),
        PollAction::Transmit(vec![0xFF, 0x82, 0x00, 0x00, 0x06, 0xFF, 0xFF, 0xFF, 0xFF, 0xFF, 0xFF])
    );
}

/// Answers the frames of a teller as a card whose balance block holds
/// `block` would, and keeps every frame it was sent.
fn attend_with_card(
    teller: &mut Teller,
    block: &mut [u8; 16],
    write_answer: Vec<u8>,
) -> (Vec<Vec<u8>>, Receipt) {
    let mut wire = Vec::new();
    let mut todo = teller.attend(TellerEvent::Opened { readers: 1, status: SCARD_S_SUCCESS });
    loop {
        match todo {
            TellerAction::Transmit(frame) => {
                let answer = match frame[1] {
                    0xB0 => {
                        let mut answer = block.to_vec();
                        answer.extend_from_slice(&[0x90, 0x00]);
                        answer
                    }
                    0xD6 => {
                        if write_answer[0] == 0x90 {
                            block.copy_from_slice(&frame[5..]);
                        }
                        write_answer.clone()
                    }
                    _ => vec![0x90, 0x00],
                };
                wire.push(frame);
                todo = teller.attend(TellerEvent::Card(Event::Response(answer)));
            }
            TellerAction::Done(receipt) => return (wire, receipt),
            TellerAction::Wait => panic!("the teller awaits nothing"),
        }
    }
}

#[test]
fn the_teller_deposits_5_on_16() {
    let mut block = block_of("00000000000000000000000000000010");
    let mut teller = Teller::new(Transaction::Depot(5));
    let (wire, receipt) = attend_with_card(&mut teller, &mut block, vec![0x90, 0x00]);
    assert_eq!(receipt, Receipt::Settled { balance: 21 });
    assert!(teller.is_done());
    assert_eq!(block, block_of("00000000000000000000000000000015"));
    let mut write = vec![0xFF, 0xD6, 0x00, 0x04, 0x10];
    write.extend_from_slice(&block_of("00000000000000000000000000000015"));
    assert_eq!(
        wire,
        vec![
            vec![0xFF, 0x82, 0x00, 0x00, 0x06, 0xFF, 0xFF, 0xFF, 0xFF, 0xFF, 0xFF],
            vec![0xFF, 0x86, 0x00, 0x00, 0x05, 0x01, 0x00, 0x04, 0x60, 0x00],
            vec![0xFF, 0xB0, 0x00, 0x04, 0x10],
            write,
        ]
    );
}

#[test]
fn the_teller_refuses_to_take_100_from_21() {
    let mut block = block_of("00000000000000000000000000000015");
    let mut teller = Teller::new(Transaction::Retrait(100));
    let (wire, receipt) = attend_with_card(&mut teller, &mut block, vec![0x90, 0x00]);
    assert_eq!(receipt, Receipt::Refused { balance: 21 });
    assert!(teller.is_done());
    assert_eq!(block, block_of("00000000000000000000000000000015"));
    assert_eq!(wire.len(), 3);
    assert!(wire.iter().all(|frame| frame[1] != 0xD6));
    // Nothing follows the refusal.
    assert_eq!(
        teller.attend(TellerEvent::Card(Event::Response(vec![0x90, 0x00]))),
        TellerAction::Wait
    );
    assert_eq!(
        teller.attend(TellerEvent::Opened { readers: 1, status: SCARD_S_SUCCESS }),
        TellerAction::Wait
    );
}

#[test]
fn the_teller_takes_what_the_balance_holds() {
    let mut block = block_of("00000000000000000000000000000015");
    let mut teller = Teller::new(Transaction::Retrait(21));
    let (wire, receipt) = attend_with_card(&mut teller, &mut block, vec![0x90, 0x00]);
    assert_eq!(receipt, Receipt::Settled { balance: 0 });
    assert_eq!(block, [0u8; 16]);
    assert_eq!(wire.len(), 4);
}

#[test]
fn the_teller_reports_a_write_that_the_card_rejects() {
    let mut block = block_of("00000000000000000000000000000010");
    let mut teller = Teller::new(Transaction::Depot(5));
    let (wire, receipt) = attend_with_card(&mut teller, &mut block, vec![0x63, 0x00]);
    assert_eq!(receipt, Receipt::Rejected);
    assert_eq!(block, block_of("00000000000000000000000000000010"));
    assert_eq!(wire.len(), 4);
}

#[test]
fn the_teller_gives_up_when_the_transport_fails() {
    let mut teller = Teller::new(Transaction::Depot(5));
    assert_eq!(
        teller.attend(TellerEvent::Opened { readers: 1, status: SCARD_E_NO_SMARTCARD }),
        TellerAction::Done(Receipt::Failed(TransportError::NoCardPresent))
    );
    assert!(teller.is_done());

    let mut teller = Teller::new(Transaction::Depot(5));
    assert!(!teller.is_done());
    assert!(matches!(
        teller.attend(TellerEvent::Opened { readers: 1, status: SCARD_S_SUCCESS }),
        TellerAction::Transmit(_)
    ));
    assert_eq!(
        teller.attend(TellerEvent::Card(Event::TransmissionFailed)),
        TellerAction::Done(Receipt::Failed(TransportError::TransmissionFailed))
    );

    let mut block = block_of("00000000000000000000000000000010");
    let mut teller = Teller::new(Transaction::Depot(5));
    let mut todo = teller.attend(TellerEvent::Opened { readers: 1, status: SCARD_S_SUCCESS });
    let mut sent = 0;
    while let TellerAction::Transmit(frame) = todo {
        sent += 1;
        todo = if frame[1] == 0xD6 {
            teller.attend(TellerEvent::Card(Event::TransmissionFailed))
        } else {
            let mut answer = block.to_vec();
            answer.extend_from_slice(&[0x90, 0x00]);
            block = block_of("00000000000000000000000000000010");
            teller.attend(TellerEvent::Card(Event::Response(answer)))
        };
    }
    assert_eq!(sent, 4);
    assert_eq!(todo, TellerAction::Done(Receipt::Failed(TransportError::TransmissionFailed)));
}

#[test]
fn the_teller_awaits_a_session_first() {
    let mut teller = Teller::new(Transaction::Depot(1));
    assert_eq!(
        teller.attend(TellerEvent::Card(Event::Response(vec![0x90, 0x00]))),
        TellerAction::Wait
    );
    assert!(!teller.is_done());
}
