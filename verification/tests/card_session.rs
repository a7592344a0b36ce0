use card_ledger::card_operations::{
    Action, CardManager, Event, Outcome, TransportError, WriteStatus, DEFAULT_KEY,
    SCARD_E_NO_READERS_AVAILABLE, SCARD_E_NO_SMARTCARD, SCARD_E_READER_UNAVAILABLE,
    SCARD_E_UNKNOWN_READER, SCARD_S_SUCCESS, SCARD_W_REMOVED_CARD, SCARD_W_UNPOWERED_CARD,
    SCARD_W_UNRESPONSIVE_CARD,
};

/// A card in a reader, as far as this system talks to one: 64 blocks, a key
/// slot in the reader, and a log of every frame it was sent.
struct BenchCard {
    blocks: Vec<[u8; 16]>,
    key: [u8; 6],
    loaded: Option<[u8; 6]>,
    wire: Vec<Vec<u8>>,
    fail_at: Option<usize>,
}

impl BenchCard {
    fn new() -> BenchCard {
        let mut blocks = vec![[0xEEu8; 16]; 64];
        blocks[0] = [
            0xA4, 0x50, 0x4F, 0xA1, 0x1A, 0x08, 0x04, 0x00, 0x62, 0x63, 0x64, 0x65, 0x66, 0x67,
            0x68, 0x69,
        ];
        BenchCard { blocks, key: [0xFF; 6], loaded: None, wire: Vec::new(), fail_at: None }
    }

    fn exchange(&mut self, frame: &[u8]) -> Event {
        if self.fail_at == Some(self.wire.len()) {
            self.wire.push(frame.to_vec());
            return Event::TransmissionFailed;
        }
        self.wire.push(frame.to_vec());
        let refused = vec![0x63, 0x00];
        if frame.len() < 5 || frame[0] != 0xFF {
            return Event::Response(refused);
        }
        match frame[1] {
            0x82 if frame.len() == 11 => {
                let mut key = [0u8; 6];
                key.copy_from_slice(&frame[5..]);
                if key == self.key {
                    self.loaded = Some(key);
                    Event::Response(vec![0x90, 0x00])
                } else {
                    self.loaded = None;
                    Event::Response(refused)
                }
            }
            0x86 if frame.len() == 10 => {
                if self.loaded == Some(self.key) && (frame[7] as usize) < self.blocks.len() {
                    Event::Response(vec![0x90, 0x00])
                } else {
                    Event::Response(refused)
                }
            }
            0xB0 if frame.len() == 5 && (frame[3] as usize) < self.blocks.len() => {
                let mut answer = self.blocks[frame[3] as usize].to_vec();
                answer.push(0x90);
                answer.push(0x00);
                Event::Response(answer)
            }
            0xD6 if frame.len() == 21 && (frame[3] as usize) < self.blocks.len() => {
                self.blocks[frame[3] as usize].copy_from_slice(&frame[5..]);
                Event::Response(vec![0x90, 0x00])
            }
            _ => Event::Response(refused),
        }
    }
}

fn opened() -> CardManager {
    CardManager::loadreader(1, SCARD_S_SUCCESS).unwrap()
}

/// Carries an operation through: transmits each frame to the card and
/// reports the answer, until the manager says it is finished.
fn carry_out(manager: &mut CardManager, first: Action, card: &mut BenchCard) -> Outcome {
    let mut action = first;
    loop {
        match action {
            Action::Transmit(frame) => {
                let event = card.exchange(&frame);
                action = manager.advance(event);
            }
            Action::Finished(outcome) => return outcome,
            Action::Idle => panic!("no operation in progress"),
        }
    }
}

#[test]
fn test_loadreader_with_card() {
    let card = CardManager::loadreader(1, SCARD_S_SUCCESS);
    assert!(card.is_ok());
    assert!(card.unwrap().is_idle());
}

#[test]
fn test_loadreader_without_card() {
    let card = CardManager::loadreader(1, SCARD_E_NO_SMARTCARD);
    assert_eq!(card.err(), Some(TransportError::NoCardPresent));
}

#[test]
fn test_keyload_valid() {
    let mut card = BenchCard::new();
    let mut manager = opened();
    let first = manager.keyload([0xff, 0xff, 0xff, 0xff, 0xff, 0xff]);
    let res = carry_out(&mut manager, first, &mut card);
    assert_eq!(res, Outcome::Status(1));
}

#[test]
fn test_keyload_invalid() {
    let mut card = BenchCard::new();
    let mut manager = opened();
    let first = manager.keyload([0x0f, 0xff, 0xef, 0xef, 0xaf, 0xff]);
    let res = carry_out(&mut manager, first, &mut card);
    assert_eq!(res, Outcome::Status(0));
}

#[test]
fn test_write_and_read() {
    let mut card = BenchCard::new();
    let mut manager = opened();
    let data = vec![[0x00; 16]; 3];
    let first = manager.write_sector(3, data);
    let written = carry_out(&mut manager, first, &mut card);
    assert_eq!(written, Outcome::SectorWritten(vec![WriteStatus::Accepted; 3]));
    let first = manager.read_sector(3);
    let data = carry_out(&mut manager, first, &mut card);
    assert_eq!(data, Outcome::Sector(vec![vec![0x00; 16]; 3]));
}

#[test]
fn loadreader_tells_the_failures_apart() {
    for status in [
        SCARD_E_NO_READERS_AVAILABLE,
        SCARD_E_UNKNOWN_READER,
        SCARD_E_READER_UNAVAILABLE,
    ] {
        assert_eq!(
            CardManager::loadreader(1, status).err(),
            Some(TransportError::NoReaderAvailable)
        );
    }
    for status in [
        SCARD_E_NO_SMARTCARD,
        SCARD_W_REMOVED_CARD,
        SCARD_W_UNRESPONSIVE_CARD,
        SCARD_W_UNPOWERED_CARD,
    ] {
        assert_eq!(CardManager::loadreader(2, status).err(), Some(TransportError::NoCardPresent));
    }
    // Sharing violation, communication error, service not running.
    for status in [0x8010_000Bu32, 0x8010_0013, 0x8010_001D, 1, u32::MAX] {
        assert_eq!(
            CardManager::loadreader(1, status).err(),
            Some(TransportError::ConnectionFailed)
        );
    }
}

#[test]
fn loadreader_needs_a_reader() {
    assert_eq!(
        CardManager::loadreader(0, SCARD_S_SUCCESS).err(),
        Some(TransportError::NoReaderAvailable)
    );
    assert_eq!(
        CardManager::loadreader(0, SCARD_E_NO_READERS_AVAILABLE).err(),
        Some(TransportError::NoReaderAvailable)
    );
    // The transport itself failed before it could list a reader.
    assert_eq!(
        CardManager::loadreader(0, 0x8010_001D).err(),
        Some(TransportError::ConnectionFailed)
    );
    assert!(CardManager::loadreader(3, SCARD_S_SUCCESS).is_ok());
}

#[test]
fn keyload_transmits_the_load_key_frame() {
    let mut manager = opened();
    let action = manager.keyload([1, 2, 3, 4, 5, 6]);
    assert_eq!(
        action,
        Action::Transmit(vec![0xFF, 0x82, 0x00, 0x00, 0x06, 1, 2, 3, 4, 5, 6])
    );
    assert!(!manager.is_idle());
}

#[test]
fn keyload_wants_the_whole_status_word() {
    for (answer, flag) in [
        (vec![0x90, 0x00], 1),
        (vec![0x90, 0x00, 0x01], 1),
        (vec![0x90, 0x01], 0),
        (vec![0x00, 0x90], 0),
        (vec![0x90], 1),
        (vec![], 0),
        (vec![0x63, 0x00], 0),
    ] {
        let mut manager = opened();
        manager.keyload(DEFAULT_KEY);
        assert_eq!(
            manager.advance(Event::Response(answer)),
            Action::Finished(Outcome::Status(flag))
        );
        assert!(manager.is_idle());
    }
}

#[test]
fn auth_goes_by_the_first_byte() {
    let mut manager = opened();
    assert_eq!(
        manager.auth(9),
        Action::Transmit(vec![0xFF, 0x86, 0x00, 0x00, 0x05, 0x01, 0x00, 0x09, 0x60, 0x00])
    );
    assert_eq!(
        manager.advance(Event::Response(vec![0x90, 0x55])),
        Action::Finished(Outcome::Status(1))
    );
    manager.auth(9);
    assert_eq!(
        manager.advance(Event::Response(vec![0x63, 0x00])),
        Action::Finished(Outcome::Status(0))
    );
    manager.auth(9);
    assert_eq!(manager.advance(Event::Response(vec![])), Action::Finished(Outcome::Status(0)));
}

#[test]
fn a_wrong_key_is_a_flag_and_no_error() {
    let mut card = BenchCard::new();
    card.key = [0xA0, 0xA1, 0xA2, 0xA3, 0xA4, 0xA5];
    let mut manager = opened();
    let first = manager.keyload(DEFAULT_KEY);
    assert_eq!(carry_out(&mut manager, first, &mut card), Outcome::Status(0));
    let first = manager.auth(4);
    assert_eq!(carry_out(&mut manager, first, &mut card), Outcome::Status(0));
}

#[test]
fn read_loads_the_key_and_authenticates_first() {
    let mut card = BenchCard::new();
    card.blocks[4] = [7; 16];
    let mut manager = opened();
    let first = manager.read(4);
    let outcome = carry_out(&mut manager, first, &mut card);
    assert_eq!(outcome, Outcome::Block(vec![7; 16]));
    assert_eq!(
        card.wire,
        vec![
            vec![0xFF, 0x82, 0x00, 0x00, 0x06, 0xFF, 0xFF, 0xFF, 0xFF, 0xFF, 0xFF],
            vec![0xFF, 0x86, 0x00, 0x00, 0x05, 0x01, 0x00, 0x04, 0x60, 0x00],
            vec![0xFF, 0xB0, 0x00, 0x04, 0x10],
        ]
    );
}

#[test]
fn read_goes_on_when_key_load_and_authentication_are_refused() {
    let mut manager = opened();
    assert!(matches!(manager.read(8), Action::Transmit(_)));
    let second = manager.advance(Event::Response(vec![0x63, 0x00]));
    assert_eq!(
        second,
        Action::Transmit(vec![0xFF, 0x86, 0x00, 0x00, 0x05, 0x01, 0x00, 0x08, 0x60, 0x00])
    );
    let third = manager.advance(Event::Response(vec![0x69, 0x82]));
    assert_eq!(third, Action::Transmit(vec![0xFF, 0xB0, 0x00, 0x08, 0x10]));
    let mut answer = vec![0x42; 16];
    answer.extend_from_slice(&[0x90, 0x00]);
    assert_eq!(
        manager.advance(Event::Response(answer)),
        Action::Finished(Outcome::Block(vec![0x42; 16]))
    );
}

#[test]
fn read_gives_sixteen_bytes_whatever_the_answer() {
    let mut manager = opened();
    manager.read(8);
    manager.advance(Event::Response(vec![0x90, 0x00]));
    manager.advance(Event::Response(vec![0x90, 0x00]));
    let mut expected = vec![0u8; 16];
    expected[0] = 0x69;
    expected[1] = 0x82;
    assert_eq!(
        manager.advance(Event::Response(vec![0x69, 0x82])),
        Action::Finished(Outcome::Block(expected))
    );
}

#[test]
fn write_to_the_reserved_sector_is_refused_without_a_frame() {
    for block in 0..4u8 {
        let mut card = BenchCard::new();
        let before = card.blocks.clone();
        let mut manager = opened();
        let first = manager.write(block, [0x55; 16]);
        assert_eq!(first, Action::Finished(Outcome::Written(WriteStatus::Refused)));
        assert!(manager.is_idle());
        let outcome = carry_out(&mut manager, first, &mut card);
        assert_eq!(outcome, Outcome::Written(WriteStatus::Refused));
        assert!(card.wire.is_empty());
        assert_eq!(card.blocks, before);
    }
}

#[test]
fn write_sends_one_frame_with_the_block_as_second_parameter() {
    for block in [4u8, 5, 63, 200, 255] {
        let mut manager = opened();
        let first = manager.write(block, [0xAB; 16]);
        let mut expected = vec![0xFF, 0xD6, 0x00, block, 0x10];
        expected.extend_from_slice(&[0xAB; 16]);
        assert_eq!(first, Action::Transmit(expected));
        assert_eq!(
            manager.advance(Event::Response(vec![0x90, 0x00])),
            Action::Finished(Outcome::Written(WriteStatus::Accepted))
        );
        assert!(manager.is_idle());
    }
}

#[test]
fn write_does_not_authenticate() {
    let mut card = BenchCard::new();
    let mut manager = opened();
    let first = manager.write(4, [1; 16]);
    assert_eq!(
        carry_out(&mut manager, first, &mut card),
        Outcome::Written(WriteStatus::Accepted)
    );
    assert_eq!(card.wire.len(), 1);
    assert_eq!(card.wire[0][1], 0xD6);
    assert_eq!(card.blocks[4], [1; 16]);
}

#[test]
fn write_reports_what_the_card_says() {
    let mut manager = opened();
    manager.write(4, [0; 16]);
    assert_eq!(
        manager.advance(Event::Response(vec![0x63, 0x00])),
        Action::Finished(Outcome::Written(WriteStatus::Rejected))
    );
    manager.write(4, [0; 16]);
    assert_eq!(
        manager.advance(Event::Response(vec![])),
        Action::Finished(Outcome::Written(WriteStatus::Rejected))
    );
}

#[test]
fn read_sector_reads_three_blocks_in_order() {
    let mut card = BenchCard::new();
    for block in 0..64usize {
        card.blocks[block] = [block as u8; 16];
    }
    let mut manager = opened();
    let first = manager.read_sector(2);
    let outcome = carry_out(&mut manager, first, &mut card);
    assert_eq!(outcome, Outcome::Sector(vec![vec![8; 16], vec![9; 16], vec![10; 16]]));
    assert_eq!(card.wire.len(), 9);
    let reads: Vec<u8> =
        card.wire.iter().filter(|frame| frame[1] == 0xB0).map(|frame| frame[3]).collect();
    assert_eq!(reads, vec![8, 9, 10]);
    let authentications: Vec<u8> =
        card.wire.iter().filter(|frame| frame[1] == 0x86).map(|frame| frame[7]).collect();
    assert_eq!(authentications, vec![8, 9, 10]);
    let kinds: Vec<u8> = card.wire.iter().map(|frame| frame[1]).collect();
    assert_eq!(kinds, vec![0x82, 0x86, 0xB0, 0x82, 0x86, 0xB0, 0x82, 0x86, 0xB0]);
}

#[test]
fn read_sector_reads_the_first_and_the_last_sector() {
    let mut card = BenchCard::new();
    let mut manager = opened();
    let first = manager.read_sector(0);
    carry_out(&mut manager, first, &mut card);
    let reads: Vec<u8> =
        card.wire.iter().filter(|frame| frame[1] == 0xB0).map(|frame| frame[3]).collect();
    assert_eq!(reads, vec![0, 1, 2]);

    let mut manager = opened();
    let mut action = manager.read_sector(63);
    let mut reads = Vec::new();
    while let Action::Transmit(frame) = action {
        if frame[1] == 0xB0 {
            reads.push(frame[3]);
        }
        action = manager.advance(Event::Response(vec![0x90, 0x00]));
    }
    assert_eq!(reads, vec![252, 253, 254]);
}

#[test]
fn write_sector_writes_as_many_blocks_as_it_is_given() {
    for count in 0..7usize {
        let mut card = BenchCard::new();
        let mut manager = opened();
        let data: Vec<[u8; 16]> = (0..count).map(|i| [0x10 + i as u8; 16]).collect();
        let first = manager.write_sector(5, data.clone());
        let outcome = carry_out(&mut manager, first, &mut card);
        assert_eq!(outcome, Outcome::SectorWritten(vec![WriteStatus::Accepted; count]));
        assert_eq!(card.wire.len(), count);
        for (i, frame) in card.wire.iter().enumerate() {
            assert_eq!(frame[1], 0xD6);
            assert_eq!(frame[3], 20 + i as u8);
            assert_eq!(&frame[5..], &data[i]);
        }
    }
}

#[test]
fn write_sector_refuses_each_block_of_the_reserved_sector() {
    let mut card = BenchCard::new();
    let before = card.blocks.clone();
    let mut manager = opened();
    let first = manager.write_sector(0, vec![[0x77; 16]; 4]);
    assert_eq!(
        first,
        Action::Finished(Outcome::SectorWritten(vec![WriteStatus::Refused; 4]))
    );
    assert!(manager.is_idle());
    assert_eq!(carry_out(&mut manager, first, &mut card), Outcome::SectorWritten(vec![
        WriteStatus::Refused;
        4
    ]));
    assert!(card.wire.is_empty());
    assert_eq!(card.blocks, before);
}

#[test]
fn write_sector_from_the_reserved_sector_on_writes_what_lies_behind_it() {
    let mut card = BenchCard::new();
    let mut manager = opened();
    let data: Vec<[u8; 16]> = (0..6u8).map(|i| [i; 16]).collect();
    let first = manager.write_sector(0, data);
    let mut action = first;
    let mut answers = vec![vec![0x90, 0x00], vec![0x63, 0x00]].into_iter();
    while let Action::Transmit(frame) = action {
        card.wire.push(frame);
        action = manager.advance(Event::Response(answers.next().unwrap()));
    }
    assert_eq!(
        action,
        Action::Finished(Outcome::SectorWritten(vec![
            WriteStatus::Refused,
            WriteStatus::Refused,
            WriteStatus::Refused,
            WriteStatus::Refused,
            WriteStatus::Accepted,
            WriteStatus::Rejected,
        ]))
    );
    assert_eq!(card.wire.len(), 2);
    assert_eq!((card.wire[0][3], card.wire[0][5]), (4, 4));
    assert_eq!((card.wire[1][3], card.wire[1][5]), (5, 5));
}

#[test]
fn write_sector_reaches_the_last_block() {
    let mut manager = opened();
    let mut action = manager.write_sector(63, vec![[9; 16]; 4]);
    let mut blocks = Vec::new();
    while let Action::Transmit(frame) = action {
        blocks.push(frame[3]);
        action = manager.advance(Event::Response(vec![0x90, 0x00]));
    }
    assert_eq!(blocks, vec![252, 253, 254, 255]);
}

#[test]
fn a_transport_failure_ends_the_operation() {
    for fail_at in 0..3usize {
        let mut card = BenchCard::new();
        card.fail_at = Some(fail_at);
        let mut manager = opened();
        let first = manager.read(4);
        let outcome = carry_out(&mut manager, first, &mut card);
        assert_eq!(outcome, Outcome::Failed(TransportError::TransmissionFailed));
        assert_eq!(card.wire.len(), fail_at + 1);
        assert!(manager.is_idle());
    }
}

#[test]
fn a_transport_failure_in_a_sector_read_stops_the_reads() {
    let mut card = BenchCard::new();
    card.fail_at = Some(4);
    let mut manager = opened();
    let first = manager.read_sector(1);
    let outcome = carry_out(&mut manager, first, &mut card);
    assert_eq!(outcome, Outcome::Failed(TransportError::TransmissionFailed));
    assert_eq!(card.wire.len(), 5);
}

#[test]
fn an_event_without_an_operation_is_dropped() {
    let mut manager = opened();
    assert_eq!(manager.advance(Event::Response(vec![0x90, 0x00])), Action::Idle);
    assert_eq!(manager.advance(Event::TransmissionFailed), Action::Idle);
    assert!(manager.is_idle());
    manager.keyload(DEFAULT_KEY);
    manager.advance(Event::Response(vec![0x90, 0x00]));
    assert_eq!(manager.advance(Event::Response(vec![0x90, 0x00])), Action::Idle);
}

#[test]
fn a_new_operation_takes_the_place_of_the_one_in_progress() {
    let mut manager = opened();
    manager.read(4);
    manager.advance(Event::Response(vec![0x90, 0x00]));
    let action = manager.auth(7);
    assert_eq!(
        action,
        Action::Transmit(vec![0xFF, 0x86, 0x00, 0x00, 0x05, 0x01, 0x00, 0x07, 0x60, 0x00])
    );
    assert_eq!(
        manager.advance(Event::Response(vec![0x90, 0x00])),
        Action::Finished(Outcome::Status(1))
    );
}

#[test]
fn the_default_key_is_all_ones() {
    assert_eq!(DEFAULT_KEY, [0xFF; 6]);
}
