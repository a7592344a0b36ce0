use card_ledger::frame::{
    build_authenticate, build_load_key, build_read, build_write, read_data, status_ok,
    Instruction,
};

#[test]
fn load_key_frame_is_bit_exact() {
    let frame = build_load_key([0xFF, 0xFF, 0xFF, 0xFF, 0xFF, 0xFF]);
    assert_eq!(
        frame,
        vec![0xFF, 0x82, 0x00, 0x00, 0x06, 0xFF, 0xFF, 0xFF, 0xFF, 0xFF, 0xFF]
    );
    let frame = build_load_key([0x01, 0x02, 0x03, 0x04, 0x05, 0x06]);
    assert_eq!(
        frame,
        vec![0xFF, 0x82, 0x00, 0x00, 0x06, 0x01, 0x02, 0x03, 0x04, 0x05, 0x06]
    );
}

#[test]
fn authenticate_frame_is_bit_exact() {
    assert_eq!(
        build_authenticate(4),
        vec![0xFF, 0x86, 0x00, 0x00, 0x05, 0x01, 0x00, 0x04, 0x60, 0x00]
    );
    assert_eq!(
        build_authenticate(0),
        vec![0xFF, 0x86, 0x00, 0x00, 0x05, 0x01, 0x00, 0x00, 0x60, 0x00]
    );
    assert_eq!(build_authenticate(255)[7], 255);
}

#[test]
fn read_frame_is_bit_exact() {
    assert_eq!(build_read(4), vec![0xFF, 0xB0, 0x00, 0x04, 0x10]);
    assert_eq!(build_read(0), vec![0xFF, 0xB0, 0x00, 0x00, 0x10]);
    assert_eq!(build_read(0x3F), vec![0xFF, 0xB0, 0x00, 0x3F, 0x10]);
}

#[test]
fn write_frame_is_bit_exact() {
    let data: [u8; 16] = [
        0x10, 0x11, 0x12, 0x13, 0x14, 0x15, 0x16, 0x17, 0x18, 0x19, 0x1A, 0x1B, 0x1C, 0x1D, 0x1E,
        0x1F,
    ];
    let frame = build_write(4, data);
    assert_eq!(frame.len(), 21);
    assert_eq!(&frame[..5], &[0xFF, 0xD6, 0x00, 0x04, 0x10]);
    assert_eq!(&frame[5..], &data);
}

#[test]
fn builders_give_a_fresh_frame_each_time() {
    let mut first = build_read(7);
    let second = build_read(7);
    first[3] = 9;
    assert_eq!(second, vec![0xFF, 0xB0, 0x00, 0x07, 0x10]);
}

#[test]
fn key_load_status_takes_both_bytes() {
    assert!(status_ok(Instruction::LoadKey, &vec![0x90, 0x00]));
    assert!(status_ok(Instruction::LoadKey, &vec![0x90, 0x00, 0x55]));
    assert!(!status_ok(Instruction::LoadKey, &vec![0x90, 0x01]));
    assert!(!status_ok(Instruction::LoadKey, &vec![0x63, 0x00]));
    assert!(!status_ok(Instruction::LoadKey, &vec![0x00, 0x90]));
    assert!(!status_ok(Instruction::LoadKey, &vec![]));
}

#[test]
fn a_short_answer_reads_as_if_zeros_followed() {
    assert!(status_ok(Instruction::LoadKey, &vec![0x90]));
    assert!(!status_ok(Instruction::LoadKey, &vec![0x63]));
    assert!(!status_ok(Instruction::Authenticate, &vec![]));
}

#[test]
fn other_statuses_take_the_first_byte() {
    for instruction in [
        Instruction::Authenticate,
        Instruction::ReadBinary,
        Instruction::WriteBinary,
    ] {
        assert!(status_ok(instruction, &vec![0x90, 0x00]));
        assert!(status_ok(instruction, &vec![0x90, 0x01]));
        assert!(status_ok(instruction, &vec![0x90]));
        assert!(!status_ok(instruction, &vec![0x63, 0x00]));
        assert!(!status_ok(instruction, &vec![0x00, 0x90]));
        assert!(!status_ok(instruction, &vec![]));
    }
}

#[test]
fn read_data_takes_the_first_sixteen_bytes() {
    let mut response: Vec<u8> = (1..=16).collect();
    response.push(0x90);
    response.push(0x00);
    assert_eq!(read_data(&response), (1..=16).collect::<Vec<u8>>());
}

#[test]
fn read_data_fills_a_short_answer_with_zeros() {
    assert_eq!(read_data(&vec![]), vec![0u8; 16]);
    let mut expected = vec![0u8; 16];
    expected[0] = 0x63;
    assert_eq!(read_data(&vec![0x63, 0x00]), expected);
}
