//! Command frames sent to the card and the status words it answers with.
//!
//! Every frame has the fixed layout class, instruction, parameter 1,
//! parameter 2, length, data. The builders are stateless: one call gives one
//! frame, and the frame is a function of the arguments alone.

use vstd::prelude::*;

verus! {

/// Class byte shared by every command frame.
pub const CLASS: u8 = 0xFF;

/// Instruction byte: load an authentication key into the reader.
pub const INS_LOAD_KEY: u8 = 0x82;

/// Instruction byte: authenticate against the sector that holds a block.
pub const INS_AUTHENTICATE: u8 = 0x86;

/// Instruction byte: read one block.
pub const INS_READ_BINARY: u8 = 0xB0;

/// Instruction byte: write one block.
pub const INS_WRITE_BINARY: u8 = 0xD6;

/// Number of bytes in an authentication key.
pub const KEY_LEN: u8 = 0x06;

/// Number of bytes in the data field of an authenticate frame.
pub const AUTH_DATA_LEN: u8 = 0x05;

/// Number of bytes in one block.
pub const BLOCK_LEN: u8 = 0x10;

/// Version byte of the authenticate data field.
pub const AUTH_VERSION: u8 = 0x01;

/// Key type byte that selects key A.
pub const KEY_TYPE_A: u8 = 0x60;

/// First status byte of a successful answer.
pub const SW1_SUCCESS: u8 = 0x90;

/// Second status byte of a successful answer.
pub const SW2_SUCCESS: u8 = 0x00;

/// The commands this system sends to a card.
#[derive(Clone, Copy, Debug, PartialEq, Eq, Structural)]
pub enum Instruction {
    LoadKey,
    Authenticate,
    ReadBinary,
    WriteBinary,
}

/// The load-key frame: the key goes to key structure 0, slot 0.
pub open spec fn load_key_frame(key: Seq<u8>) -> Seq<u8> {
    seq![CLASS, INS_LOAD_KEY, 0x00u8, 0x00u8, KEY_LEN] + key
}

/// The authenticate frame for `block`, with key A from slot 0.
pub open spec fn authenticate_frame(block: u8) -> Seq<u8> {
    seq![
        CLASS,
        INS_AUTHENTICATE,
        0x00u8,
        0x00u8,
        AUTH_DATA_LEN,
        AUTH_VERSION,
        0x00u8,
        block,
        KEY_TYPE_A,
        0x00u8,
    ]
}

/// The read-binary frame for `block`.
pub open spec fn read_frame(block: u8) -> Seq<u8> {
    seq![CLASS, INS_READ_BINARY, 0x00u8, block, BLOCK_LEN]
}

/// The write-binary frame that stores `data` in `block`.
pub open spec fn write_frame(block: u8, data: Seq<u8>) -> Seq<u8> {
    seq![CLASS, INS_WRITE_BINARY, 0x00u8, block, BLOCK_LEN] + data
}

/// The byte at place `i` of the answer `response`. An answer is read as if
/// it had been received into a buffer of zeros: a byte that it does not
/// have reads as zero.
pub open spec fn answer_byte(response: Seq<u8>, i: int) -> u8 {
    if 0 <= i < response.len() {
        response[i]
    } else {
        0u8
    }
}

/// Whether `response` reports success for `instruction`.
///
/// A key load is accepted on the two-byte status word 0x90 0x00 at the
/// start of the answer. Every other command is accepted on a first byte of
/// 0x90 alone, whatever follows it.
pub open spec fn status_accepts(instruction: Instruction, response: Seq<u8>) -> bool {
    match instruction {
        Instruction::LoadKey => answer_byte(response, 0) == SW1_SUCCESS && answer_byte(
            response,
            1,
        ) == SW2_SUCCESS,
        _ => answer_byte(response, 0) == SW1_SUCCESS,
    }
}

/// The block carried by the answer to a read: its first 16 bytes.
pub open spec fn block_data(response: Seq<u8>) -> Seq<u8> {
    Seq::new(BLOCK_LEN as nat, |i: int| answer_byte(response, i))
}

/// Builds the frame that loads `key` into the reader.
pub fn build_load_key(key: [u8; 6]) -> (frame: Vec<u8>)
    ensures
        frame@ == load_key_frame(key@),
{
    let mut frame: Vec<u8> = Vec::new();
    frame.push(CLASS);
    frame.push(INS_LOAD_KEY);
    frame.push(0x00);
    frame.push(0x00);
    frame.push(KEY_LEN);
    let mut i: usize = 0;
    while i < 6
        invariant
            i <= 6,
            frame@ == load_key_frame(key@).take(5 + i),
        decreases 6 - i,
    {
        frame.push(key[i]);
        i += 1;
    }
    frame
}

/// Builds the frame that authenticates against the sector of `block`.
pub fn build_authenticate(block: u8) -> (frame: Vec<u8>)
    ensures
        frame@ == authenticate_frame(block),
{
    let mut frame: Vec<u8> = Vec::new();
    frame.push(CLASS);
    frame.push(INS_AUTHENTICATE);
    frame.push(0x00);
    frame.push(0x00);
    frame.push(AUTH_DATA_LEN);
    frame.push(AUTH_VERSION);
    frame.push(0x00);
    frame.push(block);
    frame.push(KEY_TYPE_A);
    frame.push(0x00);
    frame
}

/// Builds the frame that asks the card for the 16 bytes of `block`.
pub fn build_read(block: u8) -> (frame: Vec<u8>)
    ensures
        frame@ == read_frame(block),
{
    let mut frame: Vec<u8> = Vec::new();
    frame.push(CLASS);
    frame.push(INS_READ_BINARY);
    frame.push(0x00);
    frame.push(block);
    frame.push(BLOCK_LEN);
    frame
}

/// Builds the frame that stores `data` in `block`.
///
/// The builder frames any block number; which blocks may be written is
/// decided by the caller.
pub fn build_write(block: u8, data: [u8; 16]) -> (frame: Vec<u8>)
    ensures
        frame@ == write_frame(block, data@),
{
    let mut frame: Vec<u8> = Vec::new();
    frame.push(CLASS);
    frame.push(INS_WRITE_BINARY);
    frame.push(0x00);
    frame.push(block);
    frame.push(BLOCK_LEN);
    let mut i: usize = 0;
    while i < 16
        invariant
            i <= 16,
            frame@ == write_frame(block, data@).take(5 + i),
        decreases 16 - i,
    {
        frame.push(data[i]);
        i += 1;
    }
    frame
}

/// Reads the byte at place `i` of an answer.
fn byte_at(response: &Vec<u8>, i: usize) -> (byte: u8)
    ensures
        byte == answer_byte(response@, i as int),
{
    if i < response.len() {
        response[i]
    } else {
        0
    }
}

/// Tells whether the card accepted `instruction`, going by `response`.
pub fn status_ok(instruction: Instruction, response: &Vec<u8>) -> (ok: bool)
    ensures
        ok == status_accepts(instruction, response@),
{
    match instruction {
        Instruction::LoadKey => byte_at(response, 0) == SW1_SUCCESS && byte_at(response, 1)
            == SW2_SUCCESS,
        _ => byte_at(response, 0) == SW1_SUCCESS,
    }
}

/// Takes the block out of the answer to a read.
pub fn read_data(response: &Vec<u8>) -> (data: Vec<u8>)
    ensures
        data@ == block_data(response@),
{
    let mut data: Vec<u8> = Vec::new();
    let mut i: usize = 0;
    while i < 16
        invariant
            i <= 16,
            data@ == block_data(response@).take(i as int),
        decreases 16 - i,
    {
        data.push(byte_at(response, i));
        i += 1;
    }
    data
}

} // verus!
