//! The balance codec: a balance is kept on the card as one block of 16
//! bytes, which is the balance as a big-endian number. On its way to the
//! card it is written as 32 uppercase hexadecimal digits, left-padded with
//! zeros, and each pair of digits is packed into one byte.
//!
//! A balance is a `u128`: every one has exactly 32 digits, so none is ever
//! truncated, and a block never reads as a negative balance.

use vstd::prelude::*;
use vstd::arithmetic::div_mod::{
    lemma_add_mod_noop, lemma_div_denominator, lemma_mod_breakdown, lemma_mul_mod_noop_general,
    lemma_small_mod,
};
use vstd::string::{StrSliceExecFns, StringExecFns, StringExecFnsIsAscii};
use vstd::utf8::is_ascii_chars;

verus! {

/// Number of bytes in the block that holds a balance.
pub const BLOCK_BYTES: usize = 16;

/// Number of hexadecimal digits in the text of a balance.
pub const BLOCK_DIGITS: usize = 32;

/// The plus sign, as a byte of text.
const PLUS: u8 = 0x2B;

/// One more than the greatest balance: 2 to the power 128.
pub open spec fn balance_limit() -> nat {
    0x1_0000_0000_0000_0000_0000_0000_0000_0000nat
}

/// The number that `bytes` is in base 256, most significant byte first.
pub open spec fn be_value(bytes: Seq<u8>) -> nat
    decreases bytes.len(),
{
    if bytes.len() == 0 {
        0
    } else {
        be_value(bytes.drop_last()) * 256 + bytes.last() as nat
    }
}

/// The last `len` bytes of `value` in base 256, most significant first.
pub open spec fn be_bytes(value: nat, len: nat) -> Seq<u8>
    decreases len,
{
    if len == 0 {
        Seq::empty()
    } else {
        be_bytes(value / 256, (len - 1) as nat).push((value % 256) as u8)
    }
}

/// 256 to the power `len`.
pub open spec fn radix_power(len: nat) -> nat
    decreases len,
{
    if len == 0 {
        1
    } else {
        256 * radix_power((len - 1) as nat)
    }
}

/// Whether `c` is a hexadecimal digit, in either case.
pub open spec fn is_hex_digit(c: char) -> bool {
    ('0' <= c <= '9') || ('a' <= c <= 'f') || ('A' <= c <= 'F')
}

/// The value of the hexadecimal digit `c`.
pub open spec fn hex_value(c: char) -> nat {
    if '0' <= c <= '9' {
        (c as nat - '0' as nat) as nat
    } else if 'a' <= c <= 'f' {
        (c as nat - 'a' as nat + 10) as nat
    } else {
        (c as nat - 'A' as nat + 10) as nat
    }
}

/// The uppercase hexadecimal digit of `value`, which is below 16.
pub open spec fn hex_char(value: nat) -> char {
    if value < 10 {
        ('0' as u8 + value) as char
    } else {
        ('A' as u8 + value - 10) as char
    }
}

/// The last `width` digits of `value` in uppercase hexadecimal, with
/// zeros in front where `value` has fewer.
pub open spec fn hex_text(value: nat, width: nat) -> Seq<char>
    decreases width,
{
    if width == 0 {
        Seq::empty()
    } else {
        hex_text(value / 16, (width - 1) as nat).push(hex_char(value % 16))
    }
}

/// Whether the characters at `2 * i` and `2 * i + 1` of `text` write a
/// byte: they are two hexadecimal digits, or a plus sign and one digit.
pub open spec fn is_pair(text: Seq<char>, i: int) -> bool {
    (is_hex_digit(text[2 * i]) || text[2 * i] == '+') && is_hex_digit(text[2 * i + 1])
}

/// The byte that the pair at `2 * i` and `2 * i + 1` of `text` writes. A
/// plus sign counts as a sign, as it does wherever the standard library
/// reads a number, and leaves the byte of the one digit behind it.
pub open spec fn pair_value(text: Seq<char>, i: int) -> u8 {
    if text[2 * i] == '+' {
        hex_value(text[2 * i + 1]) as u8
    } else {
        (16 * hex_value(text[2 * i]) + hex_value(text[2 * i + 1])) as u8
    }
}

/// The bytes that the pairs of digits of `text` make, in the order of the
/// text. A last digit without a partner is left out.
pub open spec fn pairs(text: Seq<char>) -> Seq<u8> {
    Seq::new((text.len() / 2) as nat, |i: int| pair_value(text, i))
}

/// The block that `text` packs into: the bytes of its pairs of digits from
/// the first byte on, and zero in the bytes that are left.
pub open spec fn packed(text: Seq<char>) -> Seq<u8> {
    Seq::new(
        BLOCK_BYTES as nat,
        |i: int|
            if i < text.len() / 2 {
                pair_value(text, i)
            } else {
                0u8
            },
    )
}

/// Whether `text` can be packed into a block: it has no more pairs than a
/// block has bytes, each pair writes a byte, and a last character without
/// a partner, which is left out, is at least one of a single byte.
pub open spec fn packable(text: Seq<char>) -> bool {
    &&& text.len() / 2 <= BLOCK_BYTES
    &&& is_ascii_chars(text)
    &&& forall|i: int| 0 <= i < text.len() / 2 ==> #[trigger] is_pair(text, i)
}

/// The text of one byte of an identifier: its one or two uppercase
/// hexadecimal digits, without a zero in front.
pub open spec fn byte_text(byte: u8) -> Seq<char> {
    if byte < 16 {
        seq![hex_char(byte as nat)]
    } else {
        seq![hex_char(byte as nat / 16), hex_char(byte as nat % 16)]
    }
}

/// The text of an identifier: the text of each of its bytes, in order.
pub open spec fn identifier_text(bytes: Seq<u8>) -> Seq<char>
    decreases bytes.len(),
{
    if bytes.len() == 0 {
        Seq::empty()
    } else {
        identifier_text(bytes.drop_last()) + byte_text(bytes.last())
    }
}

/// Converts the bytes of a block into the number they are in base 256,
/// most significant byte first. No sign is read from them.
///
/// Of more than 16 bytes the last 16 count: the number is taken modulo
/// 2 to the power 128.
pub fn hexa_to_decimal(tableau: Vec<u8>) -> (resultat: u128)
    ensures
        resultat == be_value(tableau@) % balance_limit(),
        tableau@.len() <= BLOCK_BYTES ==> resultat == be_value(tableau@),
{
    let mut resultat: u128 = 0;
    let mut i: usize = 0;
    while i < tableau.len()
        invariant
            i <= tableau.len(),
            resultat == be_value(tableau@.take(i as int)) % balance_limit(),
        decreases tableau.len() - i,
    {
        let hex: u8 = tableau[i];
        let suivant: u128 = (resultat << 8) | (hex as u128);
        proof {
            let before = be_value(tableau@.take(i as int));
            assert(tableau@.take(i + 1).drop_last() == tableau@.take(i as int));
            assert(suivant == (resultat * 256 + hex) % 0x1_0000_0000_0000_0000_0000_0000_0000_0000int)
                by (bit_vector)
                requires
                    suivant == (resultat << 8) | (hex as u128),
            ;
            lemma_mul_mod_noop_general(before as int, 256, balance_limit() as int);
            lemma_add_mod_noop((before * 256) as int, hex as int, balance_limit() as int);
            lemma_add_mod_noop((resultat * 256) as int, hex as int, balance_limit() as int);
        }
        resultat = suivant;
        i += 1;
    }
    proof {
        assert(tableau@.take(tableau.len() as int) == tableau@);
        if tableau@.len() <= BLOCK_BYTES {
            lemma_be_value_bound(tableau@);
            lemma_radix_power_monotonic(tableau@.len(), 16);
            lemma_radix_power_of_block();
            lemma_small_mod(be_value(tableau@), balance_limit());
        }
    }
    resultat
}

/// Tells whether `hexa` can be packed into a block by `hexa_to_tableau`.
pub fn hexa_valide(hexa: &String) -> (ok: bool)
    ensures
        ok == packable(hexa@),
{
    if !hexa.is_ascii() {
        return false;
    }
    let text = hexa.as_str();
    let len = text.unicode_len();
    if len / 2 > BLOCK_BYTES {
        return false;
    }
    let mut index: usize = 0;
    while index < len / 2
        invariant
            index <= len / 2,
            len == text@.len(),
            text@ == hexa@,
            text.is_ascii(),
            forall|j: int| 0 <= j < index ==> #[trigger] is_pair(text@, j),
        decreases len / 2 - index,
    {
        let high = text.get_ascii(2 * index);
        let low = text.get_ascii(2 * index + 1);
        if !((is_hex_byte(high) || high == PLUS) && is_hex_byte(low)) {
            assert(!is_pair(text@, index as int));
            return false;
        }
        index += 1;
    }
    true
}

/// Packs the text of a balance into its block: each pair of hexadecimal
/// digits makes one byte, in the order of the text.
///
/// The text of a balance has 32 digits and fills the block. Of a shorter
/// text the pairs fill the first bytes and the others are zero; a last
/// character without a partner is left out. Digits may be in either case,
/// and the first of a pair may be a plus sign.
pub fn hexa_to_tableau(hexa: String) -> (tableau: [u8; 16])
    requires
        packable(hexa@),
    ensures
        tableau@ == packed(hexa@),
{
    let text = hexa.as_str();
    let len = text.unicode_len();
    let mut tableau = [0u8; 16];
    let mut index: usize = 0;
    while index < len / 2
        invariant
            index <= len / 2,
            len == text@.len(),
            packable(text@),
            text.is_ascii(),
            forall|j: int| 0 <= j < index ==> tableau@[j] == pair_value(text@, j),
            forall|j: int| index <= j < 16 ==> tableau@[j] == 0,
        decreases len / 2 - index,
    {
        let high = text.get_ascii(2 * index);
        let low = text.get_ascii(2 * index + 1);
        assert(is_pair(text@, index as int));
        let byte: u8 = if high == PLUS {
            hex_byte_value(low)
        } else {
            16 * hex_byte_value(high) + hex_byte_value(low)
        };
        tableau[index] = byte;
        index += 1;
    }
    tableau
}

/// Writes a balance as text: 32 uppercase hexadecimal digits, with zeros
/// in front of the digits of a small balance.
pub fn decimal_to_hexa(valeur: u128) -> (hexa: String)
    ensures
        hexa@ == hex_text(valeur as nat, BLOCK_DIGITS as nat),
{
    let mut hexa = String::new();
    let mut written: u128 = 0;
    let mut i: u32 = 0;
    while i < 32
        invariant
            i <= 32,
            i == 0 ==> written == 0,
            i > 0 ==> written == valeur >> ((128 - 4 * i) as u32),
            hexa@ == hex_text(written as nat, i as nat),
        decreases 32 - i,
    {
        let shift: u32 = 124 - 4 * i;
        let next: u128 = valeur >> shift;
        let digit: u8 = (next & 0xF) as u8;
        proof {
            assert(next / 16 == written && next % 16 == digit && digit < 16) by (bit_vector)
                requires
                    shift <= 124,
                    next == valeur >> shift,
                    digit == (next & 0xF) as u8,
                    shift == 124 ==> written == 0,
                    shift < 124 ==> written == valeur >> ((shift + 4) as u32),
            ;
        }
        hexa.append(hex_digit(digit));
        written = next;
        i += 1;
    }
    assert(valeur >> 0u32 == valeur) by (bit_vector);
    hexa
}

/// Writes the bytes of an identifier as text: each byte in uppercase
/// hexadecimal without a zero in front, one byte after the other.
pub fn decimals_to_hex(tableau: Vec<u8>) -> (hexa: String)
    ensures
        hexa@ == identifier_text(tableau@),
{
    let mut hexa = String::new();
    let mut i: usize = 0;
    while i < tableau.len()
        invariant
            i <= tableau.len(),
            hexa@ == identifier_text(tableau@.take(i as int)),
        decreases tableau.len() - i,
    {
        let byte: u8 = tableau[i];
        assert(tableau@.take(i + 1).drop_last() == tableau@.take(i as int));
        if byte >= 16 {
            hexa.append(hex_digit(byte / 16));
        }
        hexa.append(hex_digit(byte % 16));
        i += 1;
    }
    assert(tableau@.take(tableau.len() as int) == tableau@);
    hexa
}

/// Encodes a balance as the block that holds it on the card: the balance
/// as a big-endian number of 16 bytes.
pub fn encode(valeur: u128) -> (tableau: [u8; 16])
    ensures
        tableau@ == be_bytes(valeur as nat, BLOCK_BYTES as nat),
        be_value(tableau@) == valeur,
{
    proof {
        lemma_encode_width(valeur as nat);
        lemma_decode_encode(valeur);
    }
    hexa_to_tableau(decimal_to_hexa(valeur))
}

/// Tells whether `byte` is a hexadecimal digit, in either case.
fn is_hex_byte(byte: u8) -> (yes: bool)
    ensures
        yes == is_hex_digit(byte as char),
{
    (0x30 <= byte && byte <= 0x39) || (0x61 <= byte && byte <= 0x66) || (0x41 <= byte && byte
        <= 0x46)
}

/// The value of the hexadecimal digit `byte`.
fn hex_byte_value(byte: u8) -> (value: u8)
    requires
        is_hex_digit(byte as char),
    ensures
        value == hex_value(byte as char),
        value < 16,
{
    if byte <= 0x39 {
        byte - 0x30
    } else if byte >= 0x61 {
        byte - 0x61 + 10
    } else {
        byte - 0x41 + 10
    }
}

/// The uppercase hexadecimal digit of `value`, as a text of one digit.
fn hex_digit(value: u8) -> (digit: &'static str)
    requires
        value < 16,
    ensures
        digit@ == seq![hex_char(value as nat)],
{
    proof {
        reveal_strlit("0");
        reveal_strlit("1");
        reveal_strlit("2");
        reveal_strlit("3");
        reveal_strlit("4");
        reveal_strlit("5");
        reveal_strlit("6");
        reveal_strlit("7");
        reveal_strlit("8");
        reveal_strlit("9");
        reveal_strlit("A");
        reveal_strlit("B");
        reveal_strlit("C");
        reveal_strlit("D");
        reveal_strlit("E");
        reveal_strlit("F");
    }
    let digit = match value {
        0 => "0",
        1 => "1",
        2 => "2",
        3 => "3",
        4 => "4",
        5 => "5",
        6 => "6",
        7 => "7",
        8 => "8",
        9 => "9",
        10 => "A",
        11 => "B",
        12 => "C",
        13 => "D",
        14 => "E",
        _ => "F",
    };
    digit
}

/// Round trip: the block of a balance reads back as that balance. The
/// block is the one that `encode` gives, which is also what the text of
/// the balance packs into, and the number read back is the one that
/// `hexa_to_decimal` gives for it.
pub proof fn lemma_decode_encode(value: u128)
    ensures
        be_value(be_bytes(value as nat, 16)) % balance_limit() == value,
        be_value(be_bytes(value as nat, 16)) == value,
        be_value(packed(hex_text(value as nat, 32))) == value,
{
    lemma_encode_width(value as nat);
    lemma_be_value_of_be_bytes(value as nat, 16);
    lemma_radix_power_of_block();
    lemma_small_mod(value as nat, balance_limit());
}

/// Padding: whatever the balance, its text has exactly 32 digits, its
/// block exactly 16 bytes, and the text packs into the block.
pub proof fn lemma_encode_width(value: nat)
    ensures
        hex_text(value, 32).len() == 32,
        be_bytes(value, 16).len() == 16,
        packable(hex_text(value, 32)),
        packed(hex_text(value, 32)) == be_bytes(value, 16),
{
    lemma_hex_text(value, 32);
    lemma_be_value_of_be_bytes(value, 16);
    lemma_pairs_of_hex_text(value, 16);
}

/// Reading back the bytes of a value gives the value, as far as the bytes
/// hold it.
pub proof fn lemma_be_value_of_be_bytes(value: nat, len: nat)
    ensures
        be_bytes(value, len).len() == len,
        be_value(be_bytes(value, len)) == value % radix_power(len),
    decreases len,
{
    if len > 0 {
        let rest = (len - 1) as nat;
        lemma_be_value_of_be_bytes(value / 256, rest);
        lemma_radix_power_positive(rest);
        assert(be_bytes(value, len).drop_last() == be_bytes(value / 256, rest));
        lemma_mod_breakdown(value as int, 256, radix_power(rest) as int);
    }
}

/// The pairs of digits of the text of a value are the bytes of the value.
pub proof fn lemma_pairs_of_hex_text(value: nat, len: nat)
    ensures
        pairs(hex_text(value, 2 * len)) == be_bytes(value, len),
    decreases len,
{
    lemma_hex_text(value, 2 * len);
    if len > 0 {
        let rest = (len - 1) as nat;
        let text = hex_text(value, 2 * len);
        let head = hex_text(value / 256, 2 * rest);
        lemma_pairs_of_hex_text(value / 256, rest);
        lemma_hex_text(value / 256, 2 * rest);
        let middle = hex_text(value / 16, (2 * len - 1) as nat);
        lemma_div_denominator(value as int, 16, 16);
        assert(middle == head.push(hex_char((value / 16) % 16)));
        assert(text == middle.push(hex_char(value % 16)));
        lemma_hex_char((value / 16) % 16);
        lemma_hex_char(value % 16);
        lemma_mod_breakdown(value as int, 16, 16);
        assert(pair_value(text, len - 1) == (value % 256) as u8);
        assert(pairs(text) =~= pairs(head).push((value % 256) as u8));
    }
}

/// The text of a value has as many digits as were asked for, and each is
/// an uppercase hexadecimal digit.
pub proof fn lemma_hex_text(value: nat, width: nat)
    ensures
        hex_text(value, width).len() == width,
        is_ascii_chars(hex_text(value, width)),
        forall|i: int|
            0 <= i < width ==> is_hex_digit(#[trigger] hex_text(value, width)[i]) && !('a'
                <= hex_text(value, width)[i] <= 'f'),
    decreases width,
{
    if width > 0 {
        lemma_hex_text(value / 16, (width - 1) as nat);
        lemma_hex_char(value % 16);
    }
}

/// The digit of a value below 16 is an uppercase hexadecimal digit and
/// has that value.
pub proof fn lemma_hex_char(value: nat)
    requires
        value < 16,
    ensures
        is_hex_digit(hex_char(value)),
        !('a' <= hex_char(value) <= 'f'),
        hex_char(value) <= '\u{7f}',
        hex_value(hex_char(value)) == value,
{
}

/// The number that some bytes are is below 256 to the power of their count.
pub proof fn lemma_be_value_bound(bytes: Seq<u8>)
    ensures
        be_value(bytes) < radix_power(bytes.len()),
    decreases bytes.len(),
{
    if bytes.len() > 0 {
        lemma_be_value_bound(bytes.drop_last());
    }
}

/// The powers of 256 grow with the exponent.
pub proof fn lemma_radix_power_monotonic(low: nat, high: nat)
    requires
        low <= high,
    ensures
        radix_power(low) <= radix_power(high),
    decreases high,
{
    if low < high {
        lemma_radix_power_monotonic(low, (high - 1) as nat);
        lemma_radix_power_positive((high - 1) as nat);
    }
}

/// A power of 256 is positive.
pub proof fn lemma_radix_power_positive(len: nat)
    ensures
        radix_power(len) > 0,
    decreases len,
{
    if len > 0 {
        lemma_radix_power_positive((len - 1) as nat);
    }
}

/// Sixteen bytes hold every number below 2 to the power 128.
pub proof fn lemma_radix_power_of_block()
    ensures
        radix_power(16) == balance_limit(),
{
    reveal_with_fuel(radix_power, 17);
}

} // verus!
