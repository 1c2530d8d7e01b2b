//! Hexadecimal text for binary values.
//!
//! Every byte becomes two digits, the high half first. Encoding writes its
//! letters in one case, chosen by the caller; decoding reads both.

use vstd::prelude::*;

verus! {

/// Returned when a text is not an even number of hexadecimal digits.
#[derive(Debug, Clone, Copy, PartialEq, Eq, Structural)]
pub struct EncodingError;

/// The digit that stands for the half byte `v`, with letters in the case
/// asked for.
pub open spec fn hex_digit(v: int, upper: bool) -> char
    recommends
        0 <= v < 16,
{
    if upper {
        seq!['0', '1', '2', '3', '4', '5', '6', '7', '8', '9', 'A', 'B', 'C', 'D', 'E', 'F'][v]
    } else {
        seq!['0', '1', '2', '3', '4', '5', '6', '7', '8', '9', 'a', 'b', 'c', 'd', 'e', 'f'][v]
    }
}

/// Whether `c` is one of `0`-`9`, `a`-`f`, `A`-`F`.
pub open spec fn is_hex_digit(c: char) -> bool {
    ('0' <= c <= '9') || ('a' <= c <= 'f') || ('A' <= c <= 'F')
}

/// The number that the hexadecimal digit `c` stands for.
pub open spec fn hex_digit_value(c: char) -> int
    recommends
        is_hex_digit(c),
{
    if '0' <= c <= '9' {
        c as int - '0' as int
    } else if 'a' <= c <= 'f' {
        c as int - 'a' as int + 10
    } else {
        c as int - 'A' as int + 10
    }
}

/// The hexadecimal text of `bytes`: digits `2 * i` and `2 * i + 1` are the
/// high and the low half of byte `i`.
pub open spec fn hex_encode(bytes: Seq<u8>, upper: bool) -> Seq<char> {
    Seq::new(
        2 * bytes.len(),
        |k: int| hex_digit(if k % 2 == 0 { bytes[k / 2] as int / 16 } else { bytes[k / 2] as int % 16 }, upper),
    )
}

/// Whether `text` can be decoded: an even number of characters, all of them
/// hexadecimal digits.
pub open spec fn is_hex_text(text: Seq<char>) -> bool {
    &&& text.len() % 2 == 0
    &&& forall|k: int| 0 <= k < text.len() ==> is_hex_digit(#[trigger] text[k])
}

/// The bytes that a decodable `text` stands for.
pub open spec fn hex_decode(text: Seq<char>) -> Seq<u8>
    recommends
        is_hex_text(text),
{
    Seq::new(
        text.len() / 2,
        |i: int| (hex_digit_value(text[2 * i]) * 16 + hex_digit_value(text[2 * i + 1])) as u8,
    )
}

/// Decoding undoes encoding, in either case: the encoded text is decodable and
/// stands for the bytes it was made from.
pub proof fn lemma_hex_round_trip(bytes: Seq<u8>, upper: bool)
    ensures
        is_hex_text(hex_encode(bytes, upper)),
        hex_decode(hex_encode(bytes, upper)) == bytes,
{
}

/// Appends one character to `text`, by `String::push`, which never changes the
/// characters already there.
#[verifier::external_body]
fn push_char(text: &mut String, c: char)
    ensures
        final(text)@ == old(text)@.push(c),
{
    text.push(c)
}

/// The digit for the half byte `v`.
fn digit_for(v: u8, upper: bool) -> (c: char)
    requires
        v < 16,
    ensures
        c == hex_digit(v as int, upper),
{
    if upper {
        match v {
            0 => '0',
            1 => '1',
            2 => '2',
            3 => '3',
            4 => '4',
            5 => '5',
            6 => '6',
            7 => '7',
            8 => '8',
            9 => '9',
            10 => 'A',
            11 => 'B',
            12 => 'C',
            13 => 'D',
            14 => 'E',
            _ => 'F',
        }
    } else {
        match v {
            0 => '0',
            1 => '1',
            2 => '2',
            3 => '3',
            4 => '4',
            5 => '5',
            6 => '6',
            7 => '7',
            8 => '8',
            9 => '9',
            10 => 'a',
            11 => 'b',
            12 => 'c',
            13 => 'd',
            14 => 'e',
            _ => 'f',
        }
    }
}

/// Encodes `bytes` as hexadecimal text with letters in the case asked for:
/// uppercase where `upper` holds, lowercase where it does not.
pub fn to_hex_cased(bytes: &[u8], upper: bool) -> (text: String)
    ensures
        text@ == hex_encode(bytes@, upper),
{
    let mut text = String::new();
    let mut i: usize = 0;
    while i < bytes.len()
        invariant
            i <= bytes.len(),
            text@ == hex_encode(bytes@.take(i as int), upper),
        decreases bytes.len() - i,
    {
        let byte = bytes[i];
        push_char(&mut text, digit_for(byte / 16, upper));
        push_char(&mut text, digit_for(byte % 16, upper));
        i += 1;
    }
    text
}

/// Encodes `bytes` as lowercase hexadecimal text.
pub fn to_hex(bytes: &[u8]) -> (text: String)
    ensures
        text@ == hex_encode(bytes@, false),
{
    to_hex_cased(bytes, false)
}

/// Encodes `bytes` as uppercase hexadecimal text.
pub fn to_hex_upper(bytes: &[u8]) -> (text: String)
    ensures
        text@ == hex_encode(bytes@, true),
{
    to_hex_cased(bytes, true)
}

/// The value of the digit whose ASCII code is `b`, or `None` where `b` is the
/// code of no hexadecimal digit.
fn digit_value_of(b: u8) -> (v: Option<u8>)
    ensures
        match v {
            Some(d) => is_hex_digit(b as char) && d as int == hex_digit_value(b as char),
            None => !is_hex_digit(b as char),
        },
{
    if 0x30 <= b && b <= 0x39 {
        Some(b - 0x30)
    } else if 0x61 <= b && b <= 0x66 {
        Some(b - 0x61 + 10)
    } else if 0x41 <= b && b <= 0x46 {
        Some(b - 0x41 + 10)
    } else {
        None
    }
}

/// Decodes hexadecimal text, in either case or mixed, into the bytes it stands
/// for; any other text is refused.
pub fn from_hex(text: &str) -> (r: Result<Vec<u8>, EncodingError>)
    ensures
        match r {
            Ok(bytes) => is_hex_text(text@) && bytes@ == hex_decode(text@),
            Err(_) => !is_hex_text(text@),
        },
{
    if !text.is_ascii() {
        return Err(EncodingError);
    }
    let codes = text.as_bytes();
    let n = codes.len();
    if n % 2 != 0 {
        return Err(EncodingError);
    }
    let mut bytes: Vec<u8> = Vec::new();
    let mut i: usize = 0;
    while i < n / 2
        invariant
            n == text@.len(),
            n % 2 == 0,
            i <= n / 2,
            codes@.len() == n,
            forall|k: int| 0 <= k < n ==> codes@[k] == text@[k] as u8,
            forall|k: int| 0 <= k < n ==> '\0' <= #[trigger] text@[k] <= '\u{7f}',
            forall|k: int| 0 <= k < 2 * i ==> is_hex_digit(#[trigger] text@[k]),
            bytes@ == hex_decode(text@.take(2 * i as int)),
        decreases n / 2 - i,
    {
        let high = digit_value_of(codes[2 * i]);
        let low = digit_value_of(codes[2 * i + 1]);
        match (high, low) {
            (Some(h), Some(l)) => {
                bytes.push(h * 16 + l);
            },
            _ => {
                return Err(EncodingError);
            },
        }
        i += 1;
    }
    Ok(bytes)
}

} // verus!
