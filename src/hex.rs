//! Text forms of bytes: hexadecimal digit characters.
use vstd::prelude::*;

verus! {

/// The value of a hexadecimal digit character, either case.
pub open spec fn hex_value(b: u8) -> Option<u8> {
    if 48 <= b <= 57 {
        Some((b - 48) as u8)
    } else if 97 <= b <= 102 {
        Some((b - 87) as u8)
    } else if 65 <= b <= 70 {
        Some((b - 55) as u8)
    } else {
        None
    }
}

/// The lower-case hexadecimal digit character of the low four bits of `c`.
pub open spec fn hex_digit(c: u8) -> u8 {
    let v = c % 16;
    if v < 10 {
        (48 + v) as u8
    } else {
        (87 + v) as u8
    }
}

/// The characters `0`, `9`, `a`, `f`, `A` and `F`.
const CHAR_0: u8 = 48;
const CHAR_9: u8 = 57;
const CHAR_LOWER_A: u8 = 97;
const CHAR_LOWER_F: u8 = 102;
const CHAR_UPPER_A: u8 = 65;
const CHAR_UPPER_F: u8 = 70;

pub fn decode_hex(b: u8) -> (r: Option<u8>)
    ensures
        r == hex_value(b),
{
    if CHAR_0 <= b && b <= CHAR_9 {
        Some(b - CHAR_0)
    } else if CHAR_LOWER_A <= b && b <= CHAR_LOWER_F {
        Some(b - CHAR_LOWER_A + 10)
    } else if CHAR_UPPER_A <= b && b <= CHAR_UPPER_F {
        Some(b - CHAR_UPPER_A + 10)
    } else {
        None
    }
}

pub fn encode_hex(c: u8) -> (r: u8)
    ensures
        r == hex_digit(c),
{
    let v = c % 16;
    if v < 10 {
        CHAR_0 + v
    } else {
        CHAR_LOWER_A + v - 10
    }
}

/// The byte written by the digit pair `hi`, `lo`.
pub open spec fn pair_value(hi: u8, lo: u8) -> Option<u8> {
    match (hex_value(hi), hex_value(lo)) {
        (Some(h), Some(l)) => Some((h * 16 + l) as u8),
        _ => None,
    }
}

/// Bytes read from text of two hexadecimal digits each, high digit first. `None` when
/// the length is odd or a character is not a digit.
pub fn bytes_from_hex(text: &[u8]) -> (r: Option<Vec<u8>>)
    ensures
        r is Some <==> (text@.len() % 2 == 0 && forall|i: int|
            0 <= i < text@.len() / 2 ==> (#[trigger] pair_value(text@[2 * i], text@[2 * i + 1])) is Some),
        r matches Some(bytes) ==> bytes@.len() == text@.len() / 2 && forall|i: int|
            0 <= i < bytes@.len() ==> #[trigger] pair_value(text@[2 * i], text@[2 * i + 1]) == Some(bytes@[i]),
{
    if text.len() % 2 != 0 {
        return None;
    }
    let len = text.len();
    let n = len / 2;
    let mut bytes: Vec<u8> = Vec::new();
    let mut i: usize = 0;
    while i < n
        invariant
            n == text@.len() / 2,
            text@.len() % 2 == 0,
            text@.len() <= usize::MAX,
            i <= n,
            bytes@.len() == i,
            forall|j: int| 0 <= j < i ==> #[trigger] pair_value(text@[2 * j], text@[2 * j + 1]) == Some(bytes@[j]),
        decreases n - i,
    {
        let hi = decode_hex(text[2 * i]);
        let lo = decode_hex(text[2 * i + 1]);
        match (hi, lo) {
            (Some(h), Some(l)) => bytes.push(h * 16 + l),
            _ => {
                assert(pair_value(text@[2 * i as int], text@[2 * i as int + 1]) is None);
                return None;
            },
        }
        i = i + 1;
    }
    Some(bytes)
}

/// Text of two lower-case hexadecimal digits for each byte, high digit first.
pub fn bytes_to_hex(bytes: &[u8]) -> (r: Vec<u8>)
    requires
        bytes@.len() * 2 <= usize::MAX,
    ensures
        r@.len() == 2 * bytes@.len(),
        forall|i: int|
            0 <= i < bytes@.len() ==> r@[2 * i] == hex_digit(#[trigger] bytes@[i] / 16) && r@[2 * i + 1]
                == hex_digit(bytes@[i]),
{
    let mut text: Vec<u8> = Vec::new();
    let mut i: usize = 0;
    while i < bytes.len()
        invariant
            i <= bytes@.len(),
            text@.len() == 2 * i,
            forall|j: int|
                0 <= j < i ==> text@[2 * j] == hex_digit(#[trigger] bytes@[j] / 16) && text@[2 * j + 1]
                    == hex_digit(bytes@[j]),
        decreases bytes@.len() - i,
    {
        text.push(encode_hex(bytes[i] / 16));
        text.push(encode_hex(bytes[i]));
        i = i + 1;
    }
    text
}

/// Writing bytes as text and reading the text back gives the same bytes.
pub proof fn law_bytes_hex_round_trip(b: u8)
    ensures
        pair_value(hex_digit(b / 16), hex_digit(b)) == Some(b),
{
}

} // verus!
