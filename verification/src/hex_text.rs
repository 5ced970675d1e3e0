//! What hexadecimal text stands for.

use vstd::prelude::*;

verus! {

/// The value of a hexadecimal digit, in either case.
pub open spec fn hex_digit_value(c: char) -> Option<nat> {
    let code = c as u32;
    if 48 <= code <= 57 {
        Some((code - 48) as nat)
    } else if 97 <= code <= 102 {
        Some((code - 87) as nat)
    } else if 65 <= code <= 70 {
        Some((code - 55) as nat)
    } else {
        None
    }
}

/// Whether a text consists of hexadecimal digits only.
pub open spec fn all_hex_digits(text: Seq<char>) -> bool {
    forall|i: int| 0 <= i < text.len() ==> (#[trigger] hex_digit_value(text[i])) is Some
}

/// The number that a text of hexadecimal digits stands for, most
/// significant digit first.
pub open spec fn hex_digits_value(text: Seq<char>) -> nat
    decreases text.len(),
{
    if text.len() == 0 {
        0
    } else {
        hex_digits_value(text.drop_last()) * 16 + hex_digit_value(text.last()).unwrap_or(0)
    }
}

/// The `u64` that a text stands for in base 16: an optional `+`, then at
/// least one digit and nothing but digits, whose value fits in 64 bits.
pub open spec fn parsed_hex_u64(text: Seq<char>) -> Option<u64> {
    let digits = if text.len() > 0 && text[0] == '+' {
        text.subrange(1, text.len() as int)
    } else {
        text
    };
    if digits.len() > 0 && all_hex_digits(digits) && hex_digits_value(digits) <= u64::MAX {
        Some(hex_digits_value(digits) as u64)
    } else {
        None
    }
}

/// The byte that two hexadecimal digits stand for, the first being the
/// upper half.
pub open spec fn hex_pair_value(high: char, low: char) -> u8 {
    (hex_digit_value(high).unwrap_or(0) * 16 + hex_digit_value(low).unwrap_or(0)) as u8
}

/// The bytes that a hexadecimal text stands for, two digits for each byte:
/// none if the number of its characters is odd, or if one of them is no
/// hexadecimal digit.
pub open spec fn decoded_hex(text: Seq<char>) -> Option<Seq<u8>> {
    if text.len() % 2 == 0 && all_hex_digits(text) {
        Some(Seq::new(text.len() / 2, |i: int| hex_pair_value(text[2 * i], text[2 * i + 1])))
    } else {
        None
    }
}

/// The lower-case hexadecimal digit that stands for a number below
/// sixteen.
pub open spec fn hex_digit(value: nat) -> char {
    if value == 0 {
        '0'
    } else if value == 1 {
        '1'
    } else if value == 2 {
        '2'
    } else if value == 3 {
        '3'
    } else if value == 4 {
        '4'
    } else if value == 5 {
        '5'
    } else if value == 6 {
        '6'
    } else if value == 7 {
        '7'
    } else if value == 8 {
        '8'
    } else if value == 9 {
        '9'
    } else if value == 10 {
        'a'
    } else if value == 11 {
        'b'
    } else if value == 12 {
        'c'
    } else if value == 13 {
        'd'
    } else if value == 14 {
        'e'
    } else {
        'f'
    }
}

/// Bytes written in hexadecimal: two lower-case digits for each byte, the
/// upper half first.
pub open spec fn encoded_hex(bytes: Seq<u8>) -> Seq<char> {
    Seq::new(
        2 * bytes.len(),
        |i: int|
            if i % 2 == 0 {
                hex_digit((bytes[i / 2] / 16) as nat)
            } else {
                hex_digit((bytes[i / 2] % 16) as nat)
            },
    )
}

} // verus!
