//! Byte strings written as text: `0x` and two hexadecimal digits for each
//! byte.

use vstd::prelude::*;
use vstd::string::{StringExecFns, StringSliceAdditionalSpecFns};

verus! {

/// Why a text is not the hexadecimal form of a byte string of a given length.
#[derive(Clone, Copy, Debug, PartialEq, Eq, Structural)]
pub enum HexError {
    /// The text does not start with `0x`.
    InvalidPrefix,
    /// The text has more or fewer digits than two for each byte.
    InvalidLength,
    /// The text holds a character that is no hexadecimal digit.
    InvalidCharacter,
}

/// The digit that stands for a number below sixteen.
pub open spec fn hex_digit(n: int) -> char {
    if n == 0 {
        '0'
    } else if n == 1 {
        '1'
    } else if n == 2 {
        '2'
    } else if n == 3 {
        '3'
    } else if n == 4 {
        '4'
    } else if n == 5 {
        '5'
    } else if n == 6 {
        '6'
    } else if n == 7 {
        '7'
    } else if n == 8 {
        '8'
    } else if n == 9 {
        '9'
    } else if n == 10 {
        'a'
    } else if n == 11 {
        'b'
    } else if n == 12 {
        'c'
    } else if n == 13 {
        'd'
    } else if n == 14 {
        'e'
    } else {
        'f'
    }
}

/// The digits of a byte string: for each byte the digit of its upper half,
/// then the digit of its lower half.
pub open spec fn hex_digits(bytes: Seq<u8>) -> Seq<char> {
    Seq::new(
        2 * bytes.len(),
        |i: int|
            if i % 2 == 0 {
                hex_digit(bytes[i / 2] as int / 16)
            } else {
                hex_digit(bytes[i / 2] as int % 16)
            },
    )
}

/// The hexadecimal form of a byte string.
pub open spec fn prefixed_hex(bytes: Seq<u8>) -> Seq<char> {
    seq!['0', 'x'] + hex_digits(bytes)
}

/// The number that a character of a text stands for as a hexadecimal digit,
/// in either case.
pub open spec fn hex_value(c: u8) -> Option<int> {
    if 0x30 <= c <= 0x39 {
        Some(c - 0x30)
    } else if 0x61 <= c <= 0x66 {
        Some(c - 0x61 + 10)
    } else if 0x41 <= c <= 0x46 {
        Some(c - 0x41 + 10)
    } else {
        None
    }
}

/// The byte string of `len` bytes that a text is the hexadecimal form of,
/// or why it is none. `text` holds the text's characters as bytes.
pub open spec fn parsed_hex(text: Seq<u8>, len: nat) -> Result<Seq<u8>, HexError> {
    if !(text.len() >= 2 && text[0] == 0x30 && text[1] == 0x78) {
        Err(HexError::InvalidPrefix)
    } else if text.len() != 2 + 2 * len {
        Err(HexError::InvalidLength)
    } else if exists|i: int| 2 <= i < text.len() && hex_value(#[trigger] text[i]) is None {
        Err(HexError::InvalidCharacter)
    } else {
        Ok(
            Seq::new(
                len,
                |i: int|
                    (16 * hex_value(text[2 + 2 * i])->Some_0 + hex_value(
                        text[3 + 2 * i],
                    )->Some_0) as u8,
            ),
        )
    }
}

/// A digit is read as the number that it stands for.
pub proof fn lemma_digit_value(n: int)
    requires
        0 <= n < 16,
    ensures
        '\0' <= hex_digit(n) <= '\u{7f}',
        hex_value(hex_digit(n) as u8) == Some(n),
{
}

/// What is written is read back: the hexadecimal form of a byte string is
/// read as that byte string.
pub proof fn lemma_hex_round_trip(bytes: Seq<u8>, text: &str)
    requires
        text@ == prefixed_hex(bytes),
    ensures
        parsed_hex(text.spec_bytes(), bytes.len()) == Ok::<Seq<u8>, HexError>(bytes),
{
    let chars = text@;
    assert forall|i: int| 0 <= i < chars.len() implies '\0' <= #[trigger] chars[i] <= '\u{7f}' by {
        if i >= 2 {
            let k = i - 2;
            if k % 2 == 0 {
                lemma_digit_value(bytes[k / 2] as int / 16);
            } else {
                lemma_digit_value(bytes[k / 2] as int % 16);
            }
        }
    }
    vstd::utf8::is_ascii_chars_encode_utf8(chars);
    let raw = text.spec_bytes();
    assert(raw.len() == 2 + 2 * bytes.len());
    assert(raw[0] == chars[0] as u8);
    assert(raw[1] == chars[1] as u8);
    assert forall|i: int| 2 <= i < raw.len() implies hex_value(#[trigger] raw[i]) is Some by {
        assert(raw[i] == chars[i] as u8);
        let k = i - 2;
        if k % 2 == 0 {
            lemma_digit_value(bytes[k / 2] as int / 16);
        } else {
            lemma_digit_value(bytes[k / 2] as int % 16);
        }
    }
    let parsed = parsed_hex(raw, bytes.len());
    assert(parsed is Ok);
    assert forall|i: int| 0 <= i < bytes.len() implies parsed->Ok_0[i] == bytes[i] by {
        assert(raw[2 + 2 * i] == chars[2 + 2 * i] as u8);
        assert(raw[3 + 2 * i] == chars[3 + 2 * i] as u8);
        assert((2 * i) / 2 == i && (2 * i + 1) / 2 == i);
        lemma_digit_value(bytes[i] as int / 16);
        lemma_digit_value(bytes[i] as int % 16);
    }
    assert(parsed->Ok_0 =~= bytes);
}

/// The digit that stands for a number below sixteen.
fn digit(n: u8) -> (text: &'static str)
    requires
        n < 16,
    ensures
        text@ == seq![hex_digit(n as int)],
{
    proof {
        reveal_strlit("0");
        reveal_strlit("1");
        reveal_strlit("2");
        reveal_strlit("3");
        reveal_strlit("4");
        reveal_strlit("5");
        reveal_strlit("6");
        reveal_strlit("7");
        reveal_strlit("8");
        reveal_strlit("9");
        reveal_strlit("a");
        reveal_strlit("b");
        reveal_strlit("c");
        reveal_strlit("d");
        reveal_strlit("e");
        reveal_strlit("f");
    }
    let text = if n == 0 {
        "0"
    } else if n == 1 {
        "1"
    } else if n == 2 {
        "2"
    } else if n == 3 {
        "3"
    } else if n == 4 {
        "4"
    } else if n == 5 {
        "5"
    } else if n == 6 {
        "6"
    } else if n == 7 {
        "7"
    } else if n == 8 {
        "8"
    } else if n == 9 {
        "9"
    } else if n == 10 {
        "a"
    } else if n == 11 {
        "b"
    } else if n == 12 {
        "c"
    } else if n == 13 {
        "d"
    } else if n == 14 {
        "e"
    } else {
        "f"
    };
    assert(text@ =~= seq![hex_digit(n as int)]);
    text
}

/// Writes a byte string in its hexadecimal form.
pub fn to_hex(bytes: &[u8]) -> (text: String)
    ensures
        text@ == prefixed_hex(bytes@),
{
    proof {
        reveal_strlit("0x");
    }
    let mut text = String::from_str("0x");
    assert(text@ =~= prefixed_hex(bytes@.take(0)));
    let mut i: usize = 0;
    while i < bytes.len()
        invariant
            i <= bytes.len(),
            text@ == prefixed_hex(bytes@.take(i as int)),
        decreases bytes.len() - i,
    {
        let byte = bytes[i];
        let ghost before = text@;
        text.append(digit(byte / 16));
        text.append(digit(byte % 16));
        proof {
            let old_bytes = bytes@.take(i as int);
            let new_bytes = bytes@.take(i + 1);
            assert(new_bytes[i as int] == byte);
            assert(text@ =~= prefixed_hex(new_bytes)) by {
                assert(text@.len() == 2 + 2 * (i + 1));
                assert forall|k: int| 0 <= k < text@.len() implies text@[k] == prefixed_hex(
                    new_bytes,
                )[k] by {
                    if k < 2 + 2 * i {
                        assert(text@[k] == before[k]);
                        if k >= 2 {
                            assert(old_bytes[(k - 2) / 2] == new_bytes[(k - 2) / 2]);
                        }
                    }
                }
            }
        }
        i += 1;
    }
    assert(bytes@.take(i as int) == bytes@);
    text
}

/// The number that a character stands for as a hexadecimal digit.
fn value(c: u8) -> (n: Option<u8>)
    ensures
        match n {
            Some(n) => hex_value(c) == Some(n as int) && n < 16,
            None => hex_value(c) is None,
        },
{
    if 0x30 <= c && c <= 0x39 {
        Some(c - 0x30)
    } else if 0x61 <= c && c <= 0x66 {
        Some(c - 0x61 + 10)
    } else if 0x41 <= c && c <= 0x46 {
        Some(c - 0x41 + 10)
    } else {
        None
    }
}

/// Reads a byte string of `len` bytes from its hexadecimal form. Digits
/// above nine are read in either case.
pub fn from_hex(text: &str, len: usize) -> (res: Result<Vec<u8>, HexError>)
    requires
        len <= 0x1000_0000,
    ensures
        match res {
            Ok(bytes) => parsed_hex(text.spec_bytes(), len as nat) == Ok::<Seq<u8>, HexError>(bytes@),
            Err(error) => parsed_hex(text.spec_bytes(), len as nat) == Err::<Seq<u8>, HexError>(
                error,
            ),
        },
{
    let chars = text.as_bytes();
    if !(chars.len() >= 2 && chars[0] == 0x30 && chars[1] == 0x78) {
        return Err(HexError::InvalidPrefix);
    }
    if chars.len() != 2 + 2 * len {
        return Err(HexError::InvalidLength);
    }
    let mut bytes: Vec<u8> = Vec::new();
    let mut i: usize = 0;
    while i < len
        invariant
            i <= len,
            len <= 0x1000_0000,
            chars@ == text.spec_bytes(),
            chars@.len() == 2 + 2 * len,
            chars@[0] == 0x30,
            chars@[1] == 0x78,
            bytes@.len() == i,
            forall|k: int| 2 <= k < 2 + 2 * i ==> hex_value(#[trigger] chars@[k]) is Some,
            forall|k: int|
                0 <= k < i ==> #[trigger] bytes@[k] == (16 * hex_value(chars@[2 + 2 * k])->Some_0
                    + hex_value(chars@[3 + 2 * k])->Some_0) as u8,
        decreases len - i,
    {
        let upper = value(chars[2 + 2 * i]);
        let lower = value(chars[3 + 2 * i]);
        match (upper, lower) {
            (Some(upper), Some(lower)) => {
                bytes.push(upper * 16 + lower);
            },
            _ => {
                proof {
                    let k: int = if upper is None {
                        2 + 2 * i
                    } else {
                        3 + 2 * i
                    };
                    assert(2 <= k < chars@.len() && hex_value(chars@[k]) is None);
                }
                return Err(HexError::InvalidCharacter);
            },
        }
        i += 1;
    }
    proof {
        let parsed = parsed_hex(chars@, len as nat);
        assert(parsed is Ok);
        assert(parsed->Ok_0 =~= bytes@);
    }
    Ok(bytes)
}

} // verus!
