//! Session and CSRF tokens: 24 bytes from the operating system's random
//! source, written as 48 lower-case hexadecimal digits.

use vstd::prelude::*;
use vstd::string::*;

verus! {

/// Number of random bytes behind one token.
pub const TOKEN_BYTES: usize = 24;

/// Number of characters of one token.
pub const TOKEN_LENGTH: usize = 48;

/// The lower-case hexadecimal digit of a value below sixteen.
pub open spec fn hex_digit(n: int) -> char {
    if n == 0 {
        '0'
    } else if n == 1 {
        '1'
    } else if n == 2 {
        '2'
    } else if n == 3 {
        '3'
    } else if n == 4 {
        '4'
    } else if n == 5 {
        '5'
    } else if n == 6 {
        '6'
    } else if n == 7 {
        '7'
    } else if n == 8 {
        '8'
    } else if n == 9 {
        '9'
    } else if n == 10 {
        'a'
    } else if n == 11 {
        'b'
    } else if n == 12 {
        'c'
    } else if n == 13 {
        'd'
    } else if n == 14 {
        'e'
    } else {
        'f'
    }
}

/// Whether a character is one of the sixteen lower-case hexadecimal digits.
pub open spec fn is_hex_digit(c: char) -> bool {
    exists|n: int| 0 <= n < 16 && c == #[trigger] hex_digit(n)
}

/// The hexadecimal writing of a byte string: two digits per byte, the high
/// half first, so that every byte takes the same room.
pub open spec fn hex_encoding(bytes: Seq<u8>) -> Seq<char> {
    Seq::new(
        2 * bytes.len(),
        |i: int|
            if i % 2 == 0 {
                hex_digit(bytes[i / 2] as int / 16)
            } else {
                hex_digit(bytes[i / 2] as int % 16)
            },
    )
}

/// A well-formed token: 48 hexadecimal digits.
pub open spec fn is_token(text: Seq<char>) -> bool {
    &&& text.len() == TOKEN_LENGTH
    &&& forall|i: int| 0 <= i < text.len() ==> is_hex_digit(#[trigger] text[i])
}

/// The one-character string of a hexadecimal digit.
fn digit_text(n: u8) -> (text: &'static str)
    requires
        n < 16,
    ensures
        text@ == seq![hex_digit(n as int)],
{
    proof {
        reveal_strlit("0");
        reveal_strlit("1");
        reveal_strlit("2");
        reveal_strlit("3");
        reveal_strlit("4");
        reveal_strlit("5");
        reveal_strlit("6");
        reveal_strlit("7");
        reveal_strlit("8");
        reveal_strlit("9");
        reveal_strlit("a");
        reveal_strlit("b");
        reveal_strlit("c");
        reveal_strlit("d");
        reveal_strlit("e");
        reveal_strlit("f");
    }
    let text = match n {
        0 => "0",
        1 => "1",
        2 => "2",
        3 => "3",
        4 => "4",
        5 => "5",
        6 => "6",
        7 => "7",
        8 => "8",
        9 => "9",
        10 => "a",
        11 => "b",
        12 => "c",
        13 => "d",
        14 => "e",
        _ => "f",
    };
    assert(text@ =~= seq![hex_digit(n as int)]);
    text
}

/// Writes a byte string in hexadecimal.
pub fn hex_encode(bytes: &[u8]) -> (text: String)
    ensures
        text@ == hex_encoding(bytes@),
{
    let mut text = String::new();
    let mut done: usize = 0;
    while done < bytes.len()
        invariant
            done <= bytes.len(),
            text@ == hex_encoding(bytes@.take(done as int)),
        decreases bytes.len() - done,
    {
        let byte = bytes[done];
        text.append(digit_text(byte / 16));
        text.append(digit_text(byte % 16));
        done = done + 1;
        assert(text@ =~= hex_encoding(bytes@.take(done as int)));
    }
    assert(bytes@.take(done as int) =~= bytes@);
    text
}

/// Every hexadecimal writing of 24 bytes is a well-formed token.
pub proof fn lemma_encoding_is_token(bytes: Seq<u8>)
    requires
        bytes.len() == TOKEN_BYTES,
    ensures
        is_token(hex_encoding(bytes)),
{
    let text = hex_encoding(bytes);
    assert forall|i: int| 0 <= i < text.len() implies is_hex_digit(#[trigger] text[i]) by {
        let n = if i % 2 == 0 {
            bytes[i / 2] as int / 16
        } else {
            bytes[i / 2] as int % 16
        };
        assert(0 <= n < 16);
        assert(text[i] == hex_digit(n));
    }
}

/// Asks the operating system for `count` random bytes through
/// `getrandom::fill`. The bytes are whatever the system gave, `count` of
/// them; `None` reports that it gave none.
#[verifier::external_body]
pub(crate) fn random_bytes(count: usize) -> (bytes: Option<Vec<u8>>)
    ensures
        bytes matches Some(filled) ==> filled.len() == count,
{
    let mut buffer: Vec<u8> = vec![0u8; count];
    match getrandom::fill(&mut buffer) {
        Ok(()) => Some(buffer),
        Err(_) => None,
    }
}

/// The token written from 24 bytes.
pub fn token_from_bytes(bytes: &[u8; 24]) -> (token: String)
    ensures
        token@ == hex_encoding(bytes@),
        is_token(token@),
{
    proof {
        lemma_encoding_is_token(bytes@);
    }
    hex_encode(bytes.as_slice())
}

/// Generates a fresh token. `None` means that the operating system's random
/// source failed; no token is ever made from anything else.
pub fn generate_token() -> (token: Option<String>)
    ensures
        token matches Some(text) ==> is_token(text@) && exists|bytes: Seq<u8>|
            bytes.len() == TOKEN_BYTES && text@ == #[trigger] hex_encoding(bytes),
{
    match random_bytes(TOKEN_BYTES) {
        Some(bytes) => {
            proof {
                lemma_encoding_is_token(bytes@);
            }
            Some(hex_encode(bytes.as_slice()))
        },
        None => None,
    }
}

} // verus!
