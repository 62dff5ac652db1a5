use vstd::prelude::*;
use vstd::string::{StringExecFns, StringSliceAdditionalSpecFns};

verus! {

/// The lowercase hexadecimal digit of a value below 16.
pub open spec fn spec_hex_char(n: u8) -> char {
    match n {
        0 => '0',
        1 => '1',
        2 => '2',
        3 => '3',
        4 => '4',
        5 => '5',
        6 => '6',
        7 => '7',
        8 => '8',
        9 => '9',
        10 => 'a',
        11 => 'b',
        12 => 'c',
        13 => 'd',
        14 => 'e',
        _ => 'f',
    }
}

/// Two lowercase hexadecimal digits per byte, high nibble first.
pub open spec fn spec_hex(bytes: Seq<u8>) -> Seq<char>
    decreases bytes.len(),
{
    if bytes.len() == 0 {
        Seq::empty()
    } else {
        let b = bytes.last();
        spec_hex(bytes.drop_last()) + seq![spec_hex_char(b / 16), spec_hex_char(b % 16)]
    }
}

/// Whether a byte is an ASCII hexadecimal digit, in either case.
pub open spec fn is_hex_digit(c: u8) -> bool {
    (0x30 <= c <= 0x39) || (0x61 <= c <= 0x66) || (0x41 <= c <= 0x46)
}

/// The value of an ASCII hexadecimal digit.
pub open spec fn spec_hex_value(c: u8) -> int {
    if 0x30 <= c <= 0x39 {
        c - 0x30
    } else if 0x61 <= c <= 0x66 {
        c - 0x61 + 10
    } else {
        c - 0x41 + 10
    }
}

/// The text after an optional `0x` prefix.
pub open spec fn spec_hex_body(s: Seq<u8>) -> Seq<u8> {
    if s.len() >= 2 && s[0] == 0x30 && s[1] == 0x78 {
        s.subrange(2, s.len() as int)
    } else {
        s
    }
}

/// The bytes that a well-formed hexadecimal text stands for: each pair of digits, high
/// digit first, is one byte.
pub open spec fn spec_hex_decode(body: Seq<u8>) -> Seq<u8> {
    Seq::new(
        body.len() / 2,
        |k: int| (16 * spec_hex_value(body[2 * k]) + spec_hex_value(body[2 * k + 1])) as u8,
    )
}

/// Why a text is not hexadecimal.
#[derive(Debug, Clone, Copy, PartialEq, Eq, Structural)]
pub enum HexError {
    /// The digits do not come in pairs.
    OddLength,
    /// A character is not a hexadecimal digit.
    InvalidDigit,
}

/// A one-character string holding the hexadecimal digit of `n`.
fn hex_digit(n: u8) -> (r: &'static str)
    requires
        n < 16,
    ensures
        r@ == seq![spec_hex_char(n)],
{
    let r = match n {
        0 => "0",
        1 => "1",
        2 => "2",
        3 => "3",
        4 => "4",
        5 => "5",
        6 => "6",
        7 => "7",
        8 => "8",
        9 => "9",
        10 => "a",
        11 => "b",
        12 => "c",
        13 => "d",
        14 => "e",
        _ => "f",
    };
    proof {
        reveal_strlit("0");
        reveal_strlit("1");
        reveal_strlit("2");
        reveal_strlit("3");
        reveal_strlit("4");
        reveal_strlit("5");
        reveal_strlit("6");
        reveal_strlit("7");
        reveal_strlit("8");
        reveal_strlit("9");
        reveal_strlit("a");
        reveal_strlit("b");
        reveal_strlit("c");
        reveal_strlit("d");
        reveal_strlit("e");
        reveal_strlit("f");
        assert(r@ =~= seq![spec_hex_char(n)]);
    }
    r
}

/// Lowercase hexadecimal text of `bytes`, two digits per byte, without a prefix.
pub fn bytes_to_hex(bytes: &[u8]) -> (r: String)
    ensures
        r@ == spec_hex(bytes@),
{
    let mut out = String::new();
    let mut i: usize = 0;
    while i < bytes.len()
        invariant
            i <= bytes@.len(),
            out@ == spec_hex(bytes@.subrange(0, i as int)),
        decreases bytes@.len() - i,
    {
        let b = bytes[i];
        out.append(hex_digit(b / 16));
        out.append(hex_digit(b % 16));
        proof {
            assert(bytes@.subrange(0, i + 1).drop_last() =~= bytes@.subrange(0, i as int));
        }
        i = i + 1;
    }
    proof {
        assert(bytes@.subrange(0, bytes@.len() as int) =~= bytes@);
    }
    out
}

fn hex_value(c: u8) -> (r: Option<u8>)
    ensures
        r is Some <==> is_hex_digit(c),
        r matches Some(v) ==> v == spec_hex_value(c) && v < 16,
{
    if 0x30 <= c && c <= 0x39 {
        Some(c - 0x30)
    } else if 0x61 <= c && c <= 0x66 {
        Some(c - 0x61 + 10)
    } else if 0x41 <= c && c <= 0x46 {
        Some(c - 0x41 + 10)
    } else {
        None
    }
}

/// Parses hexadecimal text, with or without a `0x` prefix, into bytes. Digits of either
/// case are accepted.
pub fn hex_to_bytes(hex_str: &str) -> (r: Result<Vec<u8>, HexError>)
    ensures
        ({
            let body = spec_hex_body(hex_str.spec_bytes());
            &&& body.len() % 2 == 1 <==> r == Err::<Vec<u8>, HexError>(HexError::OddLength)
            &&& (body.len() % 2 == 0 && exists|i: int| 0 <= i < body.len() && !is_hex_digit(body[i]))
                <==> r == Err::<Vec<u8>, HexError>(HexError::InvalidDigit)
            &&& r matches Ok(v) ==> v@ == spec_hex_decode(body)
        }),
{
    let bytes = hex_str.as_bytes();
    let ghost body = spec_hex_body(bytes@);
    let start: usize = if bytes.len() >= 2 && bytes[0] == 0x30 && bytes[1] == 0x78 {
        2
    } else {
        0
    };
    assert(body =~= bytes@.subrange(start as int, bytes@.len() as int));
    let len = bytes.len() - start;
    if len % 2 == 1 {
        return Err(HexError::OddLength);
    }
    let mut out: Vec<u8> = Vec::new();
    let mut i: usize = 0;
    while i < len
        invariant
            body == spec_hex_body(hex_str.spec_bytes()),
            len == body.len(),
            len % 2 == 0,
            body =~= bytes@.subrange(start as int, bytes@.len() as int),
            start + len == bytes.len(),
            bytes@.len() == bytes.len(),
            i <= len,
            i % 2 == 0,
            out@.len() == i / 2,
            forall|j: int| 0 <= j < i ==> is_hex_digit(#[trigger] body[j]),
            forall|j: int|
                0 <= j < i / 2 ==> #[trigger] out@[j] == (16 * spec_hex_value(body[2 * j])
                    + spec_hex_value(body[2 * j + 1])) as u8,
        decreases len - i,
    {
        let hi = hex_value(bytes[start + i]);
        let lo = hex_value(bytes[start + i + 1]);
        match (hi, lo) {
            (Some(h), Some(l)) => {
                out.push(h * 16 + l);
            },
            _ => {
                proof {
                    if hi is None {
                        assert(!is_hex_digit(body[i as int]));
                    } else {
                        assert(!is_hex_digit(body[i + 1]));
                    }
                }
                return Err(HexError::InvalidDigit);
            },
        }
        i = i + 2;
    }
    assert(out@ =~= spec_hex_decode(body));
    Ok(out)
}

} // verus!
