//! Byte-level encodings shared by the beacon schemes: the fixed-width
//! big-endian round number, decimal rendering of a round for request paths,
//! and hex decoding of the wire format's string-encoded byte fields.

use vstd::prelude::*;
use vstd::string::StrSliceExecFns;

verus! {

/// Eight big-endian bytes of a round number, as every beacon message encodes it.
pub open spec fn round_bytes(round: u64) -> Seq<u8> {
    seq![
        (round >> 56) as u8,
        (round >> 48) as u8,
        (round >> 40) as u8,
        (round >> 32) as u8,
        (round >> 24) as u8,
        (round >> 16) as u8,
        (round >> 8) as u8,
        round as u8,
    ]
}

/// Encodes a round number as eight big-endian bytes.
pub fn round_to_bytes(round: u64) -> (r: Vec<u8>)
    ensures
        r@ == round_bytes(round),
{
    let mut out: Vec<u8> = Vec::new();
    out.push((round >> 56) as u8);
    out.push((round >> 48) as u8);
    out.push((round >> 40) as u8);
    out.push((round >> 32) as u8);
    out.push((round >> 24) as u8);
    out.push((round >> 16) as u8);
    out.push((round >> 8) as u8);
    out.push(round as u8);
    proof {
        assert(out@ =~= round_bytes(round));
    }
    out
}

/// The decimal digit character for a value below ten.
pub open spec fn dec_digit(d: u64) -> char {
    if d == 0 {
        '0'
    } else if d == 1 {
        '1'
    } else if d == 2 {
        '2'
    } else if d == 3 {
        '3'
    } else if d == 4 {
        '4'
    } else if d == 5 {
        '5'
    } else if d == 6 {
        '6'
    } else if d == 7 {
        '7'
    } else if d == 8 {
        '8'
    } else {
        '9'
    }
}

/// The decimal rendering of a round number, most significant digit first,
/// with no leading zeroes (a lone zero renders as "0").
pub open spec fn dec_spec(n: u64) -> Seq<char>
    decreases n,
{
    if n < 10 {
        seq![dec_digit(n)]
    } else {
        dec_spec(n / 10) + seq![dec_digit(n % 10)]
    }
}

fn digit_str(d: u64) -> (s: &'static str)
    requires
        d < 10,
    ensures
        s@ =~= seq![dec_digit(d)],
{
    let s: &'static str = if d == 0 {
        "0"
    } else if d == 1 {
        "1"
    } else if d == 2 {
        "2"
    } else if d == 3 {
        "3"
    } else if d == 4 {
        "4"
    } else if d == 5 {
        "5"
    } else if d == 6 {
        "6"
    } else if d == 7 {
        "7"
    } else if d == 8 {
        "8"
    } else {
        "9"
    };
    proof {
        reveal_strlit("0");
        reveal_strlit("1");
        reveal_strlit("2");
        reveal_strlit("3");
        reveal_strlit("4");
        reveal_strlit("5");
        reveal_strlit("6");
        reveal_strlit("7");
        reveal_strlit("8");
        reveal_strlit("9");
    }
    s
}

/// Renders a round number in decimal, for the request path of a fetch.
pub fn u64_to_dec(n: u64) -> (s: String)
    ensures
        s@ == dec_spec(n),
    decreases n,
{
    if n < 10 {
        let mut s = String::new();
        s.append(digit_str(n));
        s
    } else {
        let mut s = u64_to_dec(n / 10);
        s.append(digit_str(n % 10));
        s
    }
}

/// Whether a character is an ASCII hex digit.
pub open spec fn is_hex_digit(c: char) -> bool {
    (48 <= c as u32 && c as u32 <= 57) || (97 <= c as u32 && c as u32 <= 102) || (65 <= c as u32
        && c as u32 <= 70)
}

/// The value of an ASCII hex digit.
pub open spec fn hex_val(c: char) -> u8 {
    if 48 <= c as u32 && c as u32 <= 57 {
        (c as u32 - 48) as u8
    } else if 97 <= c as u32 && c as u32 <= 102 {
        (c as u32 - 87) as u8
    } else {
        (c as u32 - 55) as u8
    }
}

/// Whether a string is well-formed hex: even length, hex digits throughout.
pub open spec fn is_hex_seq(s: Seq<char>) -> bool {
    s.len() % 2 == 0 && (forall|i: int| 0 <= i < s.len() ==> is_hex_digit(#[trigger] s[i]))
}

/// The bytes a well-formed hex string denotes, two digits per byte.
pub open spec fn hex_decoded(s: Seq<char>) -> Seq<u8> {
    Seq::new(s.len() / 2, |i: int| (16 * hex_val(s[2 * i]) + hex_val(s[2 * i + 1])) as u8)
}

fn hex_digit_val(c: char) -> (r: Option<u8>)
    ensures
        r is Some <==> is_hex_digit(c),
        r matches Some(v) ==> v == hex_val(c) && v < 16,
{
    let u: u32 = c as u32;
    if 48 <= u && u <= 57 {
        Some((u - 48) as u8)
    } else if 97 <= u && u <= 102 {
        Some((u - 87) as u8)
    } else if 65 <= u && u <= 70 {
        Some((u - 55) as u8)
    } else {
        None
    }
}

/// Decodes a hex string to bytes. Returns `None` exactly when the string is
/// not well-formed hex (odd length, or a non-digit anywhere).
pub fn hex_decode(s: &str) -> (r: Option<Vec<u8>>)
    ensures
        r is Some <==> is_hex_seq(s@),
        r matches Some(v) ==> v@ == hex_decoded(s@),
{
    let n: usize = s.unicode_len();
    if n % 2 != 0 {
        return None;
    }
    let mut out: Vec<u8> = Vec::new();
    let mut i: usize = 0;
    while i < n
        invariant
            n == s@.len(),
            n % 2 == 0,
            i % 2 == 0,
            i <= n,
            forall|j: int| 0 <= j < i ==> is_hex_digit(#[trigger] s@[j]),
            out@ =~= hex_decoded(s@).take(i as int / 2),
        decreases n - i,
    {
        let hi = match hex_digit_val(s.get_char(i)) {
            Some(v) => v,
            None => {
                proof {
                    assert(!is_hex_digit(s@[i as int]));
                }
                return None;
            },
        };
        let lo = match hex_digit_val(s.get_char(i + 1)) {
            Some(v) => v,
            None => {
                proof {
                    assert(!is_hex_digit(s@[i + 1]));
                }
                return None;
            },
        };
        out.push(16 * hi + lo);
        proof {
            assert(out@ =~= hex_decoded(s@).take((i as int + 2) / 2));
        }
        i += 2;
    }
    proof {
        assert(out@ =~= hex_decoded(s@));
    }
    Some(out)
}

} // verus!
