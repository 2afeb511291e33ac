//! Hex decoding of key and value arguments.
use vstd::prelude::*;

use crate::error::{InspectorError, InspectorErrorView};

verus! {

/// `c` is one of `0-9`, `a-f`, `A-F`.
pub open spec fn is_hex_digit(c: char) -> bool {
    ('0' <= c && c <= '9') || ('a' <= c && c <= 'f') || ('A' <= c && c <= 'F')
}

/// The value of a hex digit.
pub open spec fn hex_value(c: char) -> int {
    if '0' <= c && c <= '9' {
        c as int - '0' as int
    } else if 'a' <= c && c <= 'f' {
        c as int - 'a' as int + 10
    } else {
        c as int - 'A' as int + 10
    }
}

/// The length of the optional `0x` marker at the front of `s`.
pub open spec fn hex_marker_len(s: Seq<char>) -> int {
    if s.len() >= 2 && s[0] == '0' && s[1] == 'x' {
        2
    } else {
        0
    }
}

/// The digits of a hex argument: what follows the optional marker.
pub open spec fn hex_digits(s: Seq<char>) -> Seq<char> {
    s.skip(hex_marker_len(s))
}

/// An even number of hex digits, optionally behind the marker.
pub open spec fn is_well_formed_hex(s: Seq<char>) -> bool {
    let d = hex_digits(s);
    &&& d.len() % 2 == 0
    &&& forall|i: int| 0 <= i < d.len() ==> is_hex_digit(#[trigger] d[i])
}

/// The byte written by two hex digits, high one first.
pub open spec fn pair_value(hi: char, lo: char) -> u8 {
    (hex_value(hi) * 16 + hex_value(lo)) as u8
}

/// The bytes written by a sequence of digit pairs.
pub open spec fn decode_digits(d: Seq<char>) -> Seq<u8> {
    Seq::new(d.len() / 2, |i: int| pair_value(d[2 * i], d[2 * i + 1]))
}

/// The bytes that a well-formed hex argument stands for.
pub open spec fn decode_hex(s: Seq<char>) -> Seq<u8> {
    decode_digits(hex_digits(s))
}

/// The first index at or after `from` that does not hold a hex digit (the length if none).
pub open spec fn first_non_hex(s: Seq<char>, from: int) -> int
    decreases s.len() - from,
{
    if from >= s.len() {
        s.len() as int
    } else if !is_hex_digit(s[from]) {
        from
    } else {
        first_non_hex(s, from + 1)
    }
}

/// Where a malformed hex argument goes wrong: at its end when the digits are odd in
/// number, else at its first character that is not a hex digit.
pub open spec fn malformed_hex_position(s: Seq<char>) -> int {
    if hex_digits(s).len() % 2 == 1 {
        s.len() as int
    } else {
        first_non_hex(s, hex_marker_len(s))
    }
}

/// The lower-case hex digits, by value.
pub open spec fn lower_hex_digits() -> Seq<char> {
    seq!['0', '1', '2', '3', '4', '5', '6', '7', '8', '9', 'a', 'b', 'c', 'd', 'e', 'f']
}

/// The lower-case hex encoding of `b`, two digits per byte, without marker.
pub open spec fn encode_hex(b: Seq<u8>) -> Seq<char> {
    Seq::new(
        2 * b.len(),
        |i: int|
            if i % 2 == 0 {
                lower_hex_digits()[(b[i / 2] / 16) as int]
            } else {
                lower_hex_digits()[(b[i / 2] % 16) as int]
            },
    )
}

proof fn lemma_lower_hex_digit(v: int)
    requires
        0 <= v < 16,
    ensures
        is_hex_digit(lower_hex_digits()[v]),
        hex_value(lower_hex_digits()[v]) == v,
        lower_hex_digits()[v] != 'x',
{
}

proof fn lemma_first_non_hex_at(s: Seq<char>, from: int, i: int)
    requires
        0 <= from <= i < s.len(),
        forall|j: int| from <= j < i ==> is_hex_digit(#[trigger] s[j]),
        !is_hex_digit(s[i]),
    ensures
        first_non_hex(s, from) == i,
    decreases i - from,
{
    if from < i {
        lemma_first_non_hex_at(s, from + 1, i);
    }
}

/// Decoding the encoding of any bytes, with or without the `0x` marker, gives those bytes back.
pub proof fn lemma_encode_then_decode(b: Seq<u8>)
    ensures
        is_well_formed_hex(encode_hex(b)),
        decode_hex(encode_hex(b)) == b,
        is_well_formed_hex(seq!['0', 'x'] + encode_hex(b)),
        decode_hex(seq!['0', 'x'] + encode_hex(b)) == b,
{
    let e = encode_hex(b);
    assert forall|i: int| 0 <= i < e.len() implies is_hex_digit(#[trigger] e[i]) && e[i] != 'x' by {
        if i % 2 == 0 {
            lemma_lower_hex_digit((b[i / 2] / 16) as int);
        } else {
            lemma_lower_hex_digit((b[i / 2] % 16) as int);
        }
    }
    assert(hex_marker_len(e) == 0) by {
        if e.len() >= 2 {
            assert(e[1] != 'x');
        }
    }
    assert(hex_digits(e) =~= e);
    assert forall|i: int| 0 <= i < b.len() implies #[trigger] pair_value(e[2 * i], e[2 * i + 1])
        == b[i] by {
        let x = b[i];
        assert((2 * i) % 2 == 0 && (2 * i) / 2 == i);
        assert((2 * i + 1) % 2 == 1 && (2 * i + 1) / 2 == i);
        lemma_lower_hex_digit((x / 16) as int);
        lemma_lower_hex_digit((x % 16) as int);
        assert((x / 16) * 16 + x % 16 == x);
    }
    assert(decode_hex(e) =~= b);
    let m = seq!['0', 'x'] + e;
    assert(hex_marker_len(m) == 2);
    assert(hex_digits(m) =~= e);
}

/// Encoding what a well-formed, lower-case hex argument decodes to gives back its digits.
pub proof fn lemma_decode_then_encode(s: Seq<char>)
    requires
        is_well_formed_hex(s),
        forall|i: int| 0 <= i < hex_digits(s).len() ==> !('A' <= #[trigger] hex_digits(s)[i] && hex_digits(s)[i] <= 'F'),
    ensures
        encode_hex(decode_hex(s)) == hex_digits(s),
{
    let d = hex_digits(s);
    let b = decode_hex(s);
    assert forall|i: int| 0 <= i < d.len() implies #[trigger] encode_hex(b)[i] == d[i] by {
        let k = i / 2;
        let hi = hex_value(d[2 * k]);
        let lo = hex_value(d[2 * k + 1]);
        assert(0 <= hi < 16 && 0 <= lo < 16) by {
            assert(is_hex_digit(d[2 * k]) && is_hex_digit(d[2 * k + 1]));
        }
        assert(b[k] == hi * 16 + lo);
        assert((hi * 16 + lo) / 16 == hi && (hi * 16 + lo) % 16 == lo) by (nonlinear_arith)
            requires 0 <= hi < 16, 0 <= lo < 16;
        assert(is_hex_digit(d[i]));
        assert(lower_hex_digits()[hex_value(d[i])] == d[i]);
    }
    assert(encode_hex(b) =~= d);
}

/// Odd-length input and input with a character that is not a hex digit are malformed.
pub proof fn lemma_malformed_hex(s: Seq<char>, i: int)
    ensures
        hex_digits(s).len() % 2 == 1 ==> !is_well_formed_hex(s),
        0 <= i < hex_digits(s).len() && !is_hex_digit(hex_digits(s)[i]) ==> !is_well_formed_hex(s),
{
}

proof fn lemma_first_non_hex_spot(s: Seq<char>, from: int)
    requires
        0 <= from <= s.len(),
    ensures
        from <= first_non_hex(s, from) <= s.len(),
        forall|j: int| from <= j < first_non_hex(s, from) ==> is_hex_digit(#[trigger] s[j]),
        first_non_hex(s, from) < s.len() ==> !is_hex_digit(s[first_non_hex(s, from)]),
    decreases s.len() - from,
{
    if from < s.len() && is_hex_digit(s[from]) {
        lemma_first_non_hex_spot(s, from + 1);
    }
}

/// A malformed argument with an even number of digits is reported at its first character
/// that is not a hex digit: every character between the marker and that spot is one.
pub proof fn lemma_malformed_hex_position(s: Seq<char>)
    requires
        hex_digits(s).len() % 2 == 0,
        !is_well_formed_hex(s),
    ensures
        hex_marker_len(s) <= malformed_hex_position(s) < s.len(),
        !is_hex_digit(s[malformed_hex_position(s)]),
        forall|j: int|
            hex_marker_len(s) <= j < malformed_hex_position(s) ==> is_hex_digit(#[trigger] s[j]),
{
    let m = hex_marker_len(s);
    let d = hex_digits(s);
    lemma_first_non_hex_spot(s, m);
    let k = choose|k: int| 0 <= k < d.len() && !is_hex_digit(#[trigger] d[k]);
    assert(d[k] == s[m + k]);
}

/// The value of one hex digit, if `c` is one.
fn hex_digit_value(c: char) -> (r: Option<u8>)
    ensures
        r is Some <==> is_hex_digit(c),
        r matches Some(v) ==> v as int == hex_value(c) && v < 16,
{
    if '0' <= c && c <= '9' {
        Some((c as u32 - '0' as u32) as u8)
    } else if 'a' <= c && c <= 'f' {
        Some((c as u32 - 'a' as u32 + 10) as u8)
    } else if 'A' <= c && c <= 'F' {
        Some((c as u32 - 'A' as u32 + 10) as u8)
    } else {
        None
    }
}

/// Decodes a hex argument: an optional `0x` marker, then an even number of hex digits,
/// two for each byte.
pub fn hex_string_to_bytes(hex_string: &str) -> (r: Result<Vec<u8>, InspectorError>)
    ensures
        match r {
            Ok(bytes) => is_well_formed_hex(hex_string@) && bytes@ == decode_hex(hex_string@),
            Err(e) => !is_well_formed_hex(hex_string@) && e@ == (InspectorErrorView::MalformedHex {
                position: malformed_hex_position(hex_string@) as usize,
            }),
        },
{
    let ghost s = hex_string@;
    let n = hex_string.unicode_len();
    let start: usize = if n >= 2 && hex_string.get_char(0) == '0' && hex_string.get_char(1) == 'x' {
        2
    } else {
        0
    };
    assert(start == hex_marker_len(s));
    assert(hex_digits(s).len() == n - start);
    if (n - start) % 2 != 0 {
        return Err(InspectorError::MalformedHex { position: n });
    }
    let mut bytes: Vec<u8> = Vec::new();
    let mut i: usize = start;
    while i < n
        invariant
            s == hex_string@,
            n == s.len(),
            start == hex_marker_len(s),
            start <= i <= n,
            (i - start) % 2 == 0,
            (n - start) % 2 == 0,
            forall|j: int| start <= j < i ==> is_hex_digit(#[trigger] s[j]),
            bytes@.len() == (i - start) / 2,
            forall|t: int|
                0 <= t < bytes@.len() ==> #[trigger] bytes@[t] == pair_value(
                    s[start + 2 * t],
                    s[start + 2 * t + 1],
                ),
        decreases n - i,
    {
        let a = hex_string.get_char(i);
        let hi = match hex_digit_value(a) {
            Some(v) => v,
            None => {
                proof {
                    lemma_first_non_hex_at(s, start as int, i as int);
                    assert(hex_digits(s)[i - start] == s[i as int]);
                }
                return Err(InspectorError::MalformedHex { position: i });
            },
        };
        let b = hex_string.get_char(i + 1);
        let lo = match hex_digit_value(b) {
            Some(v) => v,
            None => {
                proof {
                    lemma_first_non_hex_at(s, start as int, i + 1);
                    assert(hex_digits(s)[i + 1 - start] == s[i + 1]);
                }
                return Err(InspectorError::MalformedHex { position: i + 1 });
            },
        };
        bytes.push(hi * 16 + lo);
        i = i + 2;
    }
    proof {
        let d = hex_digits(s);
        assert forall|k: int| 0 <= k < d.len() implies is_hex_digit(#[trigger] d[k]) by {
            assert(d[k] == s[start + k]);
        }
        assert forall|t: int| 0 <= t < bytes@.len() implies bytes@[t] == decode_hex(s)[t] by {
            assert(d[2 * t] == s[start + 2 * t]);
            assert(d[2 * t + 1] == s[start + 2 * t + 1]);
        }
        assert(bytes@ =~= decode_hex(s));
    }
    Ok(bytes)
}

} // verus!
