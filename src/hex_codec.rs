//! Hexadecimal text as the library understands it, and the calls into the `hex`
//! crate that encode and decode it.
use vstd::prelude::*;

verus! {

#[verifier::external_type_specification]
#[verifier::external_body]
pub struct ExFromHexError(hex::FromHexError);

/// A hexadecimal digit, in either case.
pub open spec fn is_hex_digit(c: char) -> bool {
    ('0' <= c && c <= '9') || ('a' <= c && c <= 'f') || ('A' <= c && c <= 'F')
}

/// The value of a hexadecimal digit.
pub open spec fn digit_value(c: char) -> int {
    if '0' <= c && c <= '9' {
        c as int - '0' as int
    } else if 'a' <= c && c <= 'f' {
        c as int - 'a' as int + 10
    } else {
        c as int - 'A' as int + 10
    }
}

/// The lowercase digit of a value below sixteen.
pub open spec fn lower_digit(n: int) -> char {
    if n < 10 {
        (n + '0' as int) as char
    } else {
        (n - 10 + 'a' as int) as char
    }
}

/// A string that decodes as hexadecimal: an even number of hex digits.
pub open spec fn is_hex(s: Seq<char>) -> bool {
    s.len() % 2 == 0 && forall|i: int| 0 <= i < s.len() ==> is_hex_digit(#[trigger] s[i])
}

/// The bytes that a hex string stands for, two digits each, high digit first.
pub open spec fn hex_decode(s: Seq<char>) -> Seq<u8> {
    Seq::new(
        s.len() / 2,
        |i: int| (16 * digit_value(s[2 * i]) + digit_value(s[2 * i + 1])) as u8,
    )
}

/// Lowercase hex text of bytes, two digits each, high digit first.
pub open spec fn hex_encode(b: Seq<u8>) -> Seq<char> {
    Seq::new(
        2 * b.len(),
        |i: int|
            if i % 2 == 0 {
                lower_digit(b[i / 2] as int / 16)
            } else {
                lower_digit(b[i / 2] as int % 16)
            },
    )
}

/// A hex string with its uppercase digits made lowercase.
pub open spec fn hex_lowercase(s: Seq<char>) -> Seq<char> {
    s.map_values(|c: char| if 'A' <= c && c <= 'F' { (c as int - 'A' as int + 'a' as int) as char } else { c })
}

/// Relies on hex::decode_to_slice into a 32-byte buffer: it succeeds exactly on
/// 64 hex digits (either case) and writes each pair of digits as one byte.
#[verifier::external_body]
pub(crate) fn decode_32(s: &str) -> (r: Result<[u8; 32], hex::FromHexError>)
    ensures
        r is Ok <==> (s@.len() == 64 && is_hex(s@)),
        r is Ok ==> r->Ok_0@ == hex_decode(s@),
{
    let mut out = [0u8; 32];
    hex::decode_to_slice(s, &mut out).map(|_| out)
}

/// Relies on hex::decode: it succeeds exactly on an even number of hex digits
/// (either case) and turns each pair of digits into one byte.
#[verifier::external_body]
pub(crate) fn decode_any(s: &str) -> (r: Result<Vec<u8>, hex::FromHexError>)
    ensures
        r is Ok <==> is_hex(s@),
        r is Ok ==> r->Ok_0@ == hex_decode(s@),
{
    hex::decode(s)
}

/// Relies on hex::encode: two lowercase digits for each byte, high digit first.
#[verifier::external_body]
pub(crate) fn encode_32(b: &[u8; 32]) -> (r: String)
    ensures
        r@ == hex_encode(b@),
{
    hex::encode(b)
}

/// Decoding hex text of any case and encoding it again gives the same text in
/// lowercase.
pub proof fn lemma_hex_round_trip(s: Seq<char>)
    requires
        is_hex(s),
    ensures
        hex_encode(hex_decode(s)) == hex_lowercase(s),
{
    let d = hex_decode(s);
    let e = hex_encode(d);
    assert(e.len() == s.len());
    assert forall|i: int| 0 <= i < s.len() implies e[i] == hex_lowercase(s)[i] by {
        let j = i / 2;
        let hi = digit_value(s[2 * j]);
        let lo = digit_value(s[2 * j + 1]);
        assert(is_hex_digit(s[2 * j]));
        assert(is_hex_digit(s[2 * j + 1]));
        assert(0 <= hi < 16 && 0 <= lo < 16);
        assert(0 <= 16 * hi + lo < 256) by (nonlinear_arith)
            requires 0 <= hi < 16, 0 <= lo < 16;
        assert((16 * hi + lo) / 16 == hi && (16 * hi + lo) % 16 == lo) by (nonlinear_arith)
            requires 0 <= hi < 16, 0 <= lo < 16;
        assert(d[j] as int == 16 * hi + lo);
        if i % 2 == 0 {
            assert(i == 2 * j);
        } else {
            assert(i == 2 * j + 1);
        }
    }
    assert(e =~= hex_lowercase(s));
}

} // verus!
