//! Percent-encoding of query text for the search and knowledge-engine URLs.
//! The encoding itself is done by the `urlencoding` crate; this module pins
//! down exactly what that encoding is, and proves that it round-trips.

use vstd::prelude::*;
use vstd::utf8::encode_utf8;
use vstd::utf8::decode_utf8;
use vstd::utf8::encode_utf8_decode_utf8;

verus! {

/// A byte the encoding leaves as it is: ASCII alphanumeric or one of
/// `-`, `.`, `_`, `~`.
pub open spec fn is_unreserved_byte(b: u8) -> bool {
    (48 <= b && b <= 57) || (65 <= b && b <= 90) || (97 <= b && b <= 122) || b == 45 || b == 46
        || b == 95 || b == 126
}

/// The upper-case hexadecimal digit for a value below 16.
pub open spec fn hex_char(d: u8) -> char {
    if d < 10 {
        ((d + 48) as u8) as char
    } else {
        ((d + 55) as u8) as char
    }
}

/// How one byte is encoded: unreserved bytes stand for themselves, every
/// other byte becomes `%` and two upper-case hexadecimal digits.
pub open spec fn encoded_byte(b: u8) -> Seq<char> {
    if is_unreserved_byte(b) {
        seq![b as char]
    } else {
        seq!['%', hex_char(b / 16), hex_char(b % 16)]
    }
}

/// The percent-encoding of a byte sequence.
pub open spec fn percent_encoded(bs: Seq<u8>) -> Seq<char>
    decreases bs.len(),
{
    if bs.len() == 0 {
        Seq::empty()
    } else {
        encoded_byte(bs[0]) + percent_encoded(bs.drop_first())
    }
}

/// The value of one hexadecimal digit character, upper or lower case.
pub open spec fn hex_val(c: char) -> Option<u8> {
    if 48 <= c as u32 && c as u32 <= 57 {
        Some((c as u32 - 48) as u8)
    } else if 65 <= c as u32 && c as u32 <= 70 {
        Some((c as u32 - 55) as u8)
    } else if 97 <= c as u32 && c as u32 <= 102 {
        Some((c as u32 - 87) as u8)
    } else {
        None
    }
}

/// Strict percent-decoding back to bytes: `%` must be followed by two
/// hexadecimal digits, and every plain character must be ASCII.
pub open spec fn percent_decoded(s: Seq<char>) -> Option<Seq<u8>>
    decreases s.len(),
{
    if s.len() == 0 {
        Some(Seq::empty())
    } else if s[0] == '%' {
        if s.len() >= 3 && hex_val(s[1]) is Some && hex_val(s[2]) is Some {
            match percent_decoded(s.skip(3)) {
                Some(rest) => Some(
                    seq![(hex_val(s[1]).unwrap() * 16 + hex_val(s[2]).unwrap()) as u8] + rest,
                ),
                None => None,
            }
        } else {
            None
        }
    } else if (s[0] as u32) < 128 {
        match percent_decoded(s.drop_first()) {
            Some(rest) => Some(seq![s[0] as u8] + rest),
            None => None,
        }
    } else {
        None
    }
}

/// Relies on `urlencoding::encode`: it percent-encodes every byte of the
/// string's UTF-8 form except ASCII alphanumerics and `-`, `.`, `_`, `~`,
/// each encoded byte written as `%` and two upper-case hexadecimal digits.
#[verifier::external_body]
pub(crate) fn percent_encode(s: &str) -> (r: String)
    ensures
        r@ == percent_encoded(encode_utf8(s@)),
{
    urlencoding::encode(s).into_owned()
}

proof fn lemma_percent_decoded_encoded(bs: Seq<u8>)
    ensures
        percent_decoded(percent_encoded(bs)) == Some(bs),
    decreases bs.len(),
{
    if bs.len() == 0 {
        assert(percent_encoded(bs) =~= Seq::<char>::empty());
        assert(bs =~= Seq::<u8>::empty());
    } else {
        let b = bs[0];
        let rest = bs.drop_first();
        lemma_percent_decoded_encoded(rest);
        let e = percent_encoded(bs);
        if is_unreserved_byte(b) {
            assert(e.drop_first() =~= percent_encoded(rest));
            assert((b as char) as u32 == b);
            assert(e[0] != '%');
            assert((e[0] as u32) < 128);
            assert((e[0] as u8) == b);
            assert(seq![b] + rest =~= bs);
        } else {
            assert(e.len() >= 3);
            assert(e[0] == '%');
            assert(e[1] == hex_char(b / 16));
            assert(e[2] == hex_char(b % 16));
            assert(b / 16 < 16 && b % 16 < 16);
            assert(hex_val(hex_char(b / 16)) == Some((b / 16) as u8));
            assert(hex_val(hex_char(b % 16)) == Some((b % 16) as u8));
            assert(e.skip(3) =~= percent_encoded(rest));
            assert((b / 16) * 16 + b % 16 == b) by (nonlinear_arith);
            assert(seq![b] + rest =~= bs);
        }
    }
}

/// The encoding round-trips: percent-decoding an encoded query yields
/// exactly the query's UTF-8 bytes, and those bytes decode back to the
/// original query text.
pub proof fn lemma_percent_round_trip(q: Seq<char>)
    ensures
        percent_decoded(percent_encoded(encode_utf8(q))) == Some(encode_utf8(q)),
        decode_utf8(encode_utf8(q)) == q,
{
    lemma_percent_decoded_encoded(encode_utf8(q));
    encode_utf8_decode_utf8(q);
}

} // verus!
