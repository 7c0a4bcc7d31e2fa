//! Percent-encoding of URL components, and the decoding that undoes it.

use vstd::prelude::*;
use vstd::utf8::{decode_utf8, encode_utf8, encode_utf8_decode_utf8};

verus! {

/// Characters that percent-encoding leaves as they are: ASCII letters,
/// digits and `-`, `.`, `_`, `~`.
pub open spec fn is_unreserved(c: char) -> bool {
    ||| ('0' <= c && c <= '9')
    ||| ('A' <= c && c <= 'Z')
    ||| ('a' <= c && c <= 'z')
    ||| c == '-'
    ||| c == '.'
    ||| c == '_'
    ||| c == '~'
}

/// An upper-case hexadecimal digit.
pub open spec fn hex_upper(n: nat) -> char
    recommends
        n < 16,
{
    if n < 10 {
        ((n + 48) as u8) as char
    } else {
        ((n + 55) as u8) as char
    }
}

pub open spec fn is_hex_upper(c: char) -> bool {
    ('0' <= c && c <= '9') || ('A' <= c && c <= 'F')
}

/// The value of an upper-case hexadecimal digit.
pub open spec fn hex_value(c: char) -> nat {
    if (c as u32) <= 57 {
        ((c as u32) - 48) as nat
    } else {
        ((c as u32) - 55) as nat
    }
}

/// One byte, percent-encoded: an unreserved ASCII byte stands for itself,
/// any other becomes `%` and two upper-case hex digits.
pub open spec fn percent_byte(b: u8) -> Seq<char> {
    if is_unreserved(b as char) {
        seq![b as char]
    } else {
        seq!['%', hex_upper((b / 16) as nat), hex_upper((b % 16) as nat)]
    }
}

/// A run of bytes, percent-encoded byte by byte.
pub open spec fn percent_bytes(bytes: Seq<u8>) -> Seq<char>
    decreases bytes.len(),
{
    if bytes.len() == 0 {
        seq![]
    } else {
        percent_byte(bytes[0]) + percent_bytes(bytes.drop_first())
    }
}

/// A text percent-encoded over its UTF-8 bytes.
pub open spec fn percent_encoded(s: Seq<char>) -> Seq<char> {
    percent_bytes(encode_utf8(s))
}

/// The text holds only unreserved characters and `%` escapes of two
/// upper-case hex digits.
pub open spec fn escapes_only(t: Seq<char>) -> bool
    decreases t.len(),
{
    if t.len() == 0 {
        true
    } else if t[0] == '%' {
        t.len() >= 3 && is_hex_upper(t[1]) && is_hex_upper(t[2]) && escapes_only(
            t.subrange(3, t.len() as int),
        )
    } else {
        is_unreserved(t[0]) && escapes_only(t.subrange(1, t.len() as int))
    }
}

/// The bytes that a percent-encoded text stands for.
pub open spec fn percent_decode(t: Seq<char>) -> Seq<u8>
    decreases t.len(),
{
    if t.len() == 0 {
        seq![]
    } else if t[0] == '%' && t.len() >= 3 {
        seq![(hex_value(t[1]) * 16 + hex_value(t[2])) as u8] + percent_decode(
            t.subrange(3, t.len() as int),
        )
    } else {
        seq![t[0] as u8] + percent_decode(t.subrange(1, t.len() as int))
    }
}

proof fn lemma_byte_step(b: u8, rest: Seq<char>)
    ensures
        percent_decode(percent_byte(b) + rest) == seq![b] + percent_decode(rest),
        escapes_only(rest) ==> escapes_only(percent_byte(b) + rest),
{
    let t = percent_byte(b) + rest;
    let hi = (b / 16) as nat;
    let lo = (b % 16) as nat;
    if is_unreserved(b as char) {
        assert(t[0] == b as char);
        assert(t.subrange(1, t.len() as int) =~= rest);
        assert((b as char) as u8 == b);
    } else {
        assert(t[0] == '%');
        assert(t[1] == hex_upper(hi));
        assert(t[2] == hex_upper(lo));
        assert(t.subrange(3, t.len() as int) =~= rest);
        assert(hex_value(hex_upper(hi)) == hi && is_hex_upper(hex_upper(hi)));
        assert(hex_value(hex_upper(lo)) == lo && is_hex_upper(hex_upper(lo)));
        assert(hi * 16 + lo == b) by (nonlinear_arith)
            requires
                hi == b / 16,
                lo == b % 16,
        ;
    }
}

proof fn lemma_bytes_round_trip(bytes: Seq<u8>)
    ensures
        escapes_only(percent_bytes(bytes)),
        percent_decode(percent_bytes(bytes)) == bytes,
    decreases bytes.len(),
{
    if bytes.len() > 0 {
        lemma_bytes_round_trip(bytes.drop_first());
        lemma_byte_step(bytes[0], percent_bytes(bytes.drop_first()));
        assert(seq![bytes[0]] + bytes.drop_first() =~= bytes);
    }
}

/// Percent-encoding a text leaves only unreserved characters and `%`
/// escapes, and decoding it gives back the text's UTF-8 bytes, which read
/// as UTF-8 give back the text.
pub proof fn lemma_percent_round_trip(s: Seq<char>)
    ensures
        escapes_only(percent_encoded(s)),
        percent_decode(percent_encoded(s)) == encode_utf8(s),
        decode_utf8(percent_decode(percent_encoded(s))) == s,
{
    lemma_bytes_round_trip(encode_utf8(s));
    encode_utf8_decode_utf8(s);
}

/// Relies on `urlencoding::encode`: every UTF-8 byte but ASCII letters,
/// digits and `-`, `.`, `_`, `~` becomes `%` and two upper-case hex digits.
#[verifier::external_body]
pub(crate) fn url_encode(s: &str) -> (r: String)
    ensures
        r@ == percent_encoded(s@),
{
    urlencoding::encode(s).into_owned()
}

} // verus!
