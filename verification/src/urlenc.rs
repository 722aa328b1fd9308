//! Percent-encoding of query-string values.
//!
//! A value is encoded byte by byte over its UTF-8 form: unreserved bytes
//! stand as they are, every other byte becomes `%` and two upper-case hex
//! digits.

use vstd::prelude::*;
use vstd::string::StringSliceAdditionalSpecFns;
use vstd::utf8::encode_utf8;

verus! {

/// An unreserved byte is kept as it is in a query string: ASCII letters,
/// digits, `-`, `_`, `.` and `~`.
pub open spec fn is_unreserved(b: u8) -> bool {
    (65 <= b && b <= 90) || (97 <= b && b <= 122) || (48 <= b && b <= 57) || b == 45 || b == 95
        || b == 46 || b == 126
}

/// The upper-case hex digit for a value below 16.
pub open spec fn hex_digit(n: u8) -> char
    recommends
        n < 16,
{
    if n < 10 {
        ((48 + n) as u8) as char
    } else {
        ((55 + n) as u8) as char
    }
}

/// What one byte contributes to the encoded value.
pub open spec fn enc_byte(b: u8) -> Seq<char> {
    if is_unreserved(b) {
        seq![b as char]
    } else {
        seq!['%', hex_digit(b / 16), hex_digit(b % 16)]
    }
}

/// The encoding of a byte sequence: each byte's contribution, in order.
pub open spec fn enc_bytes(bs: Seq<u8>) -> Seq<char>
    decreases bs.len(),
{
    if bs.len() == 0 {
        Seq::empty()
    } else {
        enc_byte(bs[0]) + enc_bytes(bs.drop_first())
    }
}

/// The percent-encoding of a string, over its UTF-8 bytes.
pub open spec fn enc_str(s: Seq<char>) -> Seq<char> {
    enc_bytes(encode_utf8(s))
}

/// The characters that a sequence of ASCII bytes spells.
pub open spec fn chars_of(bs: Seq<u8>) -> Seq<char> {
    bs.map(|_i: int, b: u8| b as char)
}

pub proof fn lemma_enc_bytes_push(bs: Seq<u8>, b: u8)
    ensures
        enc_bytes(bs.push(b)) == enc_bytes(bs) + enc_byte(b),
    decreases bs.len(),
{
    if bs.len() == 0 {
        assert(bs.push(b).drop_first() =~= Seq::<u8>::empty());
        assert(bs.push(b)[0] == b);
        assert(enc_bytes(bs.push(b)) == enc_byte(b) + enc_bytes(Seq::<u8>::empty()));
        assert(enc_byte(b) + enc_bytes(Seq::<u8>::empty()) =~= enc_byte(b));
        assert(enc_bytes(bs) + enc_byte(b) =~= enc_byte(b));
    } else {
        assert(bs.push(b).drop_first() =~= bs.drop_first().push(b));
        lemma_enc_bytes_push(bs.drop_first(), b);
        assert(enc_bytes(bs.push(b)) =~= enc_bytes(bs) + enc_byte(b));
    }
}

/// What one byte contributes never holds `&`, `=` or `?`: an encoded
/// value cannot run into the next parameter or add one of its own.
pub proof fn lemma_enc_byte_delimiter_free(b: u8)
    ensures
        forall|i: int|
            0 <= i < enc_byte(b).len() ==> enc_byte(b)[i] != '&' && enc_byte(b)[i] != '='
                && enc_byte(b)[i] != '?',
{
}

/// An encoded value never holds `&`, `=` or `?`: the delimiters of a
/// query string come from its parameters alone.
pub proof fn lemma_enc_bytes_delimiter_free(bs: Seq<u8>)
    ensures
        forall|i: int|
            0 <= i < enc_bytes(bs).len() ==> enc_bytes(bs)[i] != '&' && enc_bytes(bs)[i] != '='
                && enc_bytes(bs)[i] != '?',
    decreases bs.len(),
{
    if bs.len() == 0 {
    } else {
        lemma_enc_byte_delimiter_free(bs[0]);
        lemma_enc_bytes_delimiter_free(bs.drop_first());
        assert(enc_bytes(bs) == enc_byte(bs[0]) + enc_bytes(bs.drop_first()));
    }
}

/// The percent-encoding of a string never holds `&`, `=` or `?`.
pub proof fn lemma_enc_str_delimiter_free(s: Seq<char>)
    ensures
        forall|i: int|
            0 <= i < enc_str(s).len() ==> enc_str(s)[i] != '&' && enc_str(s)[i] != '=' && enc_str(
                s,
            )[i] != '?',
{
    lemma_enc_bytes_delimiter_free(encode_utf8(s));
}

fn unreserved(b: u8) -> (r: bool)
    ensures
        r == is_unreserved(b),
{
    (65 <= b && b <= 90) || (97 <= b && b <= 122) || (48 <= b && b <= 57) || b == 45 || b == 95
        || b == 46 || b == 126
}

fn hex_char(n: u8) -> (r: u8)
    requires
        n < 16,
    ensures
        r as char == hex_digit(n),
        r < 128,
{
    if n < 10 {
        48 + n
    } else {
        55 + n
    }
}

/// Relies on String::from_utf8: a vector of bytes below 128 is valid
/// UTF-8, and the string is exactly those bytes read as characters.
#[verifier::external_body]
fn ascii_to_string(v: Vec<u8>) -> (r: String)
    requires
        forall|i: int| 0 <= i < v@.len() ==> v@[i] < 128,
    ensures
        r@ == chars_of(v@),
{
    String::from_utf8(v).unwrap_or_default()
}

/// Percent-encode a string for use as a query-string value.
pub fn qs_encode(s: &str) -> (r: String)
    ensures
        r@ == enc_str(s@),
{
    let bytes: &[u8] = s.as_bytes();
    let n: usize = bytes.len();
    let mut out: Vec<u8> = Vec::new();
    let mut i: usize = 0;
    while i < n
        invariant
            n == bytes@.len(),
            i <= n,
            bytes@ == s.spec_bytes(),
            chars_of(out@) == enc_bytes(bytes@.take(i as int)),
            forall|j: int| 0 <= j < out@.len() ==> out@[j] < 128,
        decreases n - i,
    {
        let b = bytes[i];
        let ghost prev = out@;
        if unreserved(b) {
            out.push(b);
            assert(chars_of(out@) =~= chars_of(prev) + enc_byte(b));
        } else {
            out.push(37);
            out.push(hex_char(b / 16));
            out.push(hex_char(b % 16));
            assert(37 as char == '%');
            assert(chars_of(out@) =~= chars_of(prev) + enc_byte(b));
        }
        proof {
            lemma_enc_bytes_push(bytes@.take(i as int), b);
            assert(bytes@.take(i + 1) =~= bytes@.take(i as int).push(bytes@[i as int]));
        }
        i = i + 1;
    }
    proof {
        assert(bytes@.take(n as int) =~= bytes@);
    }
    ascii_to_string(out)
}

} // verus!
