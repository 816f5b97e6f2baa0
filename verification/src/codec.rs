//! Text encodings the client takes from outside crates: Base64 for the
//! OAuth credentials header and percent-encoding for symbols in URL paths.

use vstd::prelude::*;
use vstd::utf8::encode_utf8;
use base64::Engine;

verus! {

/// The character of the standard Base64 alphabet numbered `d` (below 64):
/// capital letters, small letters, digits, `+` and `/`.
pub open spec fn base64_char(d: int) -> char {
    if d < 26 {
        (65 + d) as char
    } else if d < 52 {
        (97 + d - 26) as char
    } else if d < 62 {
        (48 + d - 52) as char
    } else if d == 62 {
        '+'
    } else {
        '/'
    }
}

/// Standard Base64 of bytes: each group of three bytes becomes four
/// characters of six bits each; a last group of one or two bytes is filled
/// with zero bits and padded with `=` to four characters.
pub open spec fn base64_bytes(b: Seq<u8>) -> Seq<char>
    decreases b.len(),
{
    if b.len() == 0 {
        seq![]
    } else if b.len() == 1 {
        let x = b[0] as int;
        seq![base64_char(x / 4), base64_char((x % 4) * 16), '=', '=']
    } else if b.len() == 2 {
        let (x, y) = (b[0] as int, b[1] as int);
        seq![base64_char(x / 4), base64_char((x % 4) * 16 + y / 16), base64_char((y % 16) * 4), '=']
    } else {
        let (x, y, z) = (b[0] as int, b[1] as int, b[2] as int);
        seq![
            base64_char(x / 4),
            base64_char((x % 4) * 16 + y / 16),
            base64_char((y % 16) * 4 + z / 64),
            base64_char(z % 64),
        ] + base64_bytes(b.subrange(3, b.len() as int))
    }
}

/// The standard (padded) Base64 encoding of the UTF-8 bytes of `text`.
pub open spec fn base64_standard(text: Seq<char>) -> Seq<char> {
    base64_bytes(encode_utf8(text))
}

/// Bytes that percent-encoding leaves as they are: ASCII letters and
/// digits, `-`, `.`, `_` and `~`.
pub open spec fn url_unreserved(b: u8) -> bool {
    (48 <= b <= 57) || (65 <= b <= 90) || (97 <= b <= 122) || b == 45 || b == 46 || b == 95 || b == 126
}

/// The character of a hexadecimal digit `0..16`, capital letters for ten
/// and above.
pub open spec fn hex_digit(d: int) -> char {
    if d < 10 {
        (48 + d) as char
    } else {
        (55 + d) as char
    }
}

/// Percent-encoding of bytes: an unreserved byte stands for itself, any
/// other byte becomes `%` followed by its two hexadecimal digits.
pub open spec fn percent_encoded(bytes: Seq<u8>) -> Seq<char>
    decreases bytes.len(),
{
    if bytes.len() == 0 {
        seq![]
    } else {
        let b = bytes.last();
        percent_encoded(bytes.drop_last()) + if url_unreserved(b) {
            seq![b as char]
        } else {
            seq!['%', hex_digit(b as int / 16), hex_digit(b as int % 16)]
        }
    }
}

/// `urlencoding::encode` of `text`: the percent-encoding of its UTF-8 bytes.
pub open spec fn url_encoded(text: Seq<char>) -> Seq<char> {
    percent_encoded(encode_utf8(text))
}

/// Calls `base64::engine::general_purpose::STANDARD.encode` on the UTF-8 bytes
/// of `text`. Claimed: the result is their standard padded Base64 encoding,
/// as `base64_bytes` writes it (the `STANDARD` engine's alphabet and padding).
/// The length bound keeps the crate's output-size computation from
/// overflowing, where it panics.
#[verifier::external_body]
pub fn base64_encode(text: &str) -> (s: String)
    requires
        text@.len() <= 1_000_000,
    ensures
        s@ == base64_standard(text@),
{
    base64::engine::general_purpose::STANDARD.encode(text)
}

/// Calls `urlencoding::encode` and takes the text it gives. Claimed: it
/// percent-encodes every UTF-8 byte of the text except ASCII letters,
/// digits, `-`, `.`, `_` and `~`, writing the byte as `%` and two capital
/// hexadecimal digits (the crate's `encode_into` and `to_hex_digit`).
#[verifier::external_body]
pub fn url_encode(text: &str) -> (s: String)
    ensures
        s@ == url_encoded(text@),
{
    urlencoding::encode(text).into_owned()
}

} // verus!
