//! Digests and their hexadecimal form.

use vstd::prelude::*;
use crate::text;

verus! {

/// The SHA-256 digest of bytes.
pub uninterp spec fn sha256_of(data: Seq<u8>) -> Seq<u8>;

/// `sha2::Sha256::digest`, whose result has the name `sha256_of`. It is 32 bytes long.
#[verifier::external_body]
fn sha256(data: &[u8]) -> (r: Vec<u8>)
    ensures
        r@ == sha256_of(data@),
        r@.len() == 32,
{
    <sha2::Sha256 as sha2::Digest>::digest(data).to_vec()
}

/// The small hexadecimal digit of a number below 16.
pub open spec fn hex_digit(n: int) -> char {
    if n < 10 {
        (('0' as int) + n) as char
    } else {
        (('a' as int) + n - 10) as char
    }
}

/// Bytes in hexadecimal: two small digits each, the high one first.
pub open spec fn hex_of(data: Seq<u8>) -> Seq<char> {
    Seq::new(
        2 * data.len(),
        |i: int|
            hex_digit(
                if i % 2 == 0 {
                    data[i / 2] as int / 16
                } else {
                    data[i / 2] as int % 16
                },
            ),
    )
}

/// `hex::encode`: two small hexadecimal digits for each byte, the high one first.
#[verifier::external_body]
pub(crate) fn hex(data: &[u8]) -> (r: String)
    ensures
        r@ == hex_of(data@),
{
    hex::encode(data)
}

/// The SHA-256 digest of a text, in hexadecimal.
pub open spec fn text_digest(t: Seq<char>) -> Seq<char> {
    hex_of(sha256_of(vstd::utf8::encode_utf8(t)))
}

/// The SHA-256 digest of a text, in hexadecimal: 64 digits.
pub fn digest_text(t: &str) -> (r: String)
    ensures
        r@ == text_digest(t@),
        r@.len() == 64,
{
    let d = sha256(t.as_bytes());
    hex(d.as_slice())
}

/// The first `n` characters of the digest of a text.
pub fn short_digest(t: &str, n: usize) -> (r: String)
    requires
        n <= 64,
    ensures
        r@ == text_digest(t@).take(n as int),
{
    let all = digest_text(t);
    let v = text::chars_of(all.as_str());
    text::slice_text(&v, 0, n)
}

/// What a hexadecimal digit in small letters stands for.
pub open spec fn hex_value(c: char) -> int {
    if '0' <= c <= '9' {
        c as int - '0' as int
    } else {
        c as int - 'a' as int + 10
    }
}

/// Two digits stand for each byte, the larger part first, so that every byte can be read back.
pub proof fn law_hexadecimal_can_be_read_back(data: Seq<u8>, i: int)
    requires
        0 <= i < data.len(),
    ensures
        hex_of(data).len() == 2 * data.len(),
        16 * hex_value(hex_of(data)[2 * i]) + hex_value(hex_of(data)[2 * i + 1]) == data[i],
        hex_of(data)[2 * i] <= 'f' && hex_of(data)[2 * i + 1] <= 'f',
{
    let b = data[i] as int;
    assert((2 * i) / 2 == i && (2 * i + 1) / 2 == i);
    assert((2 * i) % 2 == 0 && (2 * i + 1) % 2 == 1);
    assert(0 <= b / 16 < 16 && 0 <= b % 16 < 16 && b == 16 * (b / 16) + b % 16);
    assert(hex_of(data)[2 * i] == hex_digit(b / 16));
    assert(hex_of(data)[2 * i + 1] == hex_digit(b % 16));
}

} // verus!
