//! Digests and text encodings computed by outside crates: SHA-256 (`sha2`),
//! unpadded URL-safe base64 (`base64`) and the hyphenated form of a UUID
//! (`uuid`).

use base64::engine::general_purpose::URL_SAFE_NO_PAD;
use base64::Engine;
use sha2::{Digest, Sha256};
use vstd::prelude::*;

verus! {

/// The SHA-256 digest of `data`.
pub uninterp spec fn spec_sha256(data: Seq<u8>) -> Seq<u8>;

/// The character of the URL-safe base64 alphabet (RFC 4648 §5) for the
/// six-bit value `v`: `A`–`Z`, `a`–`z`, `0`–`9`, then `-` and `_`.
pub open spec fn base64url_char(v: int) -> char {
    if v < 26 {
        (65 + v) as char
    } else if v < 52 {
        (97 + v - 26) as char
    } else if v < 62 {
        (48 + v - 52) as char
    } else if v == 62 {
        '-'
    } else {
        '_'
    }
}

/// `c` is a character of the URL-safe base64 alphabet.
pub open spec fn is_base64url_char(c: char) -> bool {
    ||| 65 <= c as int <= 90
    ||| 97 <= c as int <= 122
    ||| 48 <= c as int <= 57
    ||| c == '-'
    ||| c == '_'
}

/// `data` in URL-safe base64 without `=` padding (RFC 4648 §5): each group
/// of three bytes gives four characters, a last group of one or two bytes
/// gives two or three, its missing low bits zero.
pub open spec fn base64url_text(data: Seq<u8>) -> Seq<char>
    decreases data.len(),
{
    if data.len() == 0 {
        seq![]
    } else if data.len() == 1 {
        seq![base64url_char((data[0] as int) / 4), base64url_char(((data[0] as int) % 4) * 16)]
    } else if data.len() == 2 {
        seq![
            base64url_char((data[0] as int) / 4),
            base64url_char(((data[0] as int) % 4) * 16 + (data[1] as int) / 16),
            base64url_char(((data[1] as int) % 16) * 4),
        ]
    } else {
        seq![
            base64url_char((data[0] as int) / 4),
            base64url_char(((data[0] as int) % 4) * 16 + (data[1] as int) / 16),
            base64url_char(((data[1] as int) % 16) * 4 + (data[2] as int) / 64),
            base64url_char((data[2] as int) % 64),
        ] + base64url_text(data.subrange(3, data.len() as int))
    }
}

/// Every value below 64 has a character of the alphabet.
pub proof fn lemma_base64url_char(v: int)
    requires
        0 <= v < 64,
    ensures
        is_base64url_char(base64url_char(v)),
{
}

/// Unpadded base64 of `n` bytes is `ceil(4n / 3)` characters long, each of
/// the URL-safe alphabet.
pub proof fn lemma_base64url_text(data: Seq<u8>)
    ensures
        base64url_text(data).len() == (4 * data.len() + 2) / 3,
        forall|i: int| 0 <= i < base64url_text(data).len() ==> is_base64url_char(#[trigger] base64url_text(data)[i]),
    decreases data.len(),
{
    let t = base64url_text(data);
    if data.len() == 0 {
    } else if data.len() == 1 {
        lemma_base64url_char((data[0] as int) / 4);
        lemma_base64url_char(((data[0] as int) % 4) * 16);
    } else if data.len() == 2 {
        lemma_base64url_char((data[0] as int) / 4);
        lemma_base64url_char(((data[0] as int) % 4) * 16 + (data[1] as int) / 16);
        lemma_base64url_char(((data[1] as int) % 16) * 4);
    } else {
        let rest = data.subrange(3, data.len() as int);
        lemma_base64url_text(rest);
        lemma_base64url_char((data[0] as int) / 4);
        lemma_base64url_char(((data[0] as int) % 4) * 16 + (data[1] as int) / 16);
        lemma_base64url_char(((data[1] as int) % 16) * 4 + (data[2] as int) / 64);
        lemma_base64url_char((data[2] as int) % 64);
        let head = seq![
            base64url_char((data[0] as int) / 4),
            base64url_char(((data[0] as int) % 4) * 16 + (data[1] as int) / 16),
            base64url_char(((data[1] as int) % 16) * 4 + (data[2] as int) / 64),
            base64url_char((data[2] as int) % 64),
        ];
        assert(t == head + base64url_text(rest));
        assert forall|i: int| 0 <= i < t.len() implies is_base64url_char(#[trigger] t[i]) by {
            if i >= 4 {
                assert(t[i] == base64url_text(rest)[i - 4]);
            }
        }
    }
}

/// `sha2::Sha256::digest`. Trusted: the result is the SHA-256 digest of the
/// input (named, not spelled out), which is 32 bytes long.
#[verifier::external_body]
pub(crate) fn sha256(data: &[u8]) -> (d: Vec<u8>)
    ensures
        d@ == spec_sha256(data@),
        d@.len() == 32,
{
    Sha256::digest(data).to_vec()
}

/// `base64::Engine::encode` with the `URL_SAFE_NO_PAD` engine. Trusted: the
/// result is the unpadded URL-safe base64 text of the input, as RFC 4648
/// §5 defines it.
#[verifier::external_body]
pub(crate) fn base64url(data: &[u8]) -> (s: String)
    ensures
        s@ == base64url_text(data@),
{
    URL_SAFE_NO_PAD.encode(data)
}

/// `16^e`.
pub open spec fn pow16(e: int) -> int
    decreases e,
{
    if e <= 0 {
        1
    } else {
        16 * pow16(e - 1)
    }
}

/// The lowercase hexadecimal digit of `n` (`0 <= n < 16`).
pub open spec fn hex_digit(n: int) -> char {
    if n < 10 {
        (48 + n) as char
    } else {
        (97 + n - 10) as char
    }
}

/// The 32 lowercase hex digits of `bits`, most significant first.
pub open spec fn hex32(bits: u128) -> Seq<char> {
    Seq::new(32, |k: int| hex_digit((bits as int / pow16(31 - k)) % 16))
}

/// The hyphenated lowercase form of a UUID, `8-4-4-4-12` hex digits.
pub open spec fn uuid_text(bits: u128) -> Seq<char> {
    let d = hex32(bits);
    d.subrange(0, 8) + seq!['-'] + d.subrange(8, 12) + seq!['-'] + d.subrange(12, 16) + seq!['-']
        + d.subrange(16, 20) + seq!['-'] + d.subrange(20, 32)
}

/// `uuid::Uuid::from_u128` then `to_string`. Trusted: `Uuid`'s `Display`
/// writes the hyphenated lowercase form of the 128-bit value, most
/// significant digit first.
#[verifier::external_body]
pub(crate) fn uuid_string(bits: u128) -> (s: String)
    ensures
        s@ == uuid_text(bits),
{
    uuid::Uuid::from_u128(bits).to_string()
}

} // verus!
