//! Digests and their textual forms.

use vstd::prelude::*;

verus! {

/// The SHA-256 digest of a byte string.
pub uninterp spec fn sha256_of(message: Seq<u8>) -> Seq<u8>;

/// `sha2::Sha256::digest`: the digest depends on the message alone and is 32 bytes long.
#[verifier::external_body]
fn sha256(message: &[u8]) -> (digest: Vec<u8>)
    ensures
        digest@ == sha256_of(message@),
        digest@.len() == 32,
{
    <sha2::Sha256 as sha2::Digest>::digest(message).to_vec()
}

/// The lower-case hexadecimal digit of a value below sixteen.
pub open spec fn hex_digit(value: int) -> char {
    if value < 10 {
        (48 + value) as char
    } else {
        (87 + value) as char
    }
}

/// Whether a character is a lower-case hexadecimal digit.
pub open spec fn is_hex_digit(character: char) -> bool {
    '0' <= character <= '9' || 'a' <= character <= 'f'
}

/// Two lower-case hexadecimal digits for every byte, the high half first.
pub open spec fn hex_text(bytes: Seq<u8>) -> Seq<char> {
    Seq::new(
        2 * bytes.len(),
        |i: int| hex_digit(if i % 2 == 0 { bytes[i / 2] as int / 16 } else { bytes[i / 2] as int % 16 }),
    )
}

/// `hex::encode`: every byte becomes two lower-case hexadecimal digits.
#[verifier::external_body]
fn hex_encode(bytes: &[u8]) -> (text: String)
    ensures
        text@ == hex_text(bytes@),
{
    hex::encode(bytes)
}

/// The text of a SHA-256 digest.
pub open spec fn sha256_hex_of(message: Seq<u8>) -> Seq<char> {
    hex_text(sha256_of(message))
}

/// The SHA-256 digest of `bytes`, as 64 lower-case hexadecimal digits.
pub fn sha256_hex(bytes: &[u8]) -> (text: String)
    ensures
        text@ == sha256_hex_of(bytes@),
        text@.len() == 64,
        forall|i: int| 0 <= i < text@.len() ==> is_hex_digit(#[trigger] text@[i]),
{
    let digest = sha256(bytes);
    let text = hex_encode(&digest);
    assert forall|i: int| 0 <= i < text@.len() implies is_hex_digit(#[trigger] text@[i]) by {
        let byte = digest@[i / 2] as int;
        assert(0 <= byte / 16 < 16 && 0 <= byte % 16 < 16);
    }
    text
}

/// The character that stands for six bits in standard base64.
pub open spec fn base64_digit(value: int) -> char {
    if value < 26 {
        (65 + value) as char
    } else if value < 52 {
        (71 + value) as char
    } else if value < 62 {
        (value - 4) as char
    } else if value == 62 {
        '+'
    } else {
        '/'
    }
}

/// The byte at a position, or zero behind the end.
pub open spec fn byte_at(bytes: Seq<u8>, at: int) -> int {
    if at < bytes.len() {
        bytes[at] as int
    } else {
        0
    }
}

/// A byte string in padded standard base64: every three bytes, read from the highest bit down, are
/// four characters of six bits each, and what lies behind the end of the bytes is `=`.
pub open spec fn base64_of(bytes: Seq<u8>) -> Seq<char> {
    Seq::new(
        4 * ((bytes.len() + 2) / 3),
        |i: int|
            {
                let first = byte_at(bytes, 3 * (i / 4));
                let second = byte_at(bytes, 3 * (i / 4) + 1);
                let third = byte_at(bytes, 3 * (i / 4) + 2);
                if 6 * i >= 8 * bytes.len() {
                    '='
                } else if i % 4 == 0 {
                    base64_digit(first / 4)
                } else if i % 4 == 1 {
                    base64_digit(first % 4 * 16 + second / 16)
                } else if i % 4 == 2 {
                    base64_digit(second % 16 * 4 + third / 64)
                } else {
                    base64_digit(third % 64)
                }
            },
    )
}

/// `base64::engine::general_purpose::STANDARD.encode`: the bytes in padded standard base64.
#[verifier::external_body]
pub(crate) fn base64_text(bytes: &[u8]) -> (text: String)
    ensures
        text@ == base64_of(bytes@),
{
    base64::Engine::encode(&base64::engine::general_purpose::STANDARD, bytes)
}

/// Distinct digests have distinct texts.
pub proof fn hex_text_is_injective(left: Seq<u8>, right: Seq<u8>)
    ensures
        hex_text(left) == hex_text(right) ==> left == right,
{
    if hex_text(left) == hex_text(right) {
        assert(left.len() == right.len()) by {
            assert(hex_text(left).len() == 2 * left.len());
            assert(hex_text(right).len() == 2 * right.len());
        }
        assert forall|k: int| 0 <= k < left.len() implies left[k] == right[k] by {
            assert(hex_text(left)[2 * k] == hex_text(right)[2 * k]);
            assert(hex_text(left)[2 * k + 1] == hex_text(right)[2 * k + 1]);
            assert((2 * k) / 2 == k && (2 * k) % 2 == 0 && (2 * k + 1) / 2 == k && (2 * k + 1) % 2 == 1);
            let (a, b) = (left[k] as int, right[k] as int);
            assert(hex_digit(a / 16) == hex_digit(b / 16));
            assert(hex_digit(a % 16) == hex_digit(b % 16));
            assert(0 <= a / 16 < 16 && 0 <= b / 16 < 16);
            assert(a / 16 == b / 16);
            assert(a % 16 == b % 16);
        }
        assert(left =~= right);
    }
}

} // verus!
