//! One-way digest of plaintext API keys, rendered as lowercase hexadecimal.

use vstd::prelude::*;

verus! {

/// The SHA-256 digest of a byte string.
pub uninterp spec fn sha256_of(data: Seq<u8>) -> Seq<u8>;

/// The lowercase hexadecimal digit for a value below sixteen.
pub open spec fn hex_digit(v: u8) -> char {
    if v < 10 {
        (('0' as u8) + v) as char
    } else {
        (('a' as u8) + (v - 10)) as char
    }
}

/// Two lowercase hexadecimal digits per byte, high nibble first.
pub open spec fn hex_of(bytes: Seq<u8>) -> Seq<char> {
    Seq::new(
        2 * bytes.len(),
        |i: int|
            if i % 2 == 0 {
                hex_digit(bytes[i / 2] / 16)
            } else {
                hex_digit(bytes[i / 2] % 16)
            },
    )
}

/// A character among `0-9` and `a-f`.
pub open spec fn is_lower_hex(c: char) -> bool {
    ('0' <= c && c <= '9') || ('a' <= c && c <= 'f')
}

/// The digest under which a plaintext key is stored: SHA-256 of its UTF-8
/// encoding, in lowercase hexadecimal.
pub open spec fn key_digest(key: Seq<char>) -> Seq<char> {
    hex_of(sha256_of(vstd::utf8::encode_utf8(key)))
}

/// Relies on `sha2::Sha256::digest`: the digest depends on the bytes alone and
/// is 32 bytes long.
#[verifier::external_body]
pub(crate) fn sha256(data: &[u8]) -> (r: Vec<u8>)
    ensures
        r@ == sha256_of(data@),
        r@.len() == 32,
{
    <sha2::Sha256 as sha2::Digest>::digest(data).to_vec()
}

/// Relies on `hex::encode`: two lowercase hexadecimal digits per byte, high
/// nibble first.
#[verifier::external_body]
pub(crate) fn hex_encode(data: &[u8]) -> (r: String)
    ensures
        r@ == hex_of(data@),
{
    hex::encode(data)
}

proof fn lemma_hex_digit_injective(a: u8, b: u8)
    requires
        a < 16,
        b < 16,
        hex_digit(a) == hex_digit(b),
    ensures
        a == b,
{
}

/// Hex rendering loses nothing: distinct byte strings render differently.
pub proof fn lemma_hex_injective(a: Seq<u8>, b: Seq<u8>)
    requires
        hex_of(a) == hex_of(b),
    ensures
        a == b,
{
    assert(hex_of(a).len() == 2 * a.len());
    assert(hex_of(b).len() == 2 * b.len());
    assert(a.len() == b.len());
    assert forall|j: int| 0 <= j < a.len() implies a[j] == b[j] by {
        assert((2 * j) % 2 == 0 && (2 * j) / 2 == j);
        assert((2 * j + 1) % 2 == 1 && (2 * j + 1) / 2 == j);
        assert(hex_of(a)[2 * j] == hex_digit(a[j] / 16));
        assert(hex_of(b)[2 * j] == hex_digit(b[j] / 16));
        assert(hex_of(a)[2 * j + 1] == hex_digit(a[j] % 16));
        assert(hex_of(b)[2 * j + 1] == hex_digit(b[j] % 16));
        lemma_hex_digit_injective(a[j] / 16, b[j] / 16);
        lemma_hex_digit_injective(a[j] % 16, b[j] % 16);
        let x = a[j];
        let y = b[j];
        assert(x == 16 * (x / 16) + x % 16) by (nonlinear_arith);
        assert(y == 16 * (y / 16) + y % 16) by (nonlinear_arith);
    }
    assert(a =~= b);
}

/// Every digest character is a lowercase hexadecimal digit.
pub proof fn lemma_hex_chars(bytes: Seq<u8>)
    ensures
        forall|i: int| 0 <= i < hex_of(bytes).len() ==> is_lower_hex(#[trigger] hex_of(bytes)[i]),
{
}

/// Two keys share a digest only where the SHA-256 digests of their UTF-8
/// encodings coincide.
pub proof fn lemma_digest_collision(a: Seq<char>, b: Seq<char>)
    requires
        key_digest(a) == key_digest(b),
    ensures
        sha256_of(vstd::utf8::encode_utf8(a)) == sha256_of(vstd::utf8::encode_utf8(b)),
{
    lemma_hex_injective(
        sha256_of(vstd::utf8::encode_utf8(a)),
        sha256_of(vstd::utf8::encode_utf8(b)),
    );
}

} // verus!
