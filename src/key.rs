//! Cache-key derivation: the lower-case hex form of the SHA-256 digest of a
//! request path's UTF-8 bytes.
use sha2::Digest;
use vstd::prelude::*;
use vstd::utf8::encode_utf8;
use vstd::string::StringSliceAdditionalSpecFns;

verus! {

/// The SHA-256 digest of a byte string.
pub uninterp spec fn sha256_of(b: Seq<u8>) -> Seq<u8>;

/// The lower-case hexadecimal digit for a value below sixteen.
pub open spec fn hex_digit(n: u8) -> char {
    seq!['0', '1', '2', '3', '4', '5', '6', '7', '8', '9', 'a', 'b', 'c', 'd', 'e', 'f'][n as int]
}

/// Two lower-case hex digits per byte, high nibble first.
pub open spec fn hex_lower(b: Seq<u8>) -> Seq<char>
    decreases b.len(),
{
    if b.len() == 0 {
        Seq::empty()
    } else {
        seq![hex_digit(b[0] / 16), hex_digit(b[0] % 16)] + hex_lower(b.drop_first())
    }
}

/// The cache key of a request path given in its canonical string form.
pub open spec fn cache_key(path: Seq<char>) -> Seq<char> {
    hex_lower(sha256_of(encode_utf8(path)))
}

/// Whether a character is a lower-case hexadecimal digit.
pub open spec fn is_hex_char(c: char) -> bool {
    ('0' <= c && c <= '9') || ('a' <= c && c <= 'f')
}

/// Relies on sha2's `Sha256::digest`: the 32-byte SHA-256 digest of the input.
#[verifier::external_body]
fn sha256(b: &[u8]) -> (r: Vec<u8>)
    ensures
        r@ == sha256_of(b@),
        r@.len() == 32,
{
    sha2::Sha256::digest(b).to_vec()
}

/// Relies on base16ct's `lower::encode_string`: lower-case hex, two digits per
/// byte, high nibble first.
#[verifier::external_body]
fn lower_hex(b: &[u8]) -> (r: String)
    ensures
        r@ == hex_lower(b@),
{
    base16ct::lower::encode_string(b)
}

/// The hex form has two digits for each byte, each a lower-case hex digit.
pub proof fn lemma_hex_lower_shape(b: Seq<u8>)
    ensures
        hex_lower(b).len() == 2 * b.len(),
        forall|i: int| 0 <= i < hex_lower(b).len() ==> is_hex_char(#[trigger] hex_lower(b)[i]),
    decreases b.len(),
{
    if b.len() > 0 {
        lemma_hex_lower_shape(b.drop_first());
        let hi = b[0] / 16;
        let lo = b[0] % 16;
        assert(is_hex_char(hex_digit(hi)) && is_hex_char(hex_digit(lo))) by {
            let digits = seq!['0', '1', '2', '3', '4', '5', '6', '7', '8', '9', 'a', 'b', 'c', 'd', 'e', 'f'];
            assert(forall|k: int| 0 <= k < 16 ==> is_hex_char(#[trigger] digits[k]));
        }
        let head = seq![hex_digit(hi), hex_digit(lo)];
        let rest = hex_lower(b.drop_first());
        assert forall|i: int| 0 <= i < hex_lower(b).len() implies is_hex_char(#[trigger] hex_lower(b)[i]) by {
            if i >= 2 {
                assert(hex_lower(b)[i] == rest[i - 2]);
            }
        }
    }
}

/// Derives the cache key of a request path: the lower-case hex SHA-256 digest
/// of the path's UTF-8 bytes, 64 hex digits long.
pub fn derive_key(path: &str) -> (r: String)
    ensures
        r@ == cache_key(path@),
        r@.len() == 64,
        forall|i: int| 0 <= i < r@.len() ==> is_hex_char(#[trigger] r@[i]),
{
    let digest = sha256(path.as_bytes());
    let r = lower_hex(digest.as_slice());
    proof {
        lemma_hex_lower_shape(digest@);
    }
    r
}

/// Key derivation is deterministic and pure: equal request paths always give
/// the same key, so deriving it twice for one path gives one key.
pub proof fn law_key_deterministic(p: Seq<char>, q: Seq<char>)
    requires
        p == q,
    ensures
        cache_key(p) == cache_key(q),
{
}

} // verus!
