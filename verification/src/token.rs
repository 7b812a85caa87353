//! The engine's authentication credential: 32 random bytes, URL-safe
//! base64-encoded without padding, held only in memory.

use vstd::prelude::*;

verus! {

/// A character of the URL-safe base64 alphabet of RFC 4648 section 5
/// (`A`-`Z`, `a`-`z`, `0`-`9`, `-`, `_`).
pub open spec fn is_b64url_char(c: char) -> bool {
    ('A' <= c && c <= 'Z') || ('a' <= c && c <= 'z') || ('0' <= c && c <= '9') || c == '-' || c
        == '_'
}

/// A well-formed credential: the unpadded URL-safe base64 encoding of
/// 32 bytes, hence 43 characters, all from the URL-safe alphabet.
pub open spec fn token_wf(s: Seq<char>) -> bool {
    &&& s.len() == 43
    &&& forall|i: int| 0 <= i < s.len() ==> is_b64url_char(#[trigger] s[i])
}

/// The URL-safe, unpadded base64 encoding of a byte sequence.
pub uninterp spec fn b64url_of(bytes: Seq<u8>) -> Seq<char>;

/// Relies on rand::random with the thread-local generator, a cryptographically
/// secure source, to draw 32 bytes. Nothing is promised of the values drawn.
#[verifier::external_body]
fn random_bytes32() -> (r: Vec<u8>)
    ensures
        r@.len() == 32,
{
    rand::random::<[u8; 32]>().to_vec()
}

/// Relies on base64's URL_SAFE_NO_PAD engine: it encodes with the RFC 4648
/// URL-safe alphabet (`A`-`Z`, `a`-`z`, `0`-`9`, `-`, `_`), appends no padding,
/// and the unpadded encoding of `n` bytes has `(4 * n + 2) / 3` characters.
#[verifier::external_body]
fn base64_url_nopad(bytes: &Vec<u8>) -> (r: String)
    ensures
        r@ == b64url_of(bytes@),
        r@.len() == (4 * bytes@.len() + 2) / 3,
        forall|i: int| 0 <= i < r@.len() ==> is_b64url_char(#[trigger] r@[i]),
{
    base64::Engine::encode(&base64::engine::general_purpose::URL_SAFE_NO_PAD, bytes.as_slice())
}

/// Produces a fresh opaque credential: 32 cryptographically random bytes,
/// URL-safe base64-encoded without padding. Whatever bytes the generator
/// draws, the result is the encoding of some 32-byte sequence.
pub fn generate_token() -> (r: String)
    ensures
        token_wf(r@),
        exists|b: Seq<u8>| b.len() == 32 && r@ == b64url_of(b),
{
    let bytes = random_bytes32();
    let r = base64_url_nopad(&bytes);
    proof {
        assert(bytes@.len() == 32 && r@ == b64url_of(bytes@));
    }
    r
}

/// A well-formed credential is URL-safe and unpadded: 43 characters long,
/// never containing `'+'`, `'/'` or `'='`.
pub proof fn lemma_token_url_safe(s: Seq<char>)
    requires
        token_wf(s),
    ensures
        s.len() == 43,
        forall|i: int| 0 <= i < s.len() ==> s[i] != '+' && s[i] != '/' && s[i] != '=',
{
    assert forall|i: int| 0 <= i < s.len() implies s[i] != '+' && s[i] != '/' && s[i]
        != '=' by {
        assert(is_b64url_char(s[i]));
    }
}

} // verus!
