//! The digest engine: a content identifier computed from the uploaded
//! bytes alone.
//!
//! The identifier is the SHA-224 hash of the exact byte sequence, rendered
//! in unpadded URL-safe base64.  Identical bytes always render to the
//! identical token, and the token is drawn entirely from the safe alphabet.

use vstd::prelude::*;
use sha2::Digest;
use crate::encoding::ascii_chars;
use crate::encoding::base64_encode;
use crate::encoding::is_safe_byte;
use crate::encoding::lemma_base64url_len;
use crate::encoding::lemma_base64url_safe;
use crate::encoding::spec_base64url;
use crate::ident::is_safe_char;
use crate::ident::is_safe_identifier;

verus! {

/// The SHA-224 hash of a byte sequence.  Its value is not written out
/// here; it is pinned only as a function of the input bytes, which is what
/// content addressing rests on.
pub uninterp spec fn sha224_of(data: Seq<u8>) -> Seq<u8>;

/// Relies on sha2::Sha224 through the Digest trait's one-shot `digest`:
/// the hash depends on the input bytes alone, and SHA-224 output is 224
/// bits, that is 28 bytes.
#[verifier::external_body]
fn sha224(bytes: &[u8]) -> (r: Vec<u8>)
    ensures
        r@ == sha224_of(bytes@),
        r@.len() == 28,
{
    sha2::Sha224::digest(bytes).to_vec()
}

/// The identifier of a byte sequence: its SHA-224 hash in unpadded
/// URL-safe base64.
pub open spec fn spec_identifier(data: Seq<u8>) -> Seq<char> {
    ascii_chars(spec_base64url(sha224_of(data)))
}

/// Computes the identifier of the given bytes: always 38 characters, the
/// unpadded rendering of the 28 digest bytes.
pub fn hash_bytes(bytes: &Vec<u8>) -> (r: String)
    ensures
        r@ == spec_identifier(bytes@),
        r@.len() == 38,
{
    let digest_bytes = sha224(bytes.as_slice());
    proof {
        lemma_base64url_len(digest_bytes@);
    }
    base64_encode(digest_bytes)
}

/// Determinism: the identifier depends on the content bytes alone, so
/// repeated uploads of equal bytes always name the same object.
pub proof fn lemma_identifier_deterministic(a: Seq<u8>, b: Seq<u8>)
    requires
        a == b,
    ensures
        spec_identifier(a) == spec_identifier(b),
{
}

/// Identifier safety: every character of an identifier lies in the safe
/// alphabet, so the token can stand as a path component and as a URL path
/// segment with no escaping.
pub proof fn lemma_identifier_safe(data: Seq<u8>)
    ensures
        is_safe_identifier(spec_identifier(data)),
{
    let rendered = spec_base64url(sha224_of(data));
    lemma_base64url_safe(sha224_of(data));
    assert forall|i: int| 0 <= i < spec_identifier(data).len() implies is_safe_char(
        #[trigger] spec_identifier(data)[i],
    ) by {
        assert(is_safe_byte(rendered[i]));
        assert(spec_identifier(data)[i] == rendered[i] as char);
    }
}

} // verus!
