//! Content-derived asset identity: `<hex-digest>.<extension>`.

use vstd::prelude::*;
use vstd::string::*;

use crate::text::push_char;

verus! {

/// The lowercase hexadecimal form of the blake3 digest of a byte sequence.
pub uninterp spec fn blake3_hex_of(bytes: Seq<u8>) -> Seq<char>;

/// A lowercase hexadecimal digit.
pub open spec fn is_lower_hex_digit(c: char) -> bool {
    ('0' <= c && c <= '9') || ('a' <= c && c <= 'f')
}

/// Relies on blake3::hash and blake3::Hash::to_hex: the digest is a function
/// of the input bytes alone, and its hex form is 64 lowercase hexadecimal
/// digits (two per byte of the 256-bit digest). Digest computation cannot
/// fail for any byte sequence.
#[verifier::external_body]
fn blake3_hex(data: &[u8]) -> (r: String)
    ensures
        r@ == blake3_hex_of(data@),
        r@.len() == 64,
        forall|i: int| 0 <= i < r@.len() ==> is_lower_hex_digit(r@[i]),
{
    blake3::hash(data).to_hex().as_str().to_string()
}

/// The identity under which content with a claimed extension is stored.
pub open spec fn identity_spec(bytes: Seq<u8>, ext: Seq<char>) -> Seq<char> {
    blake3_hex_of(bytes) + seq!['.'] + ext
}

/// Derive the canonical identity of a payload: its digest, a period, and the
/// claimed extension, taken verbatim.
pub fn derive_identity(data: &[u8], extension: &str) -> (r: String)
    ensures
        r@ == identity_spec(data@, extension@),
        r@.len() == 65 + extension@.len(),
{
    let mut digest = blake3_hex(data);
    push_char(&mut digest, '.');
    let r = digest.concat(extension);
    proof {
        assert(r@ =~= identity_spec(data@, extension@));
    }
    r
}

/// Content addressing is deterministic: the same bytes with the same claimed
/// extension always yield the same identity.
pub proof fn lemma_identity_deterministic(
    bytes1: Seq<u8>,
    ext1: Seq<char>,
    bytes2: Seq<u8>,
    ext2: Seq<char>,
)
    requires
        bytes1 == bytes2,
        ext1 == ext2,
    ensures
        identity_spec(bytes1, ext1) == identity_spec(bytes2, ext2),
{
}

} // verus!
