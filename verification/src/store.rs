//! The remote durable store, modeled as a map from keys to byte contents.
//! The store itself is an external collaborator reached from the unverified
//! shell; these are the rules its use is held to.

use vstd::prelude::*;
use vstd::string::*;

verus! {

/// The remote key an identity is stored under: every object lives beneath
/// the `images/` prefix.
pub open spec fn remote_key_spec(id: Seq<char>) -> Seq<char> {
    "images/"@ + id
}

/// The remote key for an identity, executable form.
pub fn remote_key(identity: &str) -> (r: String)
    ensures
        r@ == remote_key_spec(identity@),
{
    String::from_str("images/").concat(identity)
}

/// What a successful put leaves visible: the key maps to exactly the bytes
/// written, and no other key changes.
pub open spec fn put_spec(
    store: Map<Seq<char>, Seq<u8>>,
    key: Seq<char>,
    bytes: Seq<u8>,
) -> Map<Seq<char>, Seq<u8>> {
    store.insert(key, bytes)
}

/// What a get returns: the bytes under the key when the object exists,
/// nothing otherwise (the caller translates that into not-found).
pub open spec fn get_spec(store: Map<Seq<char>, Seq<u8>>, key: Seq<char>) -> Option<Seq<u8>> {
    if store.dom().contains(key) {
        Some(store[key])
    } else {
        None
    }
}

/// Re-upload of already-present content is a safe overwrite: a second put of
/// the same bytes under the same key leaves the store exactly as the first
/// did, and the object remains fetchable with those bytes.
pub proof fn lemma_reupload_safe(store: Map<Seq<char>, Seq<u8>>, key: Seq<char>, bytes: Seq<u8>)
    ensures
        ({
            let once = put_spec(store, key, bytes);
            let twice = put_spec(once, key, bytes);
            &&& twice == once
            &&& get_spec(twice, key) == Some(bytes)
        }),
{
    let once = put_spec(store, key, bytes);
    let twice = put_spec(once, key, bytes);
    assert(twice =~= once);
}

} // verus!
