//! Upload decisions: the credential check, identity derivation from the
//! payload and the claimed extension, and the client-facing URL.

use vstd::prelude::*;
use vstd::string::*;

use crate::filename::{extension_of, extension_spec};
use crate::identity::{derive_identity, identity_spec};
use crate::store::{remote_key, remote_key_spec};
use crate::text::str_eq;

verus! {

/// Whether the presented credential matches the configured shared secret. A
/// missing credential never matches.
pub fn check_auth(provided: Option<&str>, secret: &str) -> (r: bool)
    ensures
        r == (provided matches Some(p) && p@ == secret@),
{
    match provided {
        Some(p) => str_eq(p, secret),
        None => false,
    }
}

/// The client-facing URL an uploaded identity is served back under.
pub open spec fn download_url_spec(base: Seq<char>, id: Seq<char>) -> Seq<char> {
    base + "/i/"@ + id
}

/// The client-facing URL, executable form.
pub fn download_url(base_url: &str, identity: &str) -> (r: String)
    ensures
        r@ == download_url_spec(base_url@, identity@),
{
    let r = String::from_str(base_url).concat("/i/").concat(identity);
    proof {
        assert(r@ =~= download_url_spec(base_url@, identity@));
    }
    r
}

/// What an upload request decides: rejected for want of a matching
/// credential, rejected because the original name claims no extension, or
/// stored under the derived identity.
pub enum UploadDecision {
    Unauthorized,
    NoExtension,
    Store { key: String, identity: String, url: String },
}

/// Decide an upload: check the credential, derive the content-addressed
/// identity from the payload and the extension the original name claims, and
/// name the remote key and the URL the client is answered with. Only the
/// extension of the client-supplied name is used; the rest of it is
/// discarded.
pub fn plan_upload(
    provided_auth: Option<&str>,
    secret: &str,
    original_name: &str,
    data: &[u8],
    base_url: &str,
) -> (r: UploadDecision)
    ensures
        !(provided_auth matches Some(p) && p@ == secret@) ==> (r
            matches UploadDecision::Unauthorized),
        (provided_auth matches Some(p) && p@ == secret@) && extension_spec(original_name@) is None
            ==> (r matches UploadDecision::NoExtension),
        (provided_auth matches Some(p) && p@ == secret@) && extension_spec(original_name@)
            is Some ==> (r matches UploadDecision::Store { key, identity, url } && {
            let id = identity_spec(data@, extension_spec(original_name@)->Some_0);
            &&& identity@ == id
            &&& key@ == remote_key_spec(id)
            &&& url@ == download_url_spec(base_url@, id)
        }),
{
    if !check_auth(provided_auth, secret) {
        return UploadDecision::Unauthorized;
    }
    match extension_of(original_name) {
        None => UploadDecision::NoExtension,
        Some(ext) => {
            let identity = derive_identity(data, ext.as_str());
            let key = remote_key(identity.as_str());
            let url = download_url(base_url, identity.as_str());
            UploadDecision::Store { key, identity, url }
        },
    }
}

} // verus!
