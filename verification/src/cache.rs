//! The two-tier local cache (raw and optimized) and its resolution rules.
//!
//! The tiers live on disk and are read and written by the unverified shell;
//! the decisions — which file to serve, when to fetch, when to transcode,
//! and where to fall back — are made here, over plain values the shell
//! reports (does the file exist, did the codec succeed).

use vstd::prelude::*;
use vstd::string::*;

use crate::filename::extension_spec;
use crate::store::remote_key_spec;
use crate::text::{lower_seq, str_eq, to_lowercase};

verus! {

/// The raw tier's path for an identity, relative to the cache root.
pub open spec fn raw_rel_spec(id: Seq<char>) -> Seq<char> {
    "images/"@ + id
}

/// The optimized tier's path for an identity, relative to the cache root.
pub open spec fn optimized_rel_spec(id: Seq<char>) -> Seq<char> {
    "optimized/"@ + id
}

/// The raw tier's relative path, executable form.
pub fn raw_rel_path(identity: &str) -> (r: String)
    ensures
        r@ == raw_rel_spec(identity@),
{
    String::from_str("images/").concat(identity)
}

/// The optimized tier's relative path, executable form.
pub fn optimized_rel_path(identity: &str) -> (r: String)
    ensures
        r@ == optimized_rel_spec(identity@),
{
    String::from_str("optimized/").concat(identity)
}

/// Whether an extension has a registered transcoder. The one registered
/// format is baseline/progressive JPEG, compared case-insensitively.
pub open spec fn has_transcoder_spec(ext: Seq<char>) -> bool {
    lower_seq(ext) == "jpg"@ || lower_seq(ext) == "jpeg"@
}

/// Whether an identity's claimed extension has a registered transcoder; an
/// identity claiming no extension has none.
pub open spec fn identity_has_transcoder(id: Seq<char>) -> bool {
    match extension_spec(id) {
        Some(e) => has_transcoder_spec(e),
        None => false,
    }
}

/// Whether an extension has a registered transcoder, executable form.
pub fn has_transcoder(ext: &str) -> (r: bool)
    ensures
        r == has_transcoder_spec(ext@),
{
    let low = to_lowercase(ext);
    str_eq(low.as_str(), "jpg") || str_eq(low.as_str(), "jpeg")
}

/// Whether an identity's extension has a registered transcoder, executable
/// form.
pub fn identity_transcoder(identity: &str) -> (r: bool)
    ensures
        r == identity_has_transcoder(identity@),
{
    match crate::filename::extension_of(identity) {
        Some(e) => has_transcoder(e.as_str()),
        None => false,
    }
}

/// How to resolve the raw tier: serve the local file, or first fetch the
/// remote object into it.
pub enum RawStep {
    ServeLocal(String),
    Fetch { key: String, destination: String },
}

/// Decide the raw tier's resolution for an identity, given whether its local
/// file already exists. On a miss the remote object is streamed into the raw
/// path; once present, the entry is trusted and served as is.
pub fn plan_raw(identity: &str, raw_exists: bool) -> (r: RawStep)
    ensures
        raw_exists ==> (r matches RawStep::ServeLocal(p) && p@ == raw_rel_spec(identity@)),
        !raw_exists ==> (r matches RawStep::Fetch { key, destination } && key@ == remote_key_spec(
            identity@,
        ) && destination@ == raw_rel_spec(identity@)),
{
    if raw_exists {
        RawStep::ServeLocal(raw_rel_path(identity))
    } else {
        RawStep::Fetch { key: crate::store::remote_key(identity), destination: raw_rel_path(identity) }
    }
}

/// How to resolve the optimized tier: serve the already-optimized file,
/// transcode the raw entry into the optimized path first, or bypass the tier
/// and serve the raw entry directly.
pub enum OptimizedStep {
    ServeOptimized(String),
    Transcode { input: String, output: String },
    ServeRaw(String),
}

/// Decide the optimized tier's resolution for an identity, given whether its
/// optimized file already exists. A format without a registered transcoder
/// bypasses the tier: no optimized file is ever created for it.
pub fn plan_optimized(identity: &str, optimized_exists: bool) -> (r: OptimizedStep)
    ensures
        optimized_exists ==> (r matches OptimizedStep::ServeOptimized(p) && p@
            == optimized_rel_spec(identity@)),
        !optimized_exists && identity_has_transcoder(identity@) ==> (r
            matches OptimizedStep::Transcode { input, output } && input@ == raw_rel_spec(identity@)
            && output@ == optimized_rel_spec(identity@)),
        !optimized_exists && !identity_has_transcoder(identity@) ==> (r
            matches OptimizedStep::ServeRaw(p) && p@ == raw_rel_spec(identity@)),
{
    if optimized_exists {
        OptimizedStep::ServeOptimized(optimized_rel_path(identity))
    } else if identity_transcoder(identity) {
        OptimizedStep::Transcode {
            input: raw_rel_path(identity),
            output: optimized_rel_path(identity),
        }
    } else {
        OptimizedStep::ServeRaw(raw_rel_path(identity))
    }
}

/// The path served once a transcode step has run: the optimized rendition on
/// success, the raw entry as a pass-through when the codec failed.
pub fn after_transcode(identity: &str, transcode_ok: bool) -> (r: String)
    ensures
        transcode_ok ==> r@ == optimized_rel_spec(identity@),
        !transcode_ok ==> r@ == raw_rel_spec(identity@),
{
    if transcode_ok {
        optimized_rel_path(identity)
    } else {
        raw_rel_path(identity)
    }
}

/// The two cache tiers as the sets of identities present on disk.
pub struct CacheModel {
    pub raw: Set<Seq<char>>,
    pub optimized: Set<Seq<char>>,
}

/// One resolution of an identity against the cache: the next cache state and
/// the path served. `codec_ok` is the external codec's outcome, consulted
/// only when a transcode actually runs; a failed transcode serves the raw
/// entry and leaves the optimized tier unpopulated.
pub open spec fn resolve_optimized_model(m: CacheModel, id: Seq<char>, codec_ok: bool) -> (
    CacheModel,
    Seq<char>,
) {
    if m.optimized.contains(id) {
        (m, optimized_rel_spec(id))
    } else {
        let fetched = CacheModel { raw: m.raw.insert(id), optimized: m.optimized };
        if identity_has_transcoder(id) {
            if codec_ok {
                (
                    CacheModel { raw: fetched.raw, optimized: fetched.optimized.insert(id) },
                    optimized_rel_spec(id),
                )
            } else {
                (fetched, raw_rel_spec(id))
            }
        } else {
            (fetched, raw_rel_spec(id))
        }
    }
}

/// Repeated resolution of a transcodable identity is idempotent: after a
/// first successful resolution, every later resolution serves the same path
/// and leaves the cache unchanged — the encoder is not invoked again,
/// whatever it would have reported.
pub proof fn lemma_optimized_resolution_idempotent(m: CacheModel, id: Seq<char>, later_ok: bool)
    requires
        identity_has_transcoder(id),
    ensures
        ({
            let (m1, p1) = resolve_optimized_model(m, id, true);
            let (m2, p2) = resolve_optimized_model(m1, id, later_ok);
            &&& m2 == m1
            &&& p2 == p1
        }),
{
    let (m1, p1) = resolve_optimized_model(m, id, true);
    assert(m1.optimized.contains(id));
}

/// An identity without a registered transcoder bypasses the optimized tier:
/// resolution serves the raw path and creates nothing under the tier.
pub proof fn lemma_no_transcoder_bypasses_optimized(m: CacheModel, id: Seq<char>, codec_ok: bool)
    requires
        !identity_has_transcoder(id),
        !m.optimized.contains(id),
    ensures
        ({
            let (m1, p1) = resolve_optimized_model(m, id, codec_ok);
            &&& p1 == raw_rel_spec(id)
            &&& m1.optimized == m.optimized
        }),
{
}

} // verus!
