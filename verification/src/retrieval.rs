//! The retrieval handler's decisions.
//!
//! An identifier is validated against the safe alphabet before any path is
//! formed; a failing identifier is answered with a client error and the
//! filesystem is never consulted.  The content-type selector is
//! percent-decoded; a selector that does not decode serves the bytes with
//! no declared content type rather than failing.

use vstd::prelude::*;
use crate::ident::check_identifier;
use crate::ident::filepath;
use crate::ident::is_safe_identifier;
use crate::ident::spec_filepath;
use crate::ident::spec_thumbnail_filepath;
use crate::ident::thumbnail_filepath;
use vstd::string::StringExecFns;

verus! {

/// What a percent-encoded string decodes to, or `None` when the decoded
/// bytes are not well-formed text.
pub uninterp spec fn percent_decoded(s: Seq<char>) -> Option<Seq<char>>;

/// Relies on urlencoding::decode: percent-decoding depends on the input
/// characters alone; it fails only when the decoded bytes are not valid
/// UTF-8.
#[verifier::external_body]
fn url_decode(s: &str) -> (r: Option<String>)
    ensures
        match r {
            Option::Some(t) => percent_decoded(s@) == Option::Some(t@),
            Option::None => percent_decoded(s@) is None,
        },
{
    match urlencoding::decode(s) {
        Result::Ok(decoded) => Option::Some(decoded.into_owned()),
        Result::Err(_) => Option::None,
    }
}

/// Resolves a content-type selector to the header value served with the
/// bytes; `None` serves them with no declared content type.
pub fn resolve_content_type(selector: &String) -> (r: Option<String>)
    ensures
        match r {
            Option::Some(t) => percent_decoded(selector@) == Option::Some(t@),
            Option::None => percent_decoded(selector@) is None,
        },
{
    url_decode(selector.as_str())
}

/// What the retrieval handler decides before any store access: reject the
/// identifier, or look the object up under its path.
pub enum RetrievePlan {
    /// The identifier failed the safe-alphabet check: a client error,
    /// answered without ever forming a path.
    Reject { status: u16, message: String },
    /// The identifier is safe; the object may be read from `path`.
    Lookup { path: String },
}

/// Validates a requested identifier and maps it to its storage path.
/// An identifier with any character outside the safe alphabet is rejected
/// with a client error before any filesystem access.
pub fn plan_retrieve(identifier: &String) -> (r: RetrievePlan)
    ensures
        !is_safe_identifier(identifier@) ==> (r matches RetrievePlan::Reject { status, message }
            && status == 400 && message@ == identifier@ + " is an invalid filename"@),
        is_safe_identifier(identifier@) ==> (r matches RetrievePlan::Lookup { path } && path@
            == spec_filepath(identifier@)),
{
    if check_identifier(identifier.as_str()) {
        RetrievePlan::Lookup { path: filepath(identifier.clone()) }
    } else {
        RetrievePlan::Reject {
            status: 400,
            message: identifier.clone().concat(" is an invalid filename"),
        }
    }
}

/// Validates a requested identifier and maps it to its thumbnail's
/// storage path; the thumbnail route serves the fixed re-encoding format,
/// so no selector is taken.  The safe-alphabet check is the same as for
/// the object itself.
pub fn plan_retrieve_thumbnail(identifier: &String) -> (r: RetrievePlan)
    ensures
        !is_safe_identifier(identifier@) ==> (r matches RetrievePlan::Reject { status, message }
            && status == 400 && message@ == identifier@ + " is an invalid filename"@),
        is_safe_identifier(identifier@) ==> (r matches RetrievePlan::Lookup { path } && path@
            == spec_thumbnail_filepath(identifier@)),
{
    if check_identifier(identifier.as_str()) {
        RetrievePlan::Lookup { path: thumbnail_filepath(identifier.clone()) }
    } else {
        RetrievePlan::Reject {
            status: 400,
            message: identifier.clone().concat(" is an invalid filename"),
        }
    }
}

/// The retrieval model over the store: an unsafe identifier is a client
/// error before any lookup; a safe one finds its object or nothing.
pub enum SpecRetrieval {
    Invalid,
    Missing,
    Found(Seq<u8>),
}

/// What retrieval answers for an identifier against the store model.
pub open spec fn spec_retrieve(objects: Map<Seq<char>, Seq<u8>>, id: Seq<char>) -> SpecRetrieval {
    if !is_safe_identifier(id) {
        SpecRetrieval::Invalid
    } else if objects.contains_key(id) {
        SpecRetrieval::Found(objects[id])
    } else {
        SpecRetrieval::Missing
    }
}

/// Identifier safety: for an identifier with any character outside the
/// safe alphabet, retrieval is a client error whatever the store holds —
/// no lookup is ever attempted for it.
pub proof fn lemma_retrieve_rejects_unsafe(objects: Map<Seq<char>, Seq<u8>>, id: Seq<char>)
    requires
        !is_safe_identifier(id),
    ensures
        spec_retrieve(objects, id) == SpecRetrieval::Invalid,
{
}

/// Retrieval finds exactly what the store holds: for a safe identifier
/// present in the store, the stored bytes and nothing else come back.
pub proof fn lemma_retrieve_found(objects: Map<Seq<char>, Seq<u8>>, id: Seq<char>)
    requires
        is_safe_identifier(id),
        objects.contains_key(id),
    ensures
        spec_retrieve(objects, id) == SpecRetrieval::Found(objects[id]),
{
}

} // verus!
