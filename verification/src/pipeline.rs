//! The ingest pipeline's state machine and its mathematical model.
//!
//! An upload runs `Received -> Digested -> (Allowed | Denied) -> (Stored |
//! StoreFailed) -> ThumbnailAttempted`.  The functions here take each
//! decision from plain values — the caller performs the outside work (the
//! authorization request, the existence check, the write, the thumbnail
//! encode) and hands back what came of it.  The model `spec_upload` says
//! what one whole attempt does to the store, `objects` standing for the
//! store directory keyed by file name under the root; the laws below are
//! proved of that model.

use vstd::prelude::*;
use crate::digest::hash_bytes;
use crate::digest::lemma_identifier_safe;
use crate::digest::spec_identifier;
use crate::encoding::ascii_chars;
use crate::ident::filepath;
use crate::ident::is_safe_identifier;
use crate::ident::spec_filepath;
use crate::ident::spec_thumbnail_filepath;
use crate::ident::spec_thumbnail_suffix;
use crate::ident::thumbnail_filepath;
use crate::image::Dimensions;
use crate::image::ImageMetadata;
use crate::image::needs_thumbnail;
use crate::image::spec_needs_thumbnail;
use crate::image::spec_thumbnail_dimensions;
use crate::image::thumbnail_dimensions;
use crate::introspect::introspect;
use crate::introspect::spec_introspect;
use crate::numeric::decimal_string;
use crate::numeric::spec_decimal;
use crate::retrieval::SpecRetrieval;
use crate::retrieval::spec_retrieve;
use vstd::string::StringExecFns;

verus! {

/// The terminal states of one upload attempt.
#[derive(Clone, Copy, Debug, PartialEq, Eq, Structural)]
pub enum UploadStatus {
    /// The object is stored (or already was) and the identifier is owed
    /// to the client.
    Accepted,
    /// The session was missing or the policy service did not allow the
    /// write; nothing was stored.
    Denied,
    /// The policy service allowed the write but the store failed it.
    StoreFailed,
}

/// The exact token the policy service answers with to allow a write;
/// anything else, and any transport failure, denies.
pub open spec fn spec_allow_token() -> Seq<char> {
    "valid"@
}

/// What the policy service answered: a response body, or nothing usable
/// (a transport error, or an unreadable body).
pub enum AuthReply {
    Body(String),
    Failed,
}

impl View for AuthReply {
    type V = Option<Seq<char>>;

    open spec fn view(&self) -> Option<Seq<char>> {
        match self {
            AuthReply::Body(s) => Option::Some(s@),
            AuthReply::Failed => Option::None,
        }
    }
}

/// True only of a reply whose body is exactly the allow token.  This is
/// the fail-closed reading: no reply, a failed request and any other body
/// all deny.
pub open spec fn spec_auth_allows(reply: Option<Seq<char>>) -> bool {
    match reply {
        Option::Some(t) => t == spec_allow_token(),
        Option::None => false,
    }
}

/// Decides whether the policy service allowed the write.
pub fn auth_allows(reply: &AuthReply) -> (r: bool)
    ensures
        r == spec_auth_allows(reply@),
{
    match reply {
        AuthReply::Body(t) => {
            let token = String::from_str("valid");
            t.eq(&token)
        },
        AuthReply::Failed => false,
    }
}

/// The logical dimensions reported to the policy service: those of the
/// introspected image, or zero by zero for an opaque blob.
pub open spec fn spec_report_dimensions(body: Seq<u8>) -> Dimensions {
    match spec_introspect(body) {
        Option::Some(m) => m.dimensions,
        Option::None => Dimensions { width: 0, height: 0 },
    }
}

/// The body of the authorization request for an upload: identifier, byte
/// length, session and logical dimensions, comma-joined.
pub open spec fn spec_auth_request(body: Seq<u8>, session: Seq<char>) -> Seq<char> {
    spec_identifier(body) + ","@ + ascii_chars(spec_decimal(body.len())) + ","@ + session + ","@
        + ascii_chars(spec_decimal(spec_report_dimensions(body).width as nat)) + ","@ + ascii_chars(
        spec_decimal(spec_report_dimensions(body).height as nat),
    )
}

/// What the pipeline decides on receipt of an upload: reject it outright
/// for want of a session, or proceed to the authorization gate with the
/// digest computed, the request encoded, and the image introspected.
pub enum UploadPlan {
    MissingSession,
    Proceed { identifier: String, auth_request: String, metadata: Option<ImageMetadata> },
}

/// Digests and introspects an upload and encodes its authorization
/// request; an upload without a session identifier is refused before any
/// of that.
pub fn plan_upload(session: &Option<String>, body: &Vec<u8>) -> (r: UploadPlan)
    ensures
        match session {
            Option::Some(s) => r matches UploadPlan::Proceed { identifier, auth_request, metadata }
                && identifier@ == spec_identifier(body@) && auth_request@ == spec_auth_request(
                body@,
                s@,
            ) && (match metadata {
                Option::Some(m) => spec_introspect(body@) == Option::Some(m@),
                Option::None => spec_introspect(body@) is None,
            }),
            Option::None => r is MissingSession,
        },
{
    match session {
        Option::Some(s) => {
            let identifier = hash_bytes(body);
            let metadata = introspect(body);
            let dims = match &metadata {
                Option::Some(m) => m.dimensions,
                Option::None => Dimensions { width: 0, height: 0 },
            };
            let mut auth_request = identifier.clone();
            auth_request.append(",");
            auth_request.append(decimal_string(body.len() as u64).as_str());
            auth_request.append(",");
            auth_request.append(s.as_str());
            auth_request.append(",");
            auth_request.append(decimal_string(dims.width as u64).as_str());
            auth_request.append(",");
            auth_request.append(decimal_string(dims.height as u64).as_str());
            UploadPlan::Proceed { identifier, auth_request, metadata }
        },
        Option::None => UploadPlan::MissingSession,
    }
}

/// The terminal status of an upload, given what each collaborator
/// answered: no session or no allowance denies; an object already present
/// dedups to success without a write; otherwise the write decides.
pub open spec fn spec_upload_status(
    has_session: bool,
    allowed: bool,
    object_exists: bool,
    write_ok: bool,
) -> UploadStatus {
    if !has_session || !allowed {
        UploadStatus::Denied
    } else if object_exists {
        UploadStatus::Accepted
    } else if write_ok {
        UploadStatus::Accepted
    } else {
        UploadStatus::StoreFailed
    }
}

/// Computes the terminal status of an upload.
pub fn upload_status(has_session: bool, allowed: bool, object_exists: bool, write_ok: bool) -> (r:
    UploadStatus)
    ensures
        r == spec_upload_status(has_session, allowed, object_exists, write_ok),
{
    if !has_session || !allowed {
        UploadStatus::Denied
    } else if object_exists || write_ok {
        UploadStatus::Accepted
    } else {
        UploadStatus::StoreFailed
    }
}

/// What the store is asked to do once a write is allowed: nothing when
/// the object already exists (dedup), else a write under the object's
/// path.
pub enum StorePlan {
    SkipWrite,
    Write { path: String },
}

/// Decides the store step from the existence check.
pub fn plan_store(identifier: &String, object_exists: bool) -> (r: StorePlan)
    ensures
        object_exists ==> r is SkipWrite,
        !object_exists ==> (r matches StorePlan::Write { path } && path@ == spec_filepath(
            identifier@,
        )),
{
    if object_exists {
        StorePlan::SkipWrite
    } else {
        StorePlan::Write { path: filepath(identifier.clone()) }
    }
}

/// Whether an upload's content warrants a thumbnail: it introspected as
/// an image whose logical dimensions exceed the threshold.
pub open spec fn spec_wants_thumbnail(body: Seq<u8>) -> bool {
    match spec_introspect(body) {
        Option::Some(m) => spec_needs_thumbnail(m.dimensions),
        Option::None => false,
    }
}

/// What the derivation step is asked to do after a fresh object is
/// stored: nothing, or a bounded re-encode persisted under the thumbnail
/// path.
pub enum ThumbnailPlan {
    NoThumbnail,
    Derive { path: String, target: Dimensions },
}

/// Decides the thumbnail step from the introspected metadata.
pub fn plan_thumbnail(identifier: &String, metadata: &Option<ImageMetadata>) -> (r: ThumbnailPlan)
    requires
        match metadata {
            Option::Some(m) => m.dimensions.width >= 1 && m.dimensions.height >= 1,
            Option::None => true,
        },
    ensures
        match metadata {
            Option::Some(m) => if spec_needs_thumbnail(m.dimensions) {
                r matches ThumbnailPlan::Derive { path, target } && path@
                    == spec_thumbnail_filepath(identifier@) && target == spec_thumbnail_dimensions(
                    m.dimensions,
                )
            } else {
                r is NoThumbnail
            },
            Option::None => r is NoThumbnail,
        },
{
    match metadata {
        Option::Some(m) => {
            if needs_thumbnail(m.dimensions) {
                ThumbnailPlan::Derive {
                    path: thumbnail_filepath(identifier.clone()),
                    target: thumbnail_dimensions(m.dimensions),
                }
            } else {
                ThumbnailPlan::NoThumbnail
            }
        },
        Option::None => ThumbnailPlan::NoThumbnail,
    }
}

/// The response owed for a finished upload: the identifier with `200` on
/// success, a fixed denial or fault body otherwise.
pub fn upload_response(status: UploadStatus, identifier: String) -> (r: (u16, String))
    ensures
        status == UploadStatus::Accepted ==> r.0 == 200 && r.1@ == identifier@,
        status == UploadStatus::Denied ==> r.0 == 401 && r.1@ == "Invalid permissions"@,
        status == UploadStatus::StoreFailed ==> r.0 == 500 && r.1@ == "Internal error"@,
{
    match status {
        UploadStatus::Accepted => (200, identifier),
        UploadStatus::Denied => (401, String::from_str("Invalid permissions")),
        UploadStatus::StoreFailed => (500, String::from_str("Internal error")),
    }
}

/// The key a thumbnail is stored under, beside its source object.
pub open spec fn spec_thumbnail_key(id: Seq<char>) -> Seq<char> {
    id + spec_thumbnail_suffix()
}

/// The outcome of one whole upload attempt against the store model.
pub struct SpecUploadOutcome {
    /// The store afterwards.
    pub objects: Map<Seq<char>, Seq<u8>>,
    /// The terminal status reported to the client.
    pub status: UploadStatus,
    /// The identifier reported to the client, on success.
    pub identifier: Option<Seq<char>>,
}

/// One whole upload attempt: what it does to the store and what it
/// reports, given the content, the session, the policy reply, and what
/// the store and the thumbnail encoder would answer.  `thumb` is the
/// encoded thumbnail, or `None` when any step of the derivation fails.
pub open spec fn spec_upload(
    objects: Map<Seq<char>, Seq<u8>>,
    body: Seq<u8>,
    session: Option<Seq<char>>,
    auth_reply: Option<Seq<char>>,
    write_ok: bool,
    thumb: Option<Seq<u8>>,
) -> SpecUploadOutcome {
    if session is None || !spec_auth_allows(auth_reply) {
        SpecUploadOutcome { objects, status: UploadStatus::Denied, identifier: Option::None }
    } else {
        let id = spec_identifier(body);
        if objects.contains_key(id) {
            SpecUploadOutcome {
                objects,
                status: UploadStatus::Accepted,
                identifier: Option::Some(id),
            }
        } else if !write_ok {
            SpecUploadOutcome {
                objects,
                status: UploadStatus::StoreFailed,
                identifier: Option::None,
            }
        } else {
            let stored = objects.insert(id, body);
            let derived = if spec_wants_thumbnail(body) {
                match thumb {
                    Option::Some(tb) => stored.insert(spec_thumbnail_key(id), tb),
                    Option::None => stored,
                }
            } else {
                stored
            };
            SpecUploadOutcome {
                objects: derived,
                status: UploadStatus::Accepted,
                identifier: Option::Some(id),
            }
        }
    }
}

/// The model and the step-wise status computation agree: the status of a
/// whole attempt is what `spec_upload_status` says of the session, the
/// policy answer, the existence check and the write.
pub proof fn lemma_upload_status_matches_model(
    objects: Map<Seq<char>, Seq<u8>>,
    body: Seq<u8>,
    session: Option<Seq<char>>,
    auth_reply: Option<Seq<char>>,
    write_ok: bool,
    thumb: Option<Seq<u8>>,
)
    ensures
        spec_upload(objects, body, session, auth_reply, write_ok, thumb).status
            == spec_upload_status(
            session is Some,
            spec_auth_allows(auth_reply),
            objects.contains_key(spec_identifier(body)),
            write_ok,
        ),
{
}

/// Fail-closed authorization: when the policy service is unreachable or
/// answers anything but the allow token — or no session came at all — the
/// upload is denied and the store is untouched.
pub proof fn lemma_fail_closed(
    objects: Map<Seq<char>, Seq<u8>>,
    body: Seq<u8>,
    session: Option<Seq<char>>,
    auth_reply: Option<Seq<char>>,
    write_ok: bool,
    thumb: Option<Seq<u8>>,
)
    requires
        session is None || !spec_auth_allows(auth_reply),
    ensures
        spec_upload(objects, body, session, auth_reply, write_ok, thumb).status
            == UploadStatus::Denied,
        spec_upload(objects, body, session, auth_reply, write_ok, thumb).objects == objects,
{
}

/// Dedup idempotence: a second authorized upload of the same bytes, under
/// any session, reports the same identifier and leaves the store exactly
/// as the first upload left it — nothing is written twice.
pub proof fn lemma_dedup_idempotent(
    objects: Map<Seq<char>, Seq<u8>>,
    body: Seq<u8>,
    session1: Option<Seq<char>>,
    session2: Option<Seq<char>>,
    reply1: Option<Seq<char>>,
    reply2: Option<Seq<char>>,
    write_ok: bool,
    thumb1: Option<Seq<u8>>,
    thumb2: Option<Seq<u8>>,
)
    requires
        session1 is Some,
        session2 is Some,
        spec_auth_allows(reply1),
        spec_auth_allows(reply2),
        spec_upload(objects, body, session1, reply1, write_ok, thumb1).status
            == UploadStatus::Accepted,
    ensures
        ({
            let first = spec_upload(objects, body, session1, reply1, write_ok, thumb1);
            let second = spec_upload(first.objects, body, session2, reply2, true, thumb2);
            first.identifier == Option::Some(spec_identifier(body)) && second.identifier
                == first.identifier && second.status == UploadStatus::Accepted && second.objects
                == first.objects
        }),
{
    let id = spec_identifier(body);
    let first = spec_upload(objects, body, session1, reply1, write_ok, thumb1);
    assert(first.objects.contains_key(id));
}

/// Round trip: after a successful upload of `body`, retrieving its
/// identifier finds exactly `body`.  The one premise on the store is that
/// whatever already stands under that identifier is `body` itself — which
/// is what content addressing guarantees short of a digest collision.
pub proof fn lemma_upload_retrieve_round_trip(
    objects: Map<Seq<char>, Seq<u8>>,
    body: Seq<u8>,
    session: Option<Seq<char>>,
    auth_reply: Option<Seq<char>>,
    write_ok: bool,
    thumb: Option<Seq<u8>>,
)
    requires
        objects.contains_key(spec_identifier(body)) ==> objects[spec_identifier(body)] == body,
        spec_upload(objects, body, session, auth_reply, write_ok, thumb).status
            == UploadStatus::Accepted,
    ensures
        ({
            let after = spec_upload(objects, body, session, auth_reply, write_ok, thumb).objects;
            is_safe_identifier(spec_identifier(body)) && after.contains_key(spec_identifier(body))
                && after[spec_identifier(body)] == body && spec_retrieve(
                after,
                spec_identifier(body),
            ) == SpecRetrieval::Found(body)
        }),
{
    lemma_identifier_safe(body);
    let id = spec_identifier(body);
    let after = spec_upload(objects, body, session, auth_reply, write_ok, thumb).objects;
    if !objects.contains_key(id) {
        reveal_strlit("_thumbnail");
        assert(spec_thumbnail_key(id).len() > id.len());
        assert(spec_thumbnail_key(id) != id);
        assert(after.contains_key(id) && after[id] == body);
    }
}

/// Best-effort derivation: the outcome of the thumbnail step changes
/// neither the reported status nor the identifier, and touches no key but
/// the thumbnail's own.
pub proof fn lemma_thumbnail_best_effort(
    objects: Map<Seq<char>, Seq<u8>>,
    body: Seq<u8>,
    session: Option<Seq<char>>,
    auth_reply: Option<Seq<char>>,
    write_ok: bool,
    thumb1: Option<Seq<u8>>,
    thumb2: Option<Seq<u8>>,
)
    ensures
        ({
            let a = spec_upload(objects, body, session, auth_reply, write_ok, thumb1);
            let b = spec_upload(objects, body, session, auth_reply, write_ok, thumb2);
            a.status == b.status && a.identifier == b.identifier && (forall|k: Seq<char>|
                k != spec_thumbnail_key(spec_identifier(body)) ==> (a.objects.contains_key(k)
                    <==> b.objects.contains_key(k)) && (a.objects.contains_key(k)
                    ==> a.objects[k] == b.objects[k]))
        }),
{
}

/// Key safety is an invariant of the store: when every key so far lies in
/// the safe alphabet, every key after an upload still does — the pipeline
/// writes only under identifiers of its own digesting and their thumbnail
/// keys, never under anything a client chose.
pub proof fn lemma_upload_preserves_key_safety(
    objects: Map<Seq<char>, Seq<u8>>,
    body: Seq<u8>,
    session: Option<Seq<char>>,
    auth_reply: Option<Seq<char>>,
    write_ok: bool,
    thumb: Option<Seq<u8>>,
)
    requires
        forall|k: Seq<char>| objects.contains_key(k) ==> is_safe_identifier(k),
    ensures
        forall|k: Seq<char>|
            spec_upload(objects, body, session, auth_reply, write_ok, thumb).objects.contains_key(
                k,
            ) ==> is_safe_identifier(k),
{
    let id = spec_identifier(body);
    lemma_identifier_safe(body);
    crate::ident::lemma_thumbnail_suffix_safe();
    crate::ident::lemma_safe_concat(id, spec_thumbnail_suffix());
    let after = spec_upload(objects, body, session, auth_reply, write_ok, thumb).objects;
    assert forall|k: Seq<char>| after.contains_key(k) implies is_safe_identifier(k) by {
        if !objects.contains_key(k) {
            assert(k == id || k == spec_thumbnail_key(id));
        }
    }
}

/// A thumbnail object exists at most once, and only for content that
/// warrants one: an upload below the threshold adds no key beside the
/// object's own, and an upload above it adds exactly the thumbnail key
/// when the derivation succeeds.
pub proof fn lemma_thumbnail_threshold(
    objects: Map<Seq<char>, Seq<u8>>,
    body: Seq<u8>,
    session: Option<Seq<char>>,
    auth_reply: Option<Seq<char>>,
    thumb: Option<Seq<u8>>,
)
    requires
        session is Some,
        spec_auth_allows(auth_reply),
        !objects.contains_key(spec_identifier(body)),
    ensures
        ({
            let after = spec_upload(objects, body, session, auth_reply, true, thumb).objects;
            let id = spec_identifier(body);
            (!spec_wants_thumbnail(body) ==> after == objects.insert(id, body)) && (
            spec_wants_thumbnail(body) && thumb is Some ==> after == objects.insert(
                id,
                body,
            ).insert(spec_thumbnail_key(id), thumb->Some_0))
        }),
{
}

} // verus!
