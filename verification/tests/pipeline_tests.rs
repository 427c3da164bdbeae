use std::collections::HashMap;

use blobstore::ident::filepath;
use blobstore::pipeline::auth_allows;
use blobstore::pipeline::plan_store;
use blobstore::pipeline::plan_thumbnail;
use blobstore::pipeline::plan_upload;
use blobstore::pipeline::upload_response;
use blobstore::pipeline::upload_status;
use blobstore::pipeline::AuthReply;
use blobstore::pipeline::StorePlan;
use blobstore::pipeline::ThumbnailPlan;
use blobstore::pipeline::UploadPlan;
use blobstore::pipeline::UploadStatus;
use blobstore::retrieval::plan_retrieve;
use blobstore::retrieval::RetrievePlan;

/// Drives one upload attempt against an in-memory store keyed by path,
/// standing in for the filesystem the real server writes to.
fn drive_upload(
    store: &mut HashMap<String, Vec<u8>>,
    session: Option<String>,
    body: &Vec<u8>,
    reply: AuthReply,
    thumbnail_encoder_works: bool,
) -> (u16, String) {
    match plan_upload(&session, body) {
        UploadPlan::MissingSession => upload_response(UploadStatus::Denied, String::new()),
        UploadPlan::Proceed {
            identifier,
            auth_request: _,
            metadata,
        } => {
            let allowed = auth_allows(&reply);
            let (object_exists, write_ok) = if allowed {
                let object_exists = store.contains_key(&filepath(identifier.clone()));
                let write_ok = match plan_store(&identifier, object_exists) {
                    StorePlan::SkipWrite => true,
                    StorePlan::Write { path } => {
                        store.insert(path, body.clone());
                        true
                    }
                };
                (object_exists, write_ok)
            } else {
                (false, false)
            };
            let status = upload_status(session.is_some(), allowed, object_exists, write_ok);
            if status == UploadStatus::Accepted && !object_exists {
                let dimensions_positive = match &metadata {
                    Some(m) => m.dimensions.width >= 1 && m.dimensions.height >= 1,
                    None => true,
                };
                if dimensions_positive {
                    if let ThumbnailPlan::Derive { path, target: _ } =
                        plan_thumbnail(&identifier, &metadata)
                    {
                        if thumbnail_encoder_works {
                            store.insert(path, vec![0xAB]);
                        }
                    }
                }
            }
            upload_response(status, identifier)
        }
    }
}

fn oversized_png(width: u32, height: u32) -> Vec<u8> {
    let mut v: Vec<u8> = vec![0x89, 0x50, 0x4e, 0x47, 0x0d, 0x0a, 0x1a, 0x0a];
    v.extend_from_slice(&[0, 0, 0, 13]);
    v.extend_from_slice(b"IHDR");
    v.extend_from_slice(&width.to_be_bytes());
    v.extend_from_slice(&height.to_be_bytes());
    v
}

fn allow() -> AuthReply {
    AuthReply::Body(String::from("valid"))
}

#[test]
fn dedup_two_uploads_one_object() {
    let mut store = HashMap::new();
    let body = b"the same content twice".to_vec();
    let (status1, id1) = drive_upload(&mut store, Some(String::from("s1")), &body, allow(), true);
    let (status2, id2) = drive_upload(&mut store, Some(String::from("s2")), &body, allow(), true);
    assert_eq!(status1, 200);
    assert_eq!(status2, 200);
    assert_eq!(id1, id2);
    assert_eq!(store.len(), 1);
    assert_eq!(store.get(&filepath(id1)), Some(&body));
}

#[test]
fn denied_by_policy_writes_nothing() {
    let mut store = HashMap::new();
    let body = b"contraband".to_vec();
    let (status, _) = drive_upload(
        &mut store,
        Some(String::from("s1")),
        &body,
        AuthReply::Body(String::from("nope")),
        true,
    );
    assert_eq!(status, 401);
    assert!(store.is_empty());
}

#[test]
fn transport_failure_denies_and_writes_nothing() {
    let mut store = HashMap::new();
    let body = b"anything".to_vec();
    let (status, _) = drive_upload(
        &mut store,
        Some(String::from("s1")),
        &body,
        AuthReply::Failed,
        true,
    );
    assert_eq!(status, 401);
    assert!(store.is_empty());
}

#[test]
fn missing_session_denies_and_writes_nothing() {
    let mut store = HashMap::new();
    let (status, _) = drive_upload(&mut store, None, &b"x".to_vec(), allow(), true);
    assert_eq!(status, 401);
    assert!(store.is_empty());
}

#[test]
fn uploaded_bytes_are_retrieved_exactly() {
    let mut store = HashMap::new();
    let body: Vec<u8> = (0u16..512).map(|i| (i % 251) as u8).collect();
    let (status, identifier) =
        drive_upload(&mut store, Some(String::from("s1")), &body, allow(), true);
    assert_eq!(status, 200);
    match plan_retrieve(&identifier) {
        RetrievePlan::Lookup { path } => assert_eq!(store.get(&path), Some(&body)),
        RetrievePlan::Reject { .. } => panic!("an identifier of ours must be safe"),
    }
}

#[test]
fn small_image_produces_no_thumbnail() {
    let mut store = HashMap::new();
    let body = oversized_png(1200, 400);
    let (status, _) = drive_upload(&mut store, Some(String::from("s1")), &body, allow(), true);
    assert_eq!(status, 200);
    assert_eq!(store.len(), 1);
}

#[test]
fn oversized_image_produces_exactly_one_thumbnail() {
    let mut store = HashMap::new();
    let body = oversized_png(5000, 10);
    let (status, id) = drive_upload(&mut store, Some(String::from("s1")), &body, allow(), true);
    assert_eq!(status, 200);
    assert_eq!(store.len(), 2);
    assert!(store.contains_key(&format!("{}{}", filepath(id), "_thumbnail")));
}

#[test]
fn thumbnail_encode_failure_leaves_upload_successful() {
    let mut store = HashMap::new();
    let body = oversized_png(5000, 10);
    let (status, id) = drive_upload(&mut store, Some(String::from("s1")), &body, allow(), false);
    assert_eq!(status, 200);
    assert_eq!(store.len(), 1);
    assert_eq!(store.get(&filepath(id)), Some(&body));
}
