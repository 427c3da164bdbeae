use blobstore::retrieval::plan_retrieve;
use blobstore::retrieval::plan_retrieve_thumbnail;
use blobstore::retrieval::resolve_content_type;
use blobstore::retrieval::RetrievePlan;

#[test]
fn traversal_identifier_is_rejected_before_any_path() {
    match plan_retrieve(&String::from("../etc/passwd")) {
        RetrievePlan::Reject { status, message } => {
            assert_eq!(status, 400);
            assert_eq!(message, "../etc/passwd is an invalid filename");
        }
        RetrievePlan::Lookup { .. } => panic!("a traversal identifier must be rejected"),
    }
}

#[test]
fn separator_identifier_is_rejected() {
    assert!(matches!(
        plan_retrieve(&String::from("a/b")),
        RetrievePlan::Reject { status: 400, .. }
    ));
    assert!(matches!(
        plan_retrieve(&String::from("a\\b")),
        RetrievePlan::Reject { status: 400, .. }
    ));
    assert!(matches!(
        plan_retrieve(&String::from("a\0b")),
        RetrievePlan::Reject { status: 400, .. }
    ));
}

#[test]
fn safe_identifier_maps_to_its_path() {
    match plan_retrieve(&String::from("abc-DEF_123")) {
        RetrievePlan::Lookup { path } => assert_eq!(path, "./var/lib/atchat/abc-DEF_123"),
        RetrievePlan::Reject { .. } => panic!("a safe identifier must be served"),
    }
}

#[test]
fn thumbnail_retrieval_uses_the_thumbnail_path() {
    match plan_retrieve_thumbnail(&String::from("abc")) {
        RetrievePlan::Lookup { path } => assert_eq!(path, "./var/lib/atchat/abc_thumbnail"),
        RetrievePlan::Reject { .. } => panic!("a safe identifier must be served"),
    }
    assert!(matches!(
        plan_retrieve_thumbnail(&String::from("../x")),
        RetrievePlan::Reject { status: 400, .. }
    ));
}

#[test]
fn content_type_selector_is_percent_decoded() {
    assert_eq!(
        resolve_content_type(&String::from("image%2Fpng")).as_deref(),
        Some("image/png")
    );
    assert_eq!(
        resolve_content_type(&String::from("text/plain")).as_deref(),
        Some("text/plain")
    );
}

#[test]
fn undecodable_selector_resolves_to_nothing() {
    // the decoded bytes are not valid text
    assert!(resolve_content_type(&String::from("%ff%fe")).is_none());
}
