//! A content-addressable blob store: the verified core of its ingest and
//! retrieval pipeline.
//!
//! Uploaded bytes are identified by a cryptographic digest rendered in a
//! URL- and filename-safe alphabet.  Writes are gated behind an external
//! authorization decision (fail-closed), deduplicated by identifier, and,
//! for decodable images, followed by a best-effort thumbnail derivation.
//! Retrieval validates identifiers against the safe alphabet before any
//! path is formed.

pub mod bytes;
pub mod digest;
pub mod encoding;
pub mod exif;
pub mod ident;
pub mod image;
pub mod introspect;
pub mod jpeg;
pub mod numeric;
pub mod pipeline;
pub mod retrieval;
