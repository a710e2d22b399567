//! Storage backends, told apart by the scheme of a dataset URI.

use vstd::prelude::*;

use crate::text::{contains_str, has_prefix, lower_of, lowercase, seq_contains, seq_has_prefix, trim_of, trim_str};

verus! {

/// Where a dataset root lives.
#[derive(Debug, Clone, Copy, PartialEq, Eq, Structural)]
pub enum BackendKind {
    Local,
    S3,
    Gcs,
    Azure,
    Remote,
    Unknown,
}

/// The backend of a URI that has already been trimmed and lower-cased.
pub open spec fn kind_of_normalized(u: Seq<char>) -> BackendKind {
    if seq_has_prefix(u, "s3://"@) || seq_has_prefix(u, "s3+ddb://"@) {
        BackendKind::S3
    } else if seq_has_prefix(u, "gs://"@) {
        BackendKind::Gcs
    } else if seq_has_prefix(u, "az://"@) {
        BackendKind::Azure
    } else if seq_has_prefix(u, "db://"@) {
        BackendKind::Remote
    } else if seq_contains(u, "://"@) {
        BackendKind::Unknown
    } else {
        BackendKind::Local
    }
}

/// The backend of a URI as a caller wrote it.
pub open spec fn kind_of_uri(uri: Seq<char>) -> BackendKind {
    kind_of_normalized(lower_of(trim_of(uri)))
}

/// Classifies a URI that is already trimmed and lower-cased by its scheme.
pub fn classify_normalized_uri(u: &str) -> (r: BackendKind)
    ensures
        r == kind_of_normalized(u@),
{
    if has_prefix(u, "s3://") || has_prefix(u, "s3+ddb://") {
        BackendKind::S3
    } else if has_prefix(u, "gs://") {
        BackendKind::Gcs
    } else if has_prefix(u, "az://") {
        BackendKind::Azure
    } else if has_prefix(u, "db://") {
        BackendKind::Remote
    } else if contains_str(u, "://") {
        BackendKind::Unknown
    } else {
        BackendKind::Local
    }
}

/// Infers the backend purely from the URI scheme, ignoring surrounding
/// whitespace and letter case; a bare path is local, an unrecognised
/// scheme is unknown.
pub fn infer_backend_kind(uri: &str) -> (r: BackendKind)
    ensures
        r == kind_of_uri(uri@),
{
    let trimmed = trim_str(uri);
    let lower = lowercase(trimmed);
    classify_normalized_uri(lower.as_str())
}

} // verus!
