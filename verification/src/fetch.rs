//! One fetch of the remote catalog: what is asked of the transport, and what
//! is made of its answer.
//!
//! The transport itself is not here. It is asked for `CATALOG_URL` once, and
//! `conclude` takes whatever it answers: there is no second attempt.

use crate::catalog::{CachedCatalog, CachedCatalogModel, Catalog};
use crate::json::{json_text, parse_json, Json, JsonModel};
use crate::schema::catalog_of;
use vstd::prelude::*;

verus! {

/// Where the catalog lies. The address is fixed, and so is the version of
/// the document that it names.
pub const CATALOG_URL: &'static str =
    "https://spaceeye-satellite-configs.s3.us-east-2.amazonaws.com/1.2.0/config.json";

/// How the transport failed.
#[derive(Clone, Debug, PartialEq, Eq)]
pub enum TransportFailure {
    /// No response came: no connection, or none in time. The text is the
    /// transport's own account.
    Network(String),
    /// A response came with a status that is no success.
    Status(u16),
}

/// Why a fetch gave no snapshot.
#[derive(Clone, Debug, PartialEq, Eq)]
pub enum FetchError {
    /// The transport failed.
    Transport(TransportFailure),
    /// The response has no `ETag` header.
    MissingMetadata,
    /// The body of the response is no catalog.
    Malformed,
}

/// What the transport received.
#[derive(Clone, Debug, PartialEq, Eq)]
pub struct FetchResponse {
    pub status: u16,
    /// The value of the `ETag` header, where the response has one.
    pub etag: Option<String>,
    pub body: Vec<u8>,
}

/// A status that reports success: 200 to 299.
pub open spec fn is_success(status: u16) -> bool {
    200 <= status <= 299
}

/// What is made of a response's status and `ETag` header: the header's value
/// where the status is a success and the header is there.
pub open spec fn validated(status: u16, etag: Option<String>) -> Result<String, FetchError> {
    if !is_success(status) {
        Err(FetchError::Transport(TransportFailure::Status(status)))
    } else {
        match etag {
            Some(tag) => Ok(tag),
            None => Err(FetchError::MissingMetadata),
        }
    }
}

/// The snapshot that a document gives when it was fetched at `now` with the
/// version token `etag`, where the document stands for a catalog.
pub open spec fn stamped(document: Option<JsonModel>, etag: Seq<char>, now: u64) -> Result<
    CachedCatalogModel,
    FetchError,
> {
    match document {
        Some(j) => match catalog_of(j) {
            Some(catalog) => Ok(CachedCatalogModel { catalog, etag, downloaded_at: now }),
            None => Err(FetchError::Malformed),
        },
        None => Err(FetchError::Malformed),
    }
}

/// What a fetch gives at `now`, when the transport answered `reply` and the
/// body that it received, if any, reads as `document`.
pub open spec fn concluded(
    reply: Result<FetchResponse, String>,
    document: Option<JsonModel>,
    now: u64,
) -> Result<CachedCatalogModel, FetchError> {
    match reply {
        Err(reason) => Err(FetchError::Transport(TransportFailure::Network(reason))),
        Ok(response) => match validated(response.status, response.etag) {
            Ok(tag) => stamped(document, tag@, now),
            Err(e) => Err(e),
        },
    }
}

/// A snapshot, or the error in its place, is the one that is due.
pub open spec fn gives(
    r: Result<CachedCatalog, FetchError>,
    due: Result<CachedCatalogModel, FetchError>,
) -> bool {
    match r {
        Ok(snapshot) => due == Ok::<CachedCatalogModel, FetchError>(snapshot@),
        Err(e) => due == Err::<CachedCatalogModel, FetchError>(e),
    }
}

/// Whether a status reports success.
pub fn status_is_success(status: u16) -> (r: bool)
    ensures
        r == is_success(status),
{
    200 <= status && status <= 299
}

/// Checks what came with a response before its body is read: the status
/// must be a success, else the transport has failed, and the `ETag` header
/// must be there.
pub fn validate(status: u16, etag: Option<String>) -> (r: Result<String, FetchError>)
    ensures
        r == validated(status, etag),
{
    if !status_is_success(status) {
        return Err(FetchError::Transport(TransportFailure::Status(status)));
    }
    match etag {
        Some(tag) => Ok(tag),
        None => Err(FetchError::MissingMetadata),
    }
}

/// Makes the snapshot of a document that was fetched at `now` with the
/// version token `etag`. A body that was no JSON (`None`) and a document
/// that is no catalog are both `Malformed`.
pub fn stamp(document: Option<Json>, etag: String, now: u64) -> (r: Result<
    CachedCatalog,
    FetchError,
>)
    ensures
        gives(
            r,
            stamped(
                match document {
                    Some(j) => Some(j@),
                    None => None,
                },
                etag@,
                now,
            ),
        ),
{
    match document {
        Some(j) => match Catalog::from_json(&j) {
            Some(catalog) => Ok(CachedCatalog { catalog, etag, downloaded_at: now }),
            None => Err(FetchError::Malformed),
        },
        None => Err(FetchError::Malformed),
    }
}

/// Makes of the transport's answer what the fetch gives: the snapshot,
/// stamped with `now`, or the error. The checks come in this order: a
/// transport that failed, a status that is no success, a missing `ETag`
/// header, a body that is no catalog.
pub fn conclude(reply: Result<FetchResponse, String>, now: u64) -> (r: Result<
    CachedCatalog,
    FetchError,
>)
    ensures
        gives(
            r,
            concluded(
                reply,
                match reply {
                    Ok(response) => json_text(response.body@),
                    Err(_) => None,
                },
                now,
            ),
        ),
{
    match reply {
        Err(reason) => Err(FetchError::Transport(TransportFailure::Network(reason))),
        Ok(response) => {
            let tag = validate(response.status, response.etag)?;
            stamp(parse_json(response.body.as_slice()), tag, now)
        },
    }
}

} // verus!
