//! The HTTP API's request and response types, and the status and body of its
//! refusals. The handlers' decisions are the flows of `download`, `report`
//! and `upload`, which are fed what the database and the object store answer,
//! one step at a time.

use vstd::prelude::*;
use crate::auth::{AuthCheck, auth_message};

verus! {

/// One of two kinds of answer.
pub enum AnyOf2<A, B> {
    A(A),
    B(B),
}

/// An internal failure, answered with status 500 and its text.
pub struct ServerError {
    inner: String,
}

impl ServerError {
    /// An error with the given text.
    pub fn new(inner: String) -> (e: ServerError)
        ensures
            e.text() == inner@,
    {
        ServerError { inner }
    }

    /// The error's text.
    pub closed spec fn text(self) -> Seq<char> {
        self.inner@
    }

    /// The status code and body of the answer.
    pub fn response(&self) -> (r: (u16, String))
        ensures
            r.0 == 500,
            r.1@ == self.text(),
    {
        (500, String::from_str(self.inner.as_str()))
    }
}

/// A request that the API refuses.
#[derive(Copy, Clone)]
pub enum ApiError {
    NotFound,
    ReportedObjectNotFound,
    Auth(AuthCheck),
}

/// The status code of a refusal.
pub open spec fn api_error_status(e: ApiError) -> u16 {
    match e {
        ApiError::NotFound => 404,
        ApiError::ReportedObjectNotFound => 404,
        ApiError::Auth(_) => 403,
    }
}

/// The body of a refusal.
pub open spec fn api_error_body(e: ApiError) -> Seq<char> {
    match e {
        ApiError::NotFound => "Not found."@,
        ApiError::ReportedObjectNotFound => "Reported object doesn't exist, or inaccessible."@,
        ApiError::Auth(a) => auth_message(a),
    }
}

impl ApiError {
    /// The status code and body of the answer.
    pub fn response(&self) -> (r: (u16, String))
        ensures
            r.0 == api_error_status(*self),
            r.1@ == api_error_body(*self),
    {
        match self {
            ApiError::NotFound => (404, String::from_str("Not found.")),
            ApiError::ReportedObjectNotFound => (
                404,
                String::from_str("Reported object doesn't exist, or inaccessible."),
            ),
            ApiError::Auth(ac) => (403, ac.message()),
        }
    }
}

/// The query of `/api/b/dl`.
pub struct DownloadByBuildId {
    pub id: u32,
}

/// The body of `/api/b/report`: a build that a maintainer has uploaded.
pub struct ReportBuild {
    pub built_by: String,
    pub package: String,
    pub version: String,
    pub completed_in: u32,
    /// Unix seconds.
    pub completed_at: i64,
    pub object_path: String,
    pub signature: String,
}

/// The body of `/api/b/upload`: a maintainer asks where to upload a build.
pub struct RequestUpload {
    pub built_by: String,
    /// Unix seconds.
    pub completed_at: i64,
    pub package: String,
    pub version: String,
    pub signature: String,
}

/// Where to upload a build, and the path of the object it will become.
pub struct RequestUploadResponse {
    pub signed_url: String,
    pub object_path: String,
}

/// The query of `/api/p/ls`.
pub struct ListPackages {
    pub m_id: Option<u32>,
}

/// The query of `/api/b/ls`.
pub struct ListBuilds {
    pub p: String,
}

/// The namespace in which maintainers sign uploads and reports.
pub open spec fn upload_namespace() -> Seq<char> {
    "loap-upload-file"@
}

/// How long a signed download link stays valid, in seconds.
pub open spec fn download_link_secs() -> u64 {
    180
}

/// How long a signed upload link stays valid, in seconds.
pub open spec fn upload_link_secs() -> u64 {
    420
}

} // verus!
