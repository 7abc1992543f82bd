use vstd::prelude::*;
use crate::text::decimal_seq;

verus! {

#[derive(Clone, Debug, PartialEq)]
pub struct ClusterSnapshot {
    pub version: String,
    pub repositories: u64,
    pub backups: u64,
    pub restores: u64,
    pub last_reconcile_at: Option<String>,
}

#[derive(Clone, Debug, PartialEq)]
pub struct RepositoryListItem {
    pub name: String,
    pub namespace: String,
    pub phase: Option<String>,
    pub backend: Option<String>,
    pub message: Option<String>,
}

#[derive(Clone, Debug, PartialEq)]
pub struct BackupListItem {
    pub name: String,
    pub namespace: String,
    pub repository_ref: String,
    pub target_namespace: String,
    pub schedule: Option<String>,
    pub phase: Option<String>,
    pub message: Option<String>,
}

#[derive(Clone, Debug, PartialEq)]
pub struct RestoreListItem {
    pub name: String,
    pub namespace: String,
    pub backup_ref: String,
    pub target_namespace: String,
    pub phase: Option<String>,
    pub message: Option<String>,
}

/// A failed API call, with the message shown to the user.
#[derive(Clone, Debug, PartialEq)]
pub struct ApiClientError {
    pub message: String,
}

/// The repository creation request the UI sends.
#[derive(Clone, Debug, PartialEq)]
pub struct CreateRepositoryRequest {
    pub name: String,
    pub namespace: String,
    pub description: Option<String>,
    pub encryption_enabled: bool,
    pub backend: CreateRepositoryBackend,
}

#[derive(Clone, Debug, PartialEq)]
pub enum CreateRepositoryBackend {
    Local { path: String },
    S3 {
        bucket: String,
        prefix: Option<String>,
        endpoint: Option<String>,
        region: Option<String>,
        credentials_secret_ref: String,
        force_path_style: bool,
    },
}

impl ApiClientError {
    /// The message shown for the error (its `Display`).
    pub fn to_text(&self) -> (r: String)
        ensures
            r@ == self.message@,
    {
        self.message.clone()
    }
}

/// The error for a response whose status is not 2xx: `"HTTP {status}: {body}"`.
pub fn check_status(status: u16, body: &str) -> (r: Result<(), ApiClientError>)
    ensures
        200 <= status < 300 ==> r is Ok,
        !(200 <= status < 300) ==> (r matches Err(e) && e.message@ == "HTTP "@ + decimal_seq(
            status as nat,
        ) + ": "@ + body@),
{
    if 200 <= status && status < 300 {
        return Ok(());
    }
    let mut m = String::from_str("HTTP ");
    m.push_str(crate::text::u64_to_decimal(status as u64).as_str());
    m.push_str(": ");
    m.push_str(body);
    Err(ApiClientError { message: m })
}

/// The error for a request that could not be sent.
pub fn request_failed(err: &str) -> (r: ApiClientError)
    ensures
        r.message@ == "request failed: "@ + err@,
{
    ApiClientError { message: String::from_str("request failed: ").concat(err) }
}

/// The error for a body that is not the expected JSON.
pub fn invalid_json(err: &str) -> (r: ApiClientError)
    ensures
        r.message@ == "invalid JSON: "@ + err@,
{
    ApiClientError { message: String::from_str("invalid JSON: ").concat(err) }
}

} // verus!
