//! Repository endpoints: requests may carry inline S3 keys and ask for a generated
//! encryption key, which the API stores as managed Secrets.

use vstd::prelude::*;
use crate::api::common::{
    description_patch, description_patch_view, empty_patch_text, is_bad_request, opt_as_str,
    opt_str_view, opt_string_view, optional_trimmed, patch_description, require_non_empty,
    required_text, resolve_namespace, resolved_namespace, trimmed_opt, RepositorySpecPatch,
};
use crate::api::error::{ApiError, ApiResult};
use crate::api::secrets::{InlineEncryptionKey, InlineS3Credentials};
use crate::api::state::object_namespace;
use crate::cas::crypto::{base64_encode_seq, EncryptionKey};
use crate::crd::meta::{name_any_of, namespace_of, opt_str, ObjectMeta};
use crate::crd::repository::{
    backend_type_text, repository_phase_text, BackendModel, LocalBackendSpec, ProteusRepository,
    ProteusRepositorySpec, RepositoryBackend, S3BackendSpec,
};

verus! {

#[derive(Clone, Debug)]
pub struct RepositoryListItem {
    pub name: String,
    pub namespace: String,
    pub phase: Option<String>,
    pub backend: Option<String>,
    pub message: Option<String>,
}

#[derive(Clone, Debug)]
pub struct CreateRepositoryRequest {
    pub name: String,
    pub namespace: Option<String>,
    pub description: Option<String>,
    pub encryption_enabled: Option<bool>,
    /// An existing Secret; omit it (with encryption enabled) to have a key generated.
    pub encryption_secret_ref: Option<String>,
    pub backend: CreateRepositoryBackend,
}

#[derive(Clone, Debug)]
pub enum CreateRepositoryBackend {
    Local { path: Option<String> },
    S3 {
        bucket: Option<String>,
        prefix: Option<String>,
        endpoint: Option<String>,
        region: Option<String>,
        /// An existing Secret, or the name to give one made from inline keys.
        credentials_secret_ref: Option<String>,
        access_key_id: Option<String>,
        secret_access_key: Option<String>,
        force_path_style: Option<bool>,
    },
}

/// A validated create request: the repository and the Secrets to write with it.
#[derive(Clone, Debug)]
pub struct PreparedRepository {
    pub namespace: String,
    pub repo: ProteusRepository,
    pub inline_s3_credentials: Option<InlineS3Credentials>,
    pub inline_encryption_key: Option<InlineEncryptionKey>,
}

#[derive(Clone, Debug)]
pub struct PatchRepositoryRequest {
    pub description: Option<String>,
    pub encryption_enabled: Option<bool>,
    pub backend: Option<CreateRepositoryBackend>,
}

/// The list row of a repository: name, namespace, phase label, backend type and message.
pub open spec fn repository_row(obj: ProteusRepository, row: RepositoryListItem) -> bool {
    &&& row.name@ == name_any_of(obj.metadata)
    &&& row.namespace@ == namespace_of(obj.metadata)
    &&& row.backend matches Some(b) && b@ == backend_type_text(obj.spec.backend)
    &&& opt_string_view(row.phase) == match obj.status {
        Some(s) => match s.phase {
            Some(p) => Some(repository_phase_text(p)),
            None => None,
        },
        None => None,
    }
    &&& opt_string_view(row.message) == match obj.status {
        Some(s) => opt_str(s.message),
        None => None,
    }
}

pub fn repository_list_item(obj: &ProteusRepository) -> (r: RepositoryListItem)
    ensures
        repository_row(*obj, r),
{
    let (phase, message) = match &obj.status {
        Some(s) => (
            match &s.phase {
                Some(p) => Some(p.label()),
                None => None,
            },
            crate::api::common::clone_opt_string(&s.message),
        ),
        None => (None, None),
    };
    RepositoryListItem {
        name: obj.metadata.name_any(),
        namespace: object_namespace(&obj.metadata),
        phase,
        backend: Some(obj.spec.backend.kind_label()),
        message,
    }
}

/// The message when only one of the two S3 keys is given.
pub open spec fn partial_keys_text() -> Seq<char> {
    "backend.accessKeyId and backend.secretAccessKey must both be provided"@
}

/// The message when neither keys nor a Secret reference are given.
pub open spec fn missing_credentials_text() -> Seq<char> {
    "provide backend.accessKeyId + backend.secretAccessKey, or backend.credentialsSecretRef"@
}

/// How S3 credentials are resolved, over trimmed, non-blank values: both keys make inline
/// credentials stored under the given Secret name or `<repo>-s3-creds`; no keys need an
/// existing Secret reference; one key alone, or nothing at all, is a bad request.
/// Ok carries the Secret name and the inline keys, if any.
pub open spec fn resolved_s3_credentials(
    repo_name: Seq<char>,
    credentials_secret_ref: Option<Seq<char>>,
    access_key_id: Option<Seq<char>>,
    secret_access_key: Option<Seq<char>>,
) -> Result<(Seq<char>, Option<(Seq<char>, Seq<char>)>), Seq<char>> {
    let ak = trimmed_opt(access_key_id);
    let sk = trimmed_opt(secret_access_key);
    let sr = trimmed_opt(credentials_secret_ref);
    match (ak, sk) {
        (Some(a), Some(s)) => Ok(
            (
                match sr {
                    Some(n) => n,
                    None => repo_name + "-s3-creds"@,
                },
                Some((a, s)),
            ),
        ),
        (None, None) => match sr {
            Some(n) => Ok((n, None)),
            None => Err(missing_credentials_text()),
        },
        _ => Err(partial_keys_text()),
    }
}

pub open spec fn inline_creds_ok(
    r: Option<InlineS3Credentials>,
    name: Seq<char>,
    keys: Option<(Seq<char>, Seq<char>)>,
) -> bool {
    match keys {
        None => r is None,
        Some((a, s)) => r matches Some(c) && (c.secret_name@ == name && c.access_key_id@ == a
            && c.secret_access_key@ == s),
    }
}

fn resolve_s3_credentials(
    repo_name: &str,
    credentials_secret_ref: Option<&str>,
    access_key_id: Option<&str>,
    secret_access_key: Option<&str>,
) -> (r: ApiResult<(String, Option<InlineS3Credentials>)>)
    ensures
        match resolved_s3_credentials(
            repo_name@,
            opt_str_view(credentials_secret_ref),
            opt_str_view(access_key_id),
            opt_str_view(secret_access_key),
        ) {
            Ok((name, keys)) => r matches Ok((n, c)) && n@ == name && inline_creds_ok(
                c,
                name,
                keys,
            ),
            Err(t) => r matches Err(e) && is_bad_request(e, t),
        },
{
    let access_key_id = optional_trimmed(access_key_id);
    let secret_access_key = optional_trimmed(secret_access_key);
    let credentials_secret_ref = optional_trimmed(credentials_secret_ref);
    match (access_key_id, secret_access_key, credentials_secret_ref) {
        (Some(access_key_id), Some(secret_access_key), secret_ref) => {
            let secret_name = match secret_ref {
                Some(n) => n,
                None => String::from_str(repo_name).concat("-s3-creds"),
            };
            Ok(
                (
                    secret_name.clone(),
                    Some(InlineS3Credentials { secret_name, access_key_id, secret_access_key }),
                ),
            )
        },
        (None, None, Some(secret_name)) => Ok((secret_name, None)),
        (Some(_), None, _) | (None, Some(_), _) => Err(
            ApiError::BadRequest(
                String::from_str(
                    "backend.accessKeyId and backend.secretAccessKey must both be provided",
                ),
            ),
        ),
        (None, None, None) => Err(
            ApiError::BadRequest(
                String::from_str(
                    "provide backend.accessKeyId + backend.secretAccessKey, or backend.credentialsSecretRef",
                ),
            ),
        ),
    }
}

/// The backend a request describes with the inline keys to store, or the message of the bad
/// request it is: a local backend needs a path; an S3 one a bucket, then credentials.
pub open spec fn requested_backend(b: CreateRepositoryBackend, repo_name: Seq<char>) -> Result<
    (BackendModel, Seq<char>, Option<(Seq<char>, Seq<char>)>),
    Seq<char>,
> {
    match b {
        CreateRepositoryBackend::Local { path } => match trimmed_opt(opt_string_view(path)) {
            Some(p) => Ok((BackendModel::Local { path: p }, Seq::empty(), None)),
            None => Err(required_text("backend.path"@)),
        },
        CreateRepositoryBackend::S3 {
            bucket,
            prefix,
            endpoint,
            region,
            credentials_secret_ref,
            access_key_id,
            secret_access_key,
            force_path_style,
        } => match trimmed_opt(opt_string_view(bucket)) {
            None => Err(required_text("backend.bucket"@)),
            Some(bk) => match resolved_s3_credentials(
                repo_name,
                opt_string_view(credentials_secret_ref),
                opt_string_view(access_key_id),
                opt_string_view(secret_access_key),
            ) {
                Err(t) => Err(t),
                Ok((name, keys)) => Ok(
                    (
                        BackendModel::S3 {
                            bucket: bk,
                            prefix: trimmed_opt(opt_string_view(prefix)),
                            endpoint: trimmed_opt(opt_string_view(endpoint)),
                            region: trimmed_opt(opt_string_view(region)),
                            credentials_secret_ref: name,
                            force_path_style: match force_path_style {
                                Some(f) => f,
                                None => true,
                            },
                        },
                        name,
                        keys,
                    ),
                ),
            },
        },
    }
}

pub fn backend_from_request(backend: &CreateRepositoryBackend, repo_name: &str) -> (r: ApiResult<
    (RepositoryBackend, Option<InlineS3Credentials>),
>)
    ensures
        match requested_backend(*backend, repo_name@) {
            Ok((m, name, keys)) => r matches Ok((b, c)) && b@ == m && inline_creds_ok(c, name, keys),
            Err(t) => r matches Err(e) && is_bad_request(e, t),
        },
{
    match backend {
        CreateRepositoryBackend::Local { path } => {
            let path = require_non_empty("backend.path", opt_as_str(path))?;
            Ok((RepositoryBackend::Local(LocalBackendSpec { path }), None))
        },
        CreateRepositoryBackend::S3 {
            bucket,
            prefix,
            endpoint,
            region,
            credentials_secret_ref,
            access_key_id,
            secret_access_key,
            force_path_style,
        } => {
            let bucket = require_non_empty("backend.bucket", opt_as_str(bucket))?;
            let (credentials_secret_ref, inline) = resolve_s3_credentials(
                repo_name,
                opt_as_str(credentials_secret_ref),
                opt_as_str(access_key_id),
                opt_as_str(secret_access_key),
            )?;
            Ok(
                (
                    RepositoryBackend::S3(
                        S3BackendSpec {
                            bucket,
                            prefix: optional_trimmed(opt_as_str(prefix)),
                            endpoint: optional_trimmed(opt_as_str(endpoint)),
                            region: optional_trimmed(opt_as_str(region)),
                            credentials_secret_ref,
                            force_path_style: match force_path_style {
                                Some(f) => *f,
                                None => true,
                            },
                        },
                    ),
                    inline,
                ),
            )
        },
    }
}

/// Encryption settings of a new repository: off (and any reference ignored) unless enabled;
/// when enabled, a given reference is used as is, and without one a fresh key is generated
/// under the Secret name `<repo>-encryption`.
pub open spec fn encryption_ok(
    repo_name: Seq<char>,
    encryption_enabled: bool,
    encryption_secret_ref: Option<Seq<char>>,
    r: (bool, Option<String>, Option<InlineEncryptionKey>),
) -> bool {
    if !encryption_enabled {
        !r.0 && r.1 is None && r.2 is None
    } else {
        match trimmed_opt(encryption_secret_ref) {
            Some(sr) => {
                &&& r.0
                &&& r.1 matches Some(n) && n@ == sr
                &&& r.2 is None
            },
            None => {
                let name = repo_name + "-encryption"@;
                &&& r.0
                &&& r.1 matches Some(n) && n@ == name
                &&& r.2 matches Some(k) && k.secret_name@ == name && exists|key: Seq<u8>|
                    key.len() == 32 && k.key_base64@ == base64_encode_seq(key)
            },
        }
    }
}

pub fn resolve_encryption(
    repo_name: &str,
    encryption_enabled: bool,
    encryption_secret_ref: Option<&str>,
) -> (r: (bool, Option<String>, Option<InlineEncryptionKey>))
    ensures
        encryption_ok(repo_name@, encryption_enabled, opt_str_view(encryption_secret_ref), r),
{
    if !encryption_enabled {
        return (false, None, None);
    }
    match optional_trimmed(encryption_secret_ref) {
        Some(secret_ref) => (true, Some(secret_ref), None),
        None => {
            let secret_name = String::from_str(repo_name).concat("-encryption");
            let key = EncryptionKey::generate();
            let key_base64 = key.to_base64();
            (
                true,
                Some(secret_name.clone()),
                Some(InlineEncryptionKey { secret_name, key_base64 }),
            )
        },
    }
}

pub open spec fn trim_name(n: Seq<char>) -> Seq<char> {
    crate::text::trim_seq(n)
}

/// The outcome of a create request: the first failing check's message (name, then backend),
/// or the namespace the repository goes to.
pub open spec fn create_outcome(req: CreateRepositoryRequest) -> Result<Seq<char>, Seq<char>> {
    if trim_name(req.name@).len() == 0 {
        Err(required_text("name"@))
    } else {
        match requested_backend(req.backend, trim_name(req.name@)) {
            Err(t) => Err(t),
            Ok(_) => Ok(resolved_namespace(opt_string_view(req.namespace))),
        }
    }
}

/// `p` is what a valid create request prepares.
pub open spec fn prepared_ok(req: CreateRepositoryRequest, p: PreparedRepository) -> bool {
    let name = trim_name(req.name@);
    let ns = resolved_namespace(opt_string_view(req.namespace));
    let enabled = match req.encryption_enabled {
        Some(e) => e,
        None => false,
    };
    &&& p.namespace@ == ns
    &&& p.repo.metadata.name matches Some(n) && n@ == name
    &&& p.repo.metadata.namespace matches Some(x) && x@ == ns
    &&& p.repo.metadata.generate_name is None
    &&& p.repo.metadata.uid is None
    &&& p.repo.status is None
    &&& requested_backend(req.backend, name) matches Ok((m, cname, keys)) && p.repo.spec.backend@
        == m && inline_creds_ok(p.inline_s3_credentials, cname, keys)
    &&& opt_string_view(p.repo.spec.description) == trimmed_opt(opt_string_view(req.description))
    &&& encryption_ok(
        name,
        enabled,
        opt_string_view(req.encryption_secret_ref),
        (p.repo.spec.encryption_enabled, p.repo.spec.encryption_secret_ref, p.inline_encryption_key),
    )
}

pub fn build_repository(req: &CreateRepositoryRequest) -> (r: ApiResult<PreparedRepository>)
    ensures
        match create_outcome(*req) {
            Ok(_) => r matches Ok(p) && prepared_ok(*req, p),
            Err(t) => r matches Err(e) && is_bad_request(e, t),
        },
{
    let name = require_non_empty("name", Some(req.name.as_str()))?;
    let namespace = resolve_namespace(opt_as_str(&req.namespace))?;
    let (backend, inline_s3_credentials) = backend_from_request(&req.backend, name.as_str())?;
    let description = optional_trimmed(opt_as_str(&req.description));
    let (encryption_enabled, encryption_secret_ref, inline_encryption_key) = resolve_encryption(
        name.as_str(),
        match req.encryption_enabled {
            Some(e) => e,
            None => false,
        },
        opt_as_str(&req.encryption_secret_ref),
    );
    let repo = ProteusRepository {
        metadata: ObjectMeta::named(name, namespace.clone()),
        spec: ProteusRepositorySpec {
            backend,
            description,
            encryption_enabled,
            encryption_secret_ref,
        },
        status: None,
    };
    Ok(PreparedRepository { namespace, repo, inline_s3_credentials, inline_encryption_key })
}

/// The outcome of a patch request on repository `name`: a bad request when it changes
/// nothing or its backend is invalid.
pub open spec fn patch_outcome(req: PatchRepositoryRequest, name: Seq<char>) -> Result<(), Seq<char>> {
    if req.description is None && req.encryption_enabled is None && req.backend is None {
        Err(empty_patch_text())
    } else {
        match req.backend {
            Some(b) => match requested_backend(b, name) {
                Err(t) => Err(t),
                Ok(_) => Ok(()),
            },
            None => Ok(()),
        }
    }
}

/// The spec change of a patch request on repository `name`, and the inline S3 credentials to
/// store once it is applied.
pub fn build_repository_patch(req: &PatchRepositoryRequest, name: &str) -> (r: ApiResult<
    (RepositorySpecPatch, Option<InlineS3Credentials>),
>)
    ensures
        match patch_outcome(*req, name@) {
            Ok(_) => r matches Ok((p, c)) && {
                &&& description_patch_view(p.description) == description_patch(
                    opt_string_view(req.description),
                )
                &&& p.encryption_enabled == req.encryption_enabled
                &&& match req.backend {
                    None => p.backend is None && c is None,
                    Some(b) => requested_backend(b, name@) matches Ok((m, cname, keys))
                        && p.backend matches Some(pb) && pb@ == m && inline_creds_ok(
                        c,
                        cname,
                        keys,
                    ),
                }
            },
            Err(t) => r matches Err(e) && is_bad_request(e, t),
        },
{
    if req.description.is_none() && req.encryption_enabled.is_none() && req.backend.is_none() {
        return Err(
            ApiError::BadRequest(
                String::from_str(
                    "at least one of description, encryptionEnabled, or backend is required",
                ),
            ),
        );
    }
    let (backend, inline) = match &req.backend {
        Some(b) => {
            let (backend, inline) = backend_from_request(b, name)?;
            (Some(backend), inline)
        },
        None => (None, None),
    };
    Ok(
        (
            RepositorySpecPatch {
                description: patch_description(&req.description),
                encryption_enabled: req.encryption_enabled,
                backend,
            },
            inline,
        ),
    )
}


/// The credentials Secret of a new S3 repository. With both keys given, the keys are stored
/// in the Secret the request names, when it names one (trimmed), and in `<repo>-s3-creds`
/// only when it names none; the repository refers to that same Secret. With no keys, the
/// repository refers to the named Secret and nothing is stored.
pub proof fn lemma_s3_credentials_secret(req: CreateRepositoryRequest, p: PreparedRepository)
    requires
        prepared_ok(req, p),
        req.backend is S3,
    ensures
        ({
            let ak = trimmed_opt(opt_string_view(req.backend->access_key_id));
            let sk = trimmed_opt(opt_string_view(req.backend->secret_access_key));
            let sr = trimmed_opt(opt_string_view(req.backend->credentials_secret_ref));
            let expected = match sr {
                Some(n) => n,
                None => trim_name(req.name@) + "-s3-creds"@,
            };
            &&& p.repo.spec.backend is S3
            &&& p.repo.spec.backend->S3_0.credentials_secret_ref@ == expected
            &&& (ak is Some && sk is Some) ==> (p.inline_s3_credentials matches Some(c) && {
                &&& c.secret_name@ == expected
                &&& c.access_key_id@ == ak->0
                &&& c.secret_access_key@ == sk->0
            })
            &&& (ak is None && sk is None) ==> (sr is Some && p.inline_s3_credentials is None)
        }),
{
}

} // verus!
