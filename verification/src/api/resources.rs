//! Repository, backup and restore endpoints of the first API revision: repositories name an
//! existing credentials Secret, and backups are listed without their volumes.

use vstd::prelude::*;
use crate::api::common::{
    description_patch, description_patch_view, empty_patch_text, is_bad_request, opt_as_str,
    opt_str_view, opt_string_view, optional_trimmed, patch_description, require_non_empty,
    required_text, resolve_namespace, resolved_namespace, trimmed_opt, RepositorySpecPatch,
};
use crate::api::error::{ApiError, ApiResult};
use crate::api::state::object_namespace;
use crate::crd::backup::{backup_phase_text, ProteusBackup};
use crate::crd::meta::{name_any_of, namespace_of, opt_str, ObjectMeta};
use crate::crd::repository::{
    backend_type_text, repository_phase_text, BackendModel, LocalBackendSpec, ProteusRepository,
    ProteusRepositorySpec, RepositoryBackend, S3BackendSpec,
};
use crate::crd::restore::{restore_phase_text, ProteusRestore};

verus! {

#[derive(Clone, Debug)]
pub struct RepositoryListItem {
    pub name: String,
    pub namespace: String,
    pub phase: Option<String>,
    pub backend: Option<String>,
    pub message: Option<String>,
}

#[derive(Clone, Debug)]
pub struct BackupListItem {
    pub name: String,
    pub namespace: String,
    pub repository_ref: String,
    pub target_namespace: String,
    pub schedule: Option<String>,
    pub phase: Option<String>,
    pub message: Option<String>,
}

#[derive(Clone, Debug)]
pub struct RestoreListItem {
    pub name: String,
    pub namespace: String,
    pub backup_ref: String,
    pub target_namespace: String,
    pub phase: Option<String>,
    pub message: Option<String>,
}

#[derive(Clone, Debug)]
pub struct CreateRepositoryRequest {
    pub name: String,
    pub namespace: Option<String>,
    pub description: Option<String>,
    pub encryption_enabled: Option<bool>,
    pub backend: CreateRepositoryBackend,
}

#[derive(Clone, Debug)]
pub enum CreateRepositoryBackend {
    Local { path: Option<String> },
    S3 {
        bucket: Option<String>,
        prefix: Option<String>,
        endpoint: Option<String>,
        region: Option<String>,
        credentials_secret_ref: Option<String>,
        force_path_style: Option<bool>,
    },
}

#[derive(Clone, Debug)]
pub struct PatchRepositoryRequest {
    pub description: Option<String>,
    pub encryption_enabled: Option<bool>,
    pub backend: Option<CreateRepositoryBackend>,
}

/// The list row of a repository: name, namespace, phase label, backend type and message.
pub open spec fn repository_row(obj: ProteusRepository, row: RepositoryListItem) -> bool {
    &&& row.name@ == name_any_of(obj.metadata)
    &&& row.namespace@ == namespace_of(obj.metadata)
    &&& row.backend == Some(row.backend.unwrap()) && row.backend.unwrap()@ == backend_type_text(
        obj.spec.backend,
    )
    &&& opt_string_view(row.phase) == match obj.status {
        Some(s) => match s.phase {
            Some(p) => Some(repository_phase_text(p)),
            None => None,
        },
        None => None,
    }
    &&& opt_string_view(row.message) == match obj.status {
        Some(s) => opt_str(s.message),
        None => None,
    }
}

fn clone_opt(o: &Option<String>) -> (r: Option<String>)
    ensures
        r == *o,
{
    crate::api::common::clone_opt_string(o)
}

fn repository_list_item(obj: &ProteusRepository) -> (r: RepositoryListItem)
    ensures
        repository_row(*obj, r),
{
    let (phase, message) = match &obj.status {
        Some(s) => (
            match &s.phase {
                Some(p) => Some(p.label()),
                None => None,
            },
            clone_opt(&s.message),
        ),
        None => (None, None),
    };
    RepositoryListItem {
        name: obj.metadata.name_any(),
        namespace: object_namespace(&obj.metadata),
        phase,
        backend: Some(obj.spec.backend.kind_label()),
        message,
    }
}

/// The list row of a backup.
pub open spec fn backup_row(obj: ProteusBackup, row: BackupListItem) -> bool {
    &&& row.name@ == name_any_of(obj.metadata)
    &&& row.namespace@ == namespace_of(obj.metadata)
    &&& row.repository_ref@ == obj.spec.repository_ref@
    &&& row.target_namespace@ == obj.spec.target_namespace@
    &&& opt_string_view(row.schedule) == opt_str(obj.spec.schedule)
    &&& opt_string_view(row.phase) == match obj.status {
        Some(s) => match s.phase {
            Some(p) => Some(backup_phase_text(p)),
            None => None,
        },
        None => None,
    }
    &&& opt_string_view(row.message) == match obj.status {
        Some(s) => opt_str(s.message),
        None => None,
    }
}

pub fn backup_list_item(obj: &ProteusBackup) -> (r: BackupListItem)
    ensures
        backup_row(*obj, r),
{
    let (phase, message) = match &obj.status {
        Some(s) => (
            match &s.phase {
                Some(p) => Some(p.label()),
                None => None,
            },
            clone_opt(&s.message),
        ),
        None => (None, None),
    };
    BackupListItem {
        name: obj.metadata.name_any(),
        namespace: object_namespace(&obj.metadata),
        repository_ref: obj.spec.repository_ref.clone(),
        target_namespace: obj.spec.target_namespace.clone(),
        schedule: clone_opt(&obj.spec.schedule),
        phase,
        message,
    }
}

/// The list row of a restore.
pub open spec fn restore_row(obj: ProteusRestore, row: RestoreListItem) -> bool {
    &&& row.name@ == name_any_of(obj.metadata)
    &&& row.namespace@ == namespace_of(obj.metadata)
    &&& row.backup_ref@ == obj.spec.backup_ref@
    &&& row.target_namespace@ == obj.spec.target_namespace@
    &&& opt_string_view(row.phase) == match obj.status {
        Some(s) => match s.phase {
            Some(p) => Some(restore_phase_text(p)),
            None => None,
        },
        None => None,
    }
    &&& opt_string_view(row.message) == match obj.status {
        Some(s) => opt_str(s.message),
        None => None,
    }
}

pub fn restore_list_item(obj: &ProteusRestore) -> (r: RestoreListItem)
    ensures
        restore_row(*obj, r),
{
    let (phase, message) = match &obj.status {
        Some(s) => (
            match &s.phase {
                Some(p) => Some(p.label()),
                None => None,
            },
            clone_opt(&s.message),
        ),
        None => (None, None),
    };
    RestoreListItem {
        name: obj.metadata.name_any(),
        namespace: object_namespace(&obj.metadata),
        backup_ref: obj.spec.backup_ref.clone(),
        target_namespace: obj.spec.target_namespace.clone(),
        phase,
        message,
    }
}

/// The backend a request describes, or the message of the bad request it is: a local
/// backend needs a path; an S3 one a bucket, then a credentials Secret reference. Optional
/// S3 fields are trimmed and dropped when blank; path-style addressing defaults to on.
pub open spec fn requested_backend(b: CreateRepositoryBackend) -> Result<BackendModel, Seq<char>> {
    match b {
        CreateRepositoryBackend::Local { path } => match trimmed_opt(opt_string_view(path)) {
            Some(p) => Ok(BackendModel::Local { path: p }),
            None => Err(required_text("backend.path"@)),
        },
        CreateRepositoryBackend::S3 {
            bucket,
            prefix,
            endpoint,
            region,
            credentials_secret_ref,
            force_path_style,
        } => match trimmed_opt(opt_string_view(bucket)) {
            None => Err(required_text("backend.bucket"@)),
            Some(bk) => match trimmed_opt(opt_string_view(credentials_secret_ref)) {
                None => Err(required_text("backend.credentialsSecretRef"@)),
                Some(cr) => Ok(
                    BackendModel::S3 {
                        bucket: bk,
                        prefix: trimmed_opt(opt_string_view(prefix)),
                        endpoint: trimmed_opt(opt_string_view(endpoint)),
                        region: trimmed_opt(opt_string_view(region)),
                        credentials_secret_ref: cr,
                        force_path_style: match force_path_style {
                            Some(f) => f,
                            None => true,
                        },
                    },
                ),
            },
        },
    }
}

pub fn backend_from_request(backend: &CreateRepositoryBackend) -> (r: ApiResult<RepositoryBackend>)
    ensures
        match requested_backend(*backend) {
            Ok(m) => r matches Ok(b) && b@ == m,
            Err(t) => r matches Err(e) && is_bad_request(e, t),
        },
{
    match backend {
        CreateRepositoryBackend::Local { path } => {
            let path = require_non_empty("backend.path", opt_as_str(path))?;
            Ok(RepositoryBackend::Local(LocalBackendSpec { path }))
        },
        CreateRepositoryBackend::S3 {
            bucket,
            prefix,
            endpoint,
            region,
            credentials_secret_ref,
            force_path_style,
        } => {
            let bucket = require_non_empty("backend.bucket", opt_as_str(bucket))?;
            let credentials_secret_ref = require_non_empty(
                "backend.credentialsSecretRef",
                opt_as_str(credentials_secret_ref),
            )?;
            Ok(
                RepositoryBackend::S3(
                    S3BackendSpec {
                        bucket,
                        prefix: optional_trimmed(opt_as_str(prefix)),
                        endpoint: optional_trimmed(opt_as_str(endpoint)),
                        region: optional_trimmed(opt_as_str(region)),
                        credentials_secret_ref,
                        force_path_style: match force_path_style {
                            Some(f) => *f,
                            None => true,
                        },
                    },
                ),
            )
        },
    }
}

/// `repo` is the repository a create request asks for: named by the trimmed request name,
/// in `namespace`, with the requested backend and trimmed description, encryption as
/// requested (off by default), no encryption Secret and no status.
pub open spec fn requested_repository(
    req: CreateRepositoryRequest,
    namespace: Seq<char>,
    repo: ProteusRepository,
) -> bool {
    &&& repo.metadata.name matches Some(n) && n@ == trim_name(req.name@)
    &&& repo.metadata.namespace matches Some(ns) && ns@ == namespace
    &&& repo.metadata.generate_name is None
    &&& repo.metadata.uid is None
    &&& requested_backend(req.backend) == Ok::<BackendModel, Seq<char>>(repo.spec.backend@)
    &&& opt_string_view(repo.spec.description) == trimmed_opt(opt_string_view(req.description))
    &&& repo.spec.encryption_enabled == match req.encryption_enabled {
        Some(e) => e,
        None => false,
    }
    &&& repo.spec.encryption_secret_ref is None
    &&& repo.status is None
}

pub open spec fn trim_name(n: Seq<char>) -> Seq<char> {
    crate::text::trim_seq(n)
}

/// The outcome of a create request: the first failing check's message (name, then backend),
/// or the namespace the repository goes to.
pub open spec fn create_outcome(req: CreateRepositoryRequest) -> Result<Seq<char>, Seq<char>> {
    if trim_name(req.name@).len() == 0 {
        Err(required_text("name"@))
    } else {
        match requested_backend(req.backend) {
            Err(t) => Err(t),
            Ok(_) => Ok(resolved_namespace(opt_string_view(req.namespace))),
        }
    }
}

pub fn build_repository(req: &CreateRepositoryRequest) -> (r: ApiResult<(String, ProteusRepository)>)
    ensures
        match create_outcome(*req) {
            Ok(ns) => r matches Ok((n, repo)) && n@ == ns && requested_repository(*req, ns, repo),
            Err(t) => r matches Err(e) && is_bad_request(e, t),
        },
{
    let name = require_non_empty("name", Some(req.name.as_str()))?;
    let namespace = resolve_namespace(opt_as_str(&req.namespace))?;
    let backend = backend_from_request(&req.backend)?;
    let description = optional_trimmed(opt_as_str(&req.description));
    let repo = ProteusRepository {
        metadata: ObjectMeta::named(name, namespace.clone()),
        spec: ProteusRepositorySpec {
            backend,
            description,
            encryption_enabled: match req.encryption_enabled {
                Some(e) => e,
                None => false,
            },
            encryption_secret_ref: None,
        },
        status: None,
    };
    Ok((namespace, repo))
}

/// `patch` is the spec change a patch request asks for.
pub open spec fn requested_patch(req: PatchRepositoryRequest, patch: RepositorySpecPatch) -> bool {
    &&& description_patch_view(patch.description) == description_patch(
        opt_string_view(req.description),
    )
    &&& patch.encryption_enabled == req.encryption_enabled
    &&& match req.backend {
        None => patch.backend is None,
        Some(b) => patch.backend matches Some(pb) && requested_backend(b) == Ok::<
            BackendModel,
            Seq<char>,
        >(pb@),
    }
}

/// The outcome of a patch request: a bad request when it changes nothing or its backend is
/// invalid.
pub open spec fn patch_outcome(req: PatchRepositoryRequest) -> Result<(), Seq<char>> {
    if req.description is None && req.encryption_enabled is None && req.backend is None {
        Err(empty_patch_text())
    } else {
        match req.backend {
            Some(b) => match requested_backend(b) {
                Err(t) => Err(t),
                Ok(_) => Ok(()),
            },
            None => Ok(()),
        }
    }
}

/// The spec change of a patch request (the merge patch body is built from it).
pub fn build_repository_patch(req: &PatchRepositoryRequest) -> (r: ApiResult<RepositorySpecPatch>)
    ensures
        match patch_outcome(*req) {
            Ok(_) => r matches Ok(p) && requested_patch(*req, p),
            Err(t) => r matches Err(e) && is_bad_request(e, t),
        },
{
    if req.description.is_none() && req.encryption_enabled.is_none() && req.backend.is_none() {
        return Err(
            ApiError::BadRequest(
                String::from_str(
                    "at least one of description, encryptionEnabled, or backend is required",
                ),
            ),
        );
    }
    let backend = match &req.backend {
        Some(b) => Some(backend_from_request(b)?),
        None => None,
    };
    Ok(
        RepositorySpecPatch {
            description: patch_description(&req.description),
            encryption_enabled: req.encryption_enabled,
            backend,
        },
    )
}

} // verus!
