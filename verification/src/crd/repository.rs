use vstd::prelude::*;
use crate::crd::meta::{opt_str, ObjectMeta};

verus! {

/// Desired state of a `ProteusRepository`.
#[derive(Clone, Debug)]
pub struct ProteusRepositorySpec {
    pub backend: RepositoryBackend,
    pub description: Option<String>,
    pub encryption_enabled: bool,
    pub encryption_secret_ref: Option<String>,
}

/// Storage backend, tagged by `type: s3|local`.
#[derive(Clone, Debug)]
pub enum RepositoryBackend {
    S3(S3BackendSpec),
    Local(LocalBackendSpec),
}

/// What a backend is, as plain values.
pub enum BackendModel {
    S3 {
        bucket: Seq<char>,
        prefix: Option<Seq<char>>,
        endpoint: Option<Seq<char>>,
        region: Option<Seq<char>>,
        credentials_secret_ref: Seq<char>,
        force_path_style: bool,
    },
    Local { path: Seq<char> },
}

impl View for RepositoryBackend {
    type V = BackendModel;

    open spec fn view(&self) -> BackendModel {
        match self {
            RepositoryBackend::S3(s) => BackendModel::S3 {
                bucket: s.bucket@,
                prefix: opt_str(s.prefix),
                endpoint: opt_str(s.endpoint),
                region: opt_str(s.region),
                credentials_secret_ref: s.credentials_secret_ref@,
                force_path_style: s.force_path_style,
            },
            RepositoryBackend::Local(l) => BackendModel::Local { path: l.path@ },
        }
    }
}

#[derive(Clone, Debug)]
pub struct S3BackendSpec {
    pub bucket: String,
    pub prefix: Option<String>,
    pub endpoint: Option<String>,
    pub region: Option<String>,
    pub credentials_secret_ref: String,
    pub force_path_style: bool,
}

#[derive(Clone, Debug)]
pub struct LocalBackendSpec {
    pub path: String,
}

/// Observed state of a `ProteusRepository`.
#[derive(Clone, Debug)]
pub struct ProteusRepositoryStatus {
    pub phase: Option<RepositoryPhase>,
    pub message: Option<String>,
    pub object_count: Option<u64>,
    pub bytes_stored: Option<u64>,
    pub last_checked_at: Option<String>,
}

#[derive(Clone, Copy, Debug, PartialEq, Eq)]
pub enum RepositoryPhase {
    Pending,
    Ready,
    Failed,
    Terminating,
}

/// The serialized (PascalCase) name of a repository phase.
pub open spec fn repository_phase_text(p: RepositoryPhase) -> Seq<char> {
    match p {
        RepositoryPhase::Pending => "Pending"@,
        RepositoryPhase::Ready => "Ready"@,
        RepositoryPhase::Failed => "Failed"@,
        RepositoryPhase::Terminating => "Terminating"@,
    }
}

impl RepositoryPhase {
    pub fn label(&self) -> (r: String)
        ensures
            r@ == repository_phase_text(*self),
    {
        match self {
            RepositoryPhase::Pending => String::from_str("Pending"),
            RepositoryPhase::Ready => String::from_str("Ready"),
            RepositoryPhase::Failed => String::from_str("Failed"),
            RepositoryPhase::Terminating => String::from_str("Terminating"),
        }
    }
}

/// The backend's `type` tag.
pub open spec fn backend_type_text(b: RepositoryBackend) -> Seq<char> {
    match b {
        RepositoryBackend::S3(_) => "s3"@,
        RepositoryBackend::Local(_) => "local"@,
    }
}

impl RepositoryBackend {
    pub fn kind_label(&self) -> (r: String)
        ensures
            r@ == backend_type_text(*self),
    {
        match self {
            RepositoryBackend::S3(_) => String::from_str("s3"),
            RepositoryBackend::Local(_) => String::from_str("local"),
        }
    }
}

/// A `ProteusRepository` custom resource.
#[derive(Clone, Debug)]
pub struct ProteusRepository {
    pub metadata: ObjectMeta,
    pub spec: ProteusRepositorySpec,
    pub status: Option<ProteusRepositoryStatus>,
}


/// A repository phase is shown by its variant name, and distinct phases are shown differently.
pub proof fn lemma_repository_phase_names(a: RepositoryPhase, b: RepositoryPhase)
    ensures
        repository_phase_text(RepositoryPhase::Pending) == "Pending"@,
        repository_phase_text(RepositoryPhase::Ready) == "Ready"@,
        repository_phase_text(RepositoryPhase::Failed) == "Failed"@,
        repository_phase_text(RepositoryPhase::Terminating) == "Terminating"@,
        repository_phase_text(a) == repository_phase_text(b) ==> a == b,
{
    reveal_strlit("Pending");
    reveal_strlit("Ready");
    reveal_strlit("Failed");
    reveal_strlit("Terminating");
    if repository_phase_text(a) == repository_phase_text(b) && a != b {
        let ta = repository_phase_text(a);
        let tb = repository_phase_text(b);
        assert(ta.len() == tb.len() && ta[0] == tb[0]);
    }
}

/// A backend is shown by its `type` tag, `s3` or `local`, which tells the two apart.
pub proof fn lemma_backend_type_names(b: RepositoryBackend)
    ensures
        b is S3 ==> backend_type_text(b) == "s3"@,
        b is Local ==> backend_type_text(b) == "local"@,
        "s3"@ != "local"@,
{
    reveal_strlit("s3");
    reveal_strlit("local");
    assert("s3"@.len() != "local"@.len());
}

} // verus!
