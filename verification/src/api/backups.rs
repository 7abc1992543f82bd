//! Backup endpoints: list rows with progress, and creation from a request naming the PVCs.

use vstd::prelude::*;
use crate::api::common::{
    is_bad_request, opt_as_str, opt_string_view, optional_trimmed, require_non_empty,
    required_text, trimmed_opt,
};
use crate::api::error::{ApiError, ApiResult};
use crate::api::state::object_namespace;
use crate::crd::backup::{backup_phase_text, ProteusBackup, ProteusBackupSpec, RetentionPolicy};
use crate::crd::meta::{name_any_of, namespace_of, opt_str, ObjectMeta};
use crate::text::trim_seq;

verus! {

#[derive(Clone, Debug)]
pub struct BackupListItem {
    pub name: String,
    pub namespace: String,
    pub repository_ref: String,
    pub target_namespace: String,
    pub pvc_names: Vec<String>,
    pub schedule: Option<String>,
    pub phase: Option<String>,
    pub message: Option<String>,
    pub last_snapshot_id: Option<String>,
    pub progress_percent: Option<u8>,
    pub duration_seconds: Option<u64>,
    pub throughput_bytes_per_sec: Option<u64>,
}

#[derive(Clone, Debug)]
pub struct CreateBackupRequest {
    pub name: String,
    /// Namespace of the backup resource itself; defaults to the target namespace.
    pub namespace: Option<String>,
    pub repository_ref: String,
    pub repository_namespace: Option<String>,
    pub target_namespace: String,
    pub pvc_names: Vec<String>,
}

pub open spec fn strings_view(v: Seq<String>) -> Seq<Seq<char>> {
    v.map_values(|s: String| s@)
}

fn clone_strings(v: &Vec<String>) -> (r: Vec<String>)
    ensures
        strings_view(r@) == strings_view(v@),
{
    let mut out: Vec<String> = Vec::new();
    let mut i: usize = 0;
    while i < v.len()
        invariant
            i <= v.len(),
            strings_view(out@) == strings_view(v@.take(i as int)),
        decreases v.len() - i,
    {
        out.push(v[i].clone());
        assert(strings_view(v@.take(i + 1)) =~= strings_view(v@.take(i as int)).push(v@[i as int]@));
        assert(strings_view(out@) =~= strings_view(v@.take(i + 1)));
        i += 1;
    }
    assert(v@.take(v.len() as int) =~= v@);
    out
}

/// The list row of a backup, with its PVCs and progress.
pub open spec fn backup_row(obj: ProteusBackup, row: BackupListItem) -> bool {
    &&& row.name@ == name_any_of(obj.metadata)
    &&& row.namespace@ == namespace_of(obj.metadata)
    &&& row.repository_ref@ == obj.spec.repository_ref@
    &&& row.target_namespace@ == obj.spec.target_namespace@
    &&& strings_view(row.pvc_names@) == strings_view(obj.spec.pvc_names@)
    &&& opt_string_view(row.schedule) == opt_str(obj.spec.schedule)
    &&& match obj.status {
        Some(s) => {
            &&& opt_string_view(row.phase) == match s.phase {
                Some(p) => Some(backup_phase_text(p)),
                None => None,
            }
            &&& opt_string_view(row.message) == opt_str(s.message)
            &&& opt_string_view(row.last_snapshot_id) == opt_str(s.last_snapshot_id)
            &&& row.progress_percent == s.progress_percent
            &&& row.duration_seconds == s.duration_seconds
            &&& row.throughput_bytes_per_sec == s.throughput_bytes_per_sec
        },
        None => {
            &&& row.phase is None
            &&& row.message is None
            &&& row.last_snapshot_id is None
            &&& row.progress_percent is None
            &&& row.duration_seconds is None
            &&& row.throughput_bytes_per_sec is None
        },
    }
}

pub fn backup_list_item(obj: &ProteusBackup) -> (r: BackupListItem)
    ensures
        backup_row(*obj, r),
{
    let clone_opt = |o: &Option<String>| -> (r: Option<String>)
        ensures
            r == *o,
        { crate::api::common::clone_opt_string(o) };
    let (phase, message, last_snapshot_id, progress_percent, duration_seconds, throughput) =
        match &obj.status {
        Some(s) => (
            match &s.phase {
                Some(p) => Some(p.label()),
                None => None,
            },
            clone_opt(&s.message),
            clone_opt(&s.last_snapshot_id),
            s.progress_percent,
            s.duration_seconds,
            s.throughput_bytes_per_sec,
        ),
        None => (None, None, None, None, None, None),
    };
    BackupListItem {
        name: obj.metadata.name_any(),
        namespace: object_namespace(&obj.metadata),
        repository_ref: obj.spec.repository_ref.clone(),
        target_namespace: obj.spec.target_namespace.clone(),
        pvc_names: clone_strings(&obj.spec.pvc_names),
        schedule: clone_opt(&obj.spec.schedule),
        phase,
        message,
        last_snapshot_id,
        progress_percent,
        duration_seconds,
        throughput_bytes_per_sec: throughput,
    }
}

/// PVC names trimmed, blank ones dropped, order kept.
pub open spec fn cleaned_names(s: Seq<Seq<char>>) -> Seq<Seq<char>>
    decreases s.len(),
{
    if s.len() == 0 {
        Seq::empty()
    } else {
        let rest = cleaned_names(s.drop_last());
        if trim_seq(s.last()).len() > 0 {
            rest.push(trim_seq(s.last()))
        } else {
            rest
        }
    }
}

fn clean_pvc_names(names: &Vec<String>) -> (r: Vec<String>)
    ensures
        strings_view(r@) == cleaned_names(strings_view(names@)),
{
    let mut out: Vec<String> = Vec::new();
    let mut i: usize = 0;
    while i < names.len()
        invariant
            i <= names.len(),
            strings_view(out@) == cleaned_names(strings_view(names@.take(i as int))),
        decreases names.len() - i,
    {
        let t = names[i].as_str().trim();
        proof {
            let pre = strings_view(names@.take(i + 1));
            assert(pre.drop_last() =~= strings_view(names@.take(i as int)));
            assert(pre.last() == names@[i as int]@);
        }
        if t.unicode_len() > 0 {
            out.push(String::from_str(t));
            assert(strings_view(out@) =~= cleaned_names(strings_view(names@.take(i as int))).push(
                t@,
            ));
        }
        i += 1;
    }
    assert(names@.take(names.len() as int) =~= names@);
    out
}

/// The message when no usable PVC name is given.
pub open spec fn no_pvcs_text() -> Seq<char> {
    "pvcNames must contain at least one PVC name"@
}

/// The outcome of a create request: the first failing check (name, target namespace,
/// repository reference, PVC names) or the namespace the backup goes to, which defaults to
/// the target namespace.
pub open spec fn create_backup_outcome(req: CreateBackupRequest) -> Result<Seq<char>, Seq<char>> {
    if trim_seq(req.name@).len() == 0 {
        Err(required_text("name"@))
    } else if trim_seq(req.target_namespace@).len() == 0 {
        Err(required_text("targetNamespace"@))
    } else if trim_seq(req.repository_ref@).len() == 0 {
        Err(required_text("repositoryRef"@))
    } else if cleaned_names(strings_view(req.pvc_names@)).len() == 0 {
        Err(no_pvcs_text())
    } else {
        Ok(
            match trimmed_opt(opt_string_view(req.namespace)) {
                Some(ns) => ns,
                None => trim_seq(req.target_namespace@),
            },
        )
    }
}

/// `b` is the backup a valid request asks for in namespace `ns`: volumes only, the default
/// retention, no schedule or selector, and no status.
pub open spec fn requested_backup(req: CreateBackupRequest, ns: Seq<char>, b: ProteusBackup) -> bool {
    &&& b.metadata.name matches Some(n) && n@ == trim_seq(req.name@)
    &&& b.metadata.namespace matches Some(x) && x@ == ns
    &&& b.metadata.generate_name is None
    &&& b.metadata.uid is None
    &&& b.spec.repository_ref@ == trim_seq(req.repository_ref@)
    &&& opt_string_view(b.spec.repository_namespace) == trimmed_opt(
        opt_string_view(req.repository_namespace),
    )
    &&& b.spec.target_namespace@ == trim_seq(req.target_namespace@)
    &&& strings_view(b.spec.pvc_names@) == cleaned_names(strings_view(req.pvc_names@))
    &&& b.spec.label_selector is None
    &&& b.spec.schedule is None
    &&& b.spec.retention.keep_last == 7
    &&& b.spec.retention.max_age_days is None
    &&& b.spec.include_volumes
    &&& !b.spec.include_cluster_resources
    &&& b.status is None
}

pub fn build_backup(req: &CreateBackupRequest) -> (r: ApiResult<(String, ProteusBackup)>)
    ensures
        match create_backup_outcome(*req) {
            Ok(ns) => r matches Ok((n, b)) && n@ == ns && requested_backup(*req, ns, b),
            Err(t) => r matches Err(e) && is_bad_request(e, t),
        },
{
    let name = require_non_empty("name", Some(req.name.as_str()))?;
    let target_namespace = require_non_empty(
        "targetNamespace",
        Some(req.target_namespace.as_str()),
    )?;
    let repository_ref = require_non_empty("repositoryRef", Some(req.repository_ref.as_str()))?;
    let namespace = match optional_trimmed(opt_as_str(&req.namespace)) {
        Some(ns) => ns,
        None => target_namespace.clone(),
    };
    let pvc_names = clean_pvc_names(&req.pvc_names);
    if pvc_names.len() == 0 {
        return Err(
            ApiError::BadRequest(String::from_str("pvcNames must contain at least one PVC name")),
        );
    }
    let backup = ProteusBackup {
        metadata: ObjectMeta::named(name, namespace.clone()),
        spec: ProteusBackupSpec {
            repository_ref,
            repository_namespace: optional_trimmed(opt_as_str(&req.repository_namespace)),
            target_namespace,
            pvc_names,
            label_selector: None,
            schedule: None,
            retention: RetentionPolicy::default(),
            include_volumes: true,
            include_cluster_resources: false,
        },
        status: None,
    };
    Ok((namespace, backup))
}

/// Where the repository of a backup in `namespace` lives: its repository namespace, else the
/// backup's own namespace, and the repository's name.
pub fn backup_repository_location(backup: &ProteusBackup, namespace: &str) -> (r: (String, String))
    ensures
        r.0@ == match backup.spec.repository_namespace {
            Some(ns) => ns@,
            None => namespace@,
        },
        r.1@ == backup.spec.repository_ref@,
{
    let repo_ns = match &backup.spec.repository_namespace {
        Some(ns) => ns.clone(),
        None => String::from_str(namespace),
    };
    (repo_ns, backup.spec.repository_ref.clone())
}


/// A new backup names a repository namespace only when the request gives a non-blank one
/// (trimmed); otherwise it names none, and its repository is looked up in the backup's own
/// namespace `ns` (not the target namespace).
pub proof fn lemma_backup_repository_namespace(req: CreateBackupRequest, ns: Seq<char>, b: ProteusBackup)
    requires
        create_backup_outcome(req) == Ok::<Seq<char>, Seq<char>>(ns),
        requested_backup(req, ns, b),
    ensures
        b.metadata.namespace matches Some(x) && x@ == ns,
        (req.repository_namespace is None || trim_seq(req.repository_namespace->0@).len() == 0)
            ==> b.spec.repository_namespace is None,
        (req.repository_namespace is Some && trim_seq(req.repository_namespace->0@).len() > 0)
            ==> (b.spec.repository_namespace matches Some(r) && r@ == trim_seq(
            req.repository_namespace->0@,
        )),
{
}

} // verus!
