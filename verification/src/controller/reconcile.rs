//! What each reconcile decides: whether the spec is valid, the status to write and when to
//! come back.

use vstd::prelude::*;
use crate::api::common::clone_opt_string;
use crate::controller::error::{ControllerError, ControllerResult};
use crate::crd::backup::{BackupPhase, ProteusBackup, ProteusBackupStatus};
use crate::crd::meta::{opt_str, ObjectMeta};
use crate::crd::repository::{
    ProteusRepository, ProteusRepositoryStatus, RepositoryBackend, RepositoryPhase,
};
use crate::crd::restore::{ProteusRestore, ProteusRestoreStatus, RestorePhase};

verus! {

/// Seconds before a repository is reconciled again.
pub const REPOSITORY_REQUEUE_SECS: u64 = 300;

/// Seconds before a backup or a restore is reconciled again.
pub const BACKUP_REQUEUE_SECS: u64 = 60;

pub const RESTORE_REQUEUE_SECS: u64 = 60;

/// Seconds before a failed reconcile is retried.
pub const ERROR_REQUEUE_SECS: u64 = 30;

/// `e` is an invalid-spec error with message `text`.
pub open spec fn is_invalid_spec(e: ControllerError, text: Seq<char>) -> bool {
    e matches ControllerError::InvalidSpec(m) && m@ == text
}

/// The namespace a reconcile works in: the object's, or `default`.
pub open spec fn reconcile_namespace_of(m: ObjectMeta) -> Seq<char> {
    match m.namespace {
        Some(ns) => ns@,
        None => "default"@,
    }
}

pub fn reconcile_namespace(meta: &ObjectMeta) -> (r: String)
    ensures
        r@ == reconcile_namespace_of(*meta),
{
    match &meta.namespace {
        Some(ns) => ns.clone(),
        None => String::from_str("default"),
    }
}

/// Why a repository spec is invalid, if it is: an empty local path, an empty bucket, or an
/// empty credentials reference.
pub open spec fn repository_spec_problem(obj: ProteusRepository) -> Option<Seq<char>> {
    match obj.spec.backend {
        RepositoryBackend::Local(l) => if l.path@.len() == 0 {
            Some("local backend path must not be empty"@)
        } else {
            None
        },
        RepositoryBackend::S3(s) => if s.bucket@.len() == 0 {
            Some("s3 backend bucket must not be empty"@)
        } else if s.credentials_secret_ref@.len() == 0 {
            Some("s3 credentialsSecretRef must not be empty"@)
        } else {
            None
        },
    }
}

pub fn validate_repository_spec(obj: &ProteusRepository) -> (r: ControllerResult<()>)
    ensures
        match repository_spec_problem(*obj) {
            None => r is Ok,
            Some(t) => r matches Err(e) && is_invalid_spec(e, t),
        },
{
    match &obj.spec.backend {
        RepositoryBackend::Local(local) => {
            if local.path.as_str().unicode_len() == 0 {
                return Err(
                    ControllerError::InvalidSpec(
                        String::from_str("local backend path must not be empty"),
                    ),
                );
            }
        },
        RepositoryBackend::S3(s3) => {
            if s3.bucket.as_str().unicode_len() == 0 {
                return Err(
                    ControllerError::InvalidSpec(
                        String::from_str("s3 backend bucket must not be empty"),
                    ),
                );
            }
            if s3.credentials_secret_ref.as_str().unicode_len() == 0 {
                return Err(
                    ControllerError::InvalidSpec(
                        String::from_str("s3 credentialsSecretRef must not be empty"),
                    ),
                );
            }
        },
    }
    Ok(())
}

/// Why a backup spec is invalid, if it is.
pub open spec fn backup_spec_problem(obj: ProteusBackup) -> Option<Seq<char>> {
    if obj.spec.repository_ref@.len() == 0 {
        Some("repositoryRef must not be empty"@)
    } else if obj.spec.target_namespace@.len() == 0 {
        Some("targetNamespace must not be empty"@)
    } else if obj.spec.retention.keep_last == 0 {
        Some("retention.keepLast must be >= 1"@)
    } else {
        None
    }
}

pub fn validate_backup_spec(obj: &ProteusBackup) -> (r: ControllerResult<()>)
    ensures
        match backup_spec_problem(*obj) {
            None => r is Ok,
            Some(t) => r matches Err(e) && is_invalid_spec(e, t),
        },
{
    if obj.spec.repository_ref.as_str().unicode_len() == 0 {
        return Err(ControllerError::InvalidSpec(String::from_str("repositoryRef must not be empty")));
    }
    if obj.spec.target_namespace.as_str().unicode_len() == 0 {
        return Err(
            ControllerError::InvalidSpec(String::from_str("targetNamespace must not be empty")),
        );
    }
    if obj.spec.retention.keep_last == 0 {
        return Err(ControllerError::InvalidSpec(String::from_str("retention.keepLast must be >= 1")));
    }
    Ok(())
}

/// Why a restore spec is invalid, if it is.
pub open spec fn restore_spec_problem(obj: ProteusRestore) -> Option<Seq<char>> {
    if obj.spec.backup_ref@.len() == 0 {
        Some("backupRef must not be empty"@)
    } else if obj.spec.target_namespace@.len() == 0 {
        Some("targetNamespace must not be empty"@)
    } else {
        None
    }
}

pub fn validate_restore_spec(obj: &ProteusRestore) -> (r: ControllerResult<()>)
    ensures
        match restore_spec_problem(*obj) {
            None => r is Ok,
            Some(t) => r matches Err(e) && is_invalid_spec(e, t),
        },
{
    if obj.spec.backup_ref.as_str().unicode_len() == 0 {
        return Err(ControllerError::InvalidSpec(String::from_str("backupRef must not be empty")));
    }
    if obj.spec.target_namespace.as_str().unicode_len() == 0 {
        return Err(
            ControllerError::InvalidSpec(String::from_str("targetNamespace must not be empty")),
        );
    }
    Ok(())
}

/// The status a valid repository gets: Ready, accepted, checked at `now`, its counters kept.
pub open spec fn ready_status_ok(obj: ProteusRepository, now: Seq<char>, s: ProteusRepositoryStatus) -> bool {
    &&& s.phase == Some(RepositoryPhase::Ready)
    &&& s.message matches Some(m) && m@ == "repository accepted"@
    &&& s.object_count == match obj.status {
        Some(o) => o.object_count,
        None => None,
    }
    &&& s.bytes_stored == match obj.status {
        Some(o) => o.bytes_stored,
        None => None,
    }
    &&& s.last_checked_at matches Some(t) && t@ == now
}

pub fn repository_ready_status(obj: &ProteusRepository, now: String) -> (r: ProteusRepositoryStatus)
    ensures
        ready_status_ok(*obj, now@, r),
{
    ProteusRepositoryStatus {
        phase: Some(RepositoryPhase::Ready),
        message: Some(String::from_str("repository accepted")),
        object_count: match &obj.status {
            Some(s) => s.object_count,
            None => None,
        },
        bytes_stored: match &obj.status {
            Some(s) => s.bytes_stored,
            None => None,
        },
        last_checked_at: Some(now),
    }
}

/// The decision of one repository reconcile: the namespace and name it patches, the status it
/// writes and when it comes back.
pub struct RepositoryReconcile {
    pub namespace: String,
    pub name: String,
    pub status: ProteusRepositoryStatus,
    pub requeue_secs: u64,
}

pub fn plan_repository_reconcile(obj: &ProteusRepository, now: String) -> (r: ControllerResult<
    RepositoryReconcile,
>)
    ensures
        match repository_spec_problem(*obj) {
            Some(t) => r matches Err(e) && is_invalid_spec(e, t),
            None => r matches Ok(p) && {
                &&& p.namespace@ == reconcile_namespace_of(obj.metadata)
                &&& p.name@ == crate::crd::meta::name_any_of(obj.metadata)
                &&& ready_status_ok(*obj, now@, p.status)
                &&& p.requeue_secs == REPOSITORY_REQUEUE_SECS
            },
        },
{
    validate_repository_spec(obj)?;
    Ok(
        RepositoryReconcile {
            namespace: reconcile_namespace(&obj.metadata),
            name: obj.metadata.name_any(),
            status: repository_ready_status(obj, now),
            requeue_secs: REPOSITORY_REQUEUE_SECS,
        },
    )
}

/// The status a valid backup gets while no scheduler runs it: Pending, with the results of
/// earlier runs kept.
pub open spec fn pending_backup_status_ok(obj: ProteusBackup, s: ProteusBackupStatus) -> bool {
    &&& s.phase == Some(BackupPhase::Pending)
    &&& s.message matches Some(m) && m@ == "backup accepted; scheduler not yet implemented"@
    &&& match obj.status {
        Some(o) => {
            &&& opt_str(s.last_snapshot_id) == opt_str(o.last_snapshot_id)
            &&& opt_str(s.last_success_at) == opt_str(o.last_success_at)
            &&& opt_str(s.last_failure_at) == opt_str(o.last_failure_at)
            &&& s.last_bytes == o.last_bytes
            &&& s.retained_snapshots == o.retained_snapshots
        },
        None => {
            &&& s.last_snapshot_id is None
            &&& s.last_success_at is None
            &&& s.last_failure_at is None
            &&& s.last_bytes is None
            &&& s.retained_snapshots is None
        },
    }
    &&& s.progress_percent is None
    &&& s.duration_seconds is None
    &&& s.throughput_bytes_per_sec is None
}

pub fn backup_pending_status(obj: &ProteusBackup) -> (r: ProteusBackupStatus)
    ensures
        pending_backup_status_ok(*obj, r),
{
    let carry = carried_backup_status(obj);
    ProteusBackupStatus {
        phase: Some(BackupPhase::Pending),
        message: Some(String::from_str("backup accepted; scheduler not yet implemented")),
        ..carry
    }
}

/// The results of earlier runs a backup status carries over: snapshot id, success and
/// failure times, bytes and retained count; everything else empty.
pub open spec fn carried_status_ok(obj: ProteusBackup, s: ProteusBackupStatus) -> bool {
    &&& match obj.status {
        Some(o) => {
            &&& opt_str(s.last_snapshot_id) == opt_str(o.last_snapshot_id)
            &&& opt_str(s.last_success_at) == opt_str(o.last_success_at)
            &&& opt_str(s.last_failure_at) == opt_str(o.last_failure_at)
            &&& s.last_bytes == o.last_bytes
            &&& s.retained_snapshots == o.retained_snapshots
        },
        None => {
            &&& s.last_snapshot_id is None
            &&& s.last_success_at is None
            &&& s.last_failure_at is None
            &&& s.last_bytes is None
            &&& s.retained_snapshots is None
        },
    }
    &&& s.phase is None
    &&& s.message is None
    &&& s.progress_percent is None
    &&& s.duration_seconds is None
    &&& s.throughput_bytes_per_sec is None
}

pub fn carried_backup_status(obj: &ProteusBackup) -> (r: ProteusBackupStatus)
    ensures
        carried_status_ok(*obj, r),
{
    match &obj.status {
        Some(s) => ProteusBackupStatus {
            phase: None,
            message: None,
            last_snapshot_id: clone_opt_string(&s.last_snapshot_id),
            last_success_at: clone_opt_string(&s.last_success_at),
            last_failure_at: clone_opt_string(&s.last_failure_at),
            last_bytes: s.last_bytes,
            retained_snapshots: s.retained_snapshots,
            progress_percent: None,
            duration_seconds: None,
            throughput_bytes_per_sec: None,
        },
        None => ProteusBackupStatus::default(),
    }
}

/// The decision of one backup reconcile.
pub struct BackupReconcile {
    pub namespace: String,
    pub name: String,
    pub status: ProteusBackupStatus,
    pub requeue_secs: u64,
}

pub fn plan_backup_reconcile(obj: &ProteusBackup) -> (r: ControllerResult<BackupReconcile>)
    ensures
        match backup_spec_problem(*obj) {
            Some(t) => r matches Err(e) && is_invalid_spec(e, t),
            None => r matches Ok(p) && {
                &&& p.namespace@ == reconcile_namespace_of(obj.metadata)
                &&& p.name@ == crate::crd::meta::name_any_of(obj.metadata)
                &&& pending_backup_status_ok(*obj, p.status)
                &&& p.requeue_secs == BACKUP_REQUEUE_SECS
            },
        },
{
    validate_backup_spec(obj)?;
    Ok(
        BackupReconcile {
            namespace: reconcile_namespace(&obj.metadata),
            name: obj.metadata.name_any(),
            status: backup_pending_status(obj),
            requeue_secs: BACKUP_REQUEUE_SECS,
        },
    )
}

/// The status a valid restore gets while no restore engine runs it: Pending at 0% unless a
/// progress is already recorded, with the restored snapshot and completion time kept.
pub open spec fn pending_restore_status_ok(obj: ProteusRestore, s: ProteusRestoreStatus) -> bool {
    &&& s.phase == Some(RestorePhase::Pending)
    &&& s.message matches Some(m) && m@ == "restore accepted; restore engine not yet implemented"@
    &&& match obj.status {
        Some(o) => {
            &&& opt_str(s.restored_snapshot_id) == opt_str(o.restored_snapshot_id)
            &&& s.progress_percent == match o.progress_percent {
                Some(p) => Some(p),
                None => Some(0u8),
            }
            &&& opt_str(s.completed_at) == opt_str(o.completed_at)
        },
        None => {
            &&& s.restored_snapshot_id is None
            &&& s.progress_percent == Some(0u8)
            &&& s.completed_at is None
        },
    }
}

/// The status needs writing: there is none yet, or its phase or message differs.
pub open spec fn restore_status_changed(obj: ProteusRestore, s: ProteusRestoreStatus) -> bool {
    match obj.status {
        None => true,
        Some(cur) => cur.phase != s.phase || opt_str(cur.message) != opt_str(s.message),
    }
}

fn opt_string_eq(a: &Option<String>, b: &Option<String>) -> (r: bool)
    ensures
        r == (opt_str(*a) == opt_str(*b)),
{
    match (a, b) {
        (Some(x), Some(y)) => crate::text::str_eq(x.as_str(), y.as_str()),
        (None, None) => true,
        _ => false,
    }
}

fn opt_restore_phase_eq(a: &Option<RestorePhase>, b: &Option<RestorePhase>) -> (r: bool)
    ensures
        r == (*a == *b),
{
    match (a, b) {
        (Some(x), Some(y)) => match (x, y) {
            (RestorePhase::Pending, RestorePhase::Pending) => true,
            (RestorePhase::Running, RestorePhase::Running) => true,
            (RestorePhase::Succeeded, RestorePhase::Succeeded) => true,
            (RestorePhase::Failed, RestorePhase::Failed) => true,
            _ => false,
        },
        (None, None) => true,
        _ => false,
    }
}

/// The decision of one restore reconcile: the status, and whether it needs writing.
pub struct RestoreReconcile {
    pub namespace: String,
    pub name: String,
    pub status: ProteusRestoreStatus,
    pub changed: bool,
    pub requeue_secs: u64,
}

pub fn plan_restore_reconcile(obj: &ProteusRestore) -> (r: ControllerResult<RestoreReconcile>)
    ensures
        match restore_spec_problem(*obj) {
            Some(t) => r matches Err(e) && is_invalid_spec(e, t),
            None => r matches Ok(p) && {
                &&& p.namespace@ == reconcile_namespace_of(obj.metadata)
                &&& p.name@ == crate::crd::meta::name_any_of(obj.metadata)
                &&& pending_restore_status_ok(*obj, p.status)
                &&& p.changed == restore_status_changed(*obj, p.status)
                &&& p.requeue_secs == RESTORE_REQUEUE_SECS
            },
        },
{
    validate_restore_spec(obj)?;
    let status = match &obj.status {
        Some(s) => ProteusRestoreStatus {
            phase: Some(RestorePhase::Pending),
            message: Some(String::from_str("restore accepted; restore engine not yet implemented")),
            restored_snapshot_id: clone_opt_string(&s.restored_snapshot_id),
            progress_percent: match s.progress_percent {
                Some(p) => Some(p),
                None => Some(0),
            },
            completed_at: clone_opt_string(&s.completed_at),
        },
        None => ProteusRestoreStatus {
            phase: Some(RestorePhase::Pending),
            message: Some(String::from_str("restore accepted; restore engine not yet implemented")),
            restored_snapshot_id: None,
            progress_percent: Some(0),
            completed_at: None,
        },
    };
    let changed = match &obj.status {
        None => true,
        Some(cur) => !opt_restore_phase_eq(&cur.phase, &status.phase) || !opt_string_eq(
            &cur.message,
            &status.message,
        ),
    };
    Ok(
        RestoreReconcile {
            namespace: reconcile_namespace(&obj.metadata),
            name: obj.metadata.name_any(),
            status,
            changed,
            requeue_secs: RESTORE_REQUEUE_SECS,
        },
    )
}

} // verus!
