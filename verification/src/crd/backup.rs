use vstd::prelude::*;
use crate::crd::meta::ObjectMeta;

verus! {

/// Desired state of a `ProteusBackup`.
#[derive(Clone, Debug)]
pub struct ProteusBackupSpec {
    pub repository_ref: String,
    pub repository_namespace: Option<String>,
    pub target_namespace: String,
    pub pvc_names: Vec<String>,
    pub label_selector: Option<String>,
    pub schedule: Option<String>,
    pub retention: RetentionPolicy,
    pub include_volumes: bool,
    pub include_cluster_resources: bool,
}

/// The value `includeVolumes` takes when it is omitted.
pub fn default_true() -> (r: bool)
    ensures
        r,
{
    true
}

/// How many snapshots to keep.
#[derive(Clone, Debug)]
pub struct RetentionPolicy {
    pub keep_last: u32,
    pub max_age_days: Option<u32>,
}

/// The value `keepLast` takes when it is omitted.
pub fn default_keep_last() -> (r: u32)
    ensures
        r == 7,
{
    7
}

impl Default for RetentionPolicy {
    fn default() -> (r: Self)
        ensures
            r.keep_last == 7,
            r.max_age_days is None,
    {
        RetentionPolicy { keep_last: default_keep_last(), max_age_days: None }
    }
}

/// Observed state of a `ProteusBackup`.
#[derive(Clone, Debug)]
pub struct ProteusBackupStatus {
    pub phase: Option<BackupPhase>,
    pub message: Option<String>,
    pub last_snapshot_id: Option<String>,
    pub last_success_at: Option<String>,
    pub last_failure_at: Option<String>,
    pub last_bytes: Option<u64>,
    pub retained_snapshots: Option<u32>,
    pub progress_percent: Option<u8>,
    pub duration_seconds: Option<u64>,
    pub throughput_bytes_per_sec: Option<u64>,
}

impl Default for ProteusBackupStatus {
    fn default() -> (r: Self)
        ensures
            r.phase is None,
            r.message is None,
            r.last_snapshot_id is None,
            r.last_success_at is None,
            r.last_failure_at is None,
            r.last_bytes is None,
            r.retained_snapshots is None,
            r.progress_percent is None,
            r.duration_seconds is None,
            r.throughput_bytes_per_sec is None,
    {
        ProteusBackupStatus {
            phase: None,
            message: None,
            last_snapshot_id: None,
            last_success_at: None,
            last_failure_at: None,
            last_bytes: None,
            retained_snapshots: None,
            progress_percent: None,
            duration_seconds: None,
            throughput_bytes_per_sec: None,
        }
    }
}

#[derive(Clone, Copy, Debug, PartialEq, Eq)]
pub enum BackupPhase {
    Pending,
    Running,
    Succeeded,
    Failed,
}

/// The serialized (PascalCase) name of a backup phase.
pub open spec fn backup_phase_text(p: BackupPhase) -> Seq<char> {
    match p {
        BackupPhase::Pending => "Pending"@,
        BackupPhase::Running => "Running"@,
        BackupPhase::Succeeded => "Succeeded"@,
        BackupPhase::Failed => "Failed"@,
    }
}

impl BackupPhase {
    pub fn label(&self) -> (r: String)
        ensures
            r@ == backup_phase_text(*self),
    {
        match self {
            BackupPhase::Pending => String::from_str("Pending"),
            BackupPhase::Running => String::from_str("Running"),
            BackupPhase::Succeeded => String::from_str("Succeeded"),
            BackupPhase::Failed => String::from_str("Failed"),
        }
    }
}

/// A `ProteusBackup` custom resource.
#[derive(Clone, Debug)]
pub struct ProteusBackup {
    pub metadata: ObjectMeta,
    pub spec: ProteusBackupSpec,
    pub status: Option<ProteusBackupStatus>,
}


/// A backup phase is shown by its variant name, and distinct phases are shown differently.
pub proof fn lemma_backup_phase_names(a: BackupPhase, b: BackupPhase)
    ensures
        backup_phase_text(BackupPhase::Pending) == "Pending"@,
        backup_phase_text(BackupPhase::Running) == "Running"@,
        backup_phase_text(BackupPhase::Succeeded) == "Succeeded"@,
        backup_phase_text(BackupPhase::Failed) == "Failed"@,
        backup_phase_text(a) == backup_phase_text(b) ==> a == b,
{
    reveal_strlit("Pending");
    reveal_strlit("Running");
    reveal_strlit("Succeeded");
    reveal_strlit("Failed");
    if backup_phase_text(a) == backup_phase_text(b) && a != b {
        let ta = backup_phase_text(a);
        let tb = backup_phase_text(b);
        assert(ta.len() == tb.len() && ta[0] == tb[0]);
    }
}

} // verus!
