use vstd::prelude::*;
use crate::crd::meta::ObjectMeta;

verus! {

/// Desired state of a `ProteusRestore`.
#[derive(Clone, Debug)]
pub struct ProteusRestoreSpec {
    pub backup_ref: String,
    pub backup_namespace: Option<String>,
    pub snapshot_id: Option<String>,
    pub target_namespace: String,
    pub overwrite: bool,
    pub include_resources: Option<String>,
}

/// Observed state of a `ProteusRestore`.
#[derive(Clone, Debug)]
pub struct ProteusRestoreStatus {
    pub phase: Option<RestorePhase>,
    pub message: Option<String>,
    pub restored_snapshot_id: Option<String>,
    pub progress_percent: Option<u8>,
    pub completed_at: Option<String>,
}

#[derive(Clone, Copy, Debug, PartialEq, Eq)]
pub enum RestorePhase {
    Pending,
    Running,
    Succeeded,
    Failed,
}

/// The serialized (PascalCase) name of a restore phase.
pub open spec fn restore_phase_text(p: RestorePhase) -> Seq<char> {
    match p {
        RestorePhase::Pending => "Pending"@,
        RestorePhase::Running => "Running"@,
        RestorePhase::Succeeded => "Succeeded"@,
        RestorePhase::Failed => "Failed"@,
    }
}

impl RestorePhase {
    pub fn label(&self) -> (r: String)
        ensures
            r@ == restore_phase_text(*self),
    {
        match self {
            RestorePhase::Pending => String::from_str("Pending"),
            RestorePhase::Running => String::from_str("Running"),
            RestorePhase::Succeeded => String::from_str("Succeeded"),
            RestorePhase::Failed => String::from_str("Failed"),
        }
    }
}

/// A `ProteusRestore` custom resource.
#[derive(Clone, Debug)]
pub struct ProteusRestore {
    pub metadata: ObjectMeta,
    pub spec: ProteusRestoreSpec,
    pub status: Option<ProteusRestoreStatus>,
}


/// A restore phase is shown by its variant name, and distinct phases are shown differently.
pub proof fn lemma_restore_phase_names(a: RestorePhase, b: RestorePhase)
    ensures
        restore_phase_text(RestorePhase::Pending) == "Pending"@,
        restore_phase_text(RestorePhase::Running) == "Running"@,
        restore_phase_text(RestorePhase::Succeeded) == "Succeeded"@,
        restore_phase_text(RestorePhase::Failed) == "Failed"@,
        restore_phase_text(a) == restore_phase_text(b) ==> a == b,
{
    reveal_strlit("Pending");
    reveal_strlit("Running");
    reveal_strlit("Succeeded");
    reveal_strlit("Failed");
    if restore_phase_text(a) == restore_phase_text(b) && a != b {
        let ta = restore_phase_text(a);
        let tb = restore_phase_text(b);
        assert(ta.len() == tb.len() && ta[0] == tb[0]);
    }
}

} // verus!
