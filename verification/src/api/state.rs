use vstd::prelude::*;
use crate::crd::meta::{namespace_of, ObjectMeta};
use crate::text::{decimal_seq, u64_to_decimal};

verus! {

/// Counts and version shown on the cluster page.
#[derive(Clone, Debug)]
pub struct ClusterSnapshot {
    pub version: String,
    pub repositories: u64,
    pub backups: u64,
    pub restores: u64,
    pub last_reconcile_at: Option<String>,
}

impl Default for ClusterSnapshot {
    fn default() -> (r: Self)
        ensures
            r.version@ == Seq::<char>::empty(),
            r.repositories == 0,
            r.backups == 0,
            r.restores == 0,
            r.last_reconcile_at is None,
    {
        ClusterSnapshot {
            version: String::new(),
            repositories: 0,
            backups: 0,
            restores: 0,
            last_reconcile_at: None,
        }
    }
}

/// The Prometheus text exposition of the resource counts: a help line, a type line and a
/// gauge sample for repositories, backups and restores, in that order.
pub open spec fn metrics_text_of(repositories: u64, backups: u64, restores: u64) -> Seq<char> {
    "# HELP proteus_repositories Number of ProteusRepository objects\n"@
        + "# TYPE proteus_repositories gauge\n"@ + "proteus_repositories "@ + decimal_seq(
        repositories as nat,
    ) + "\n"@ + "# HELP proteus_backups Number of ProteusBackup objects\n"@
        + "# TYPE proteus_backups gauge\n"@ + "proteus_backups "@ + decimal_seq(backups as nat)
        + "\n"@ + "# HELP proteus_restores Number of ProteusRestore objects\n"@
        + "# TYPE proteus_restores gauge\n"@ + "proteus_restores "@ + decimal_seq(restores as nat)
        + "\n"@
}

/// The `/metrics` body for a cluster snapshot.
pub fn metrics_text(snap: &ClusterSnapshot) -> (r: String)
    ensures
        r@ == metrics_text_of(snap.repositories, snap.backups, snap.restores),
{
    let mut t = String::from_str("# HELP proteus_repositories Number of ProteusRepository objects\n");
    t.push_str("# TYPE proteus_repositories gauge\n");
    t.push_str("proteus_repositories ");
    t.push_str(u64_to_decimal(snap.repositories).as_str());
    t.push_str("\n");
    t.push_str("# HELP proteus_backups Number of ProteusBackup objects\n");
    t.push_str("# TYPE proteus_backups gauge\n");
    t.push_str("proteus_backups ");
    t.push_str(u64_to_decimal(snap.backups).as_str());
    t.push_str("\n");
    t.push_str("# HELP proteus_restores Number of ProteusRestore objects\n");
    t.push_str("# TYPE proteus_restores gauge\n");
    t.push_str("proteus_restores ");
    t.push_str(u64_to_decimal(snap.restores).as_str());
    t.push_str("\n");
    t
}

/// What readiness depends on: the Kubernetes API answers and the CRDs are installed.
#[derive(Clone, Copy, Debug, PartialEq, Eq)]
pub struct Readiness {
    pub kube_reachable: bool,
    pub crds_ready: bool,
}

impl Readiness {
    /// Ready only when the Kubernetes API is reachable and the CRDs are installed.
    pub fn is_ready(&self) -> (r: bool)
        ensures
            r == (self.kube_reachable && self.crds_ready),
    {
        self.kube_reachable && self.crds_ready
    }
}

/// The namespace an object is listed under: its namespace, or empty for a cluster-scoped one.
pub fn object_namespace(meta: &ObjectMeta) -> (r: String)
    ensures
        r@ == namespace_of(*meta),
{
    meta.namespace_or_empty()
}

} // verus!
