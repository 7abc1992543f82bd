use proteus::controller::progress::{map_range, ByteReportThrottle, ProgressDecision, ProgressState};
use proteus::controller::pvc_reader::{
    self, mount_pod_label_selector, mount_pod_name, parse_du_output, pod_wait_step,
    BackupMountOwner, PodWait,
};
use proteus::controller::pvc_writer::{self, check_target_empty, target_is_empty};
use proteus::controller::reconcile::{plan_backup_reconcile, plan_restore_reconcile};
use proteus::crd::backup::{ProteusBackup, ProteusBackupSpec, RetentionPolicy};
use proteus::crd::meta::ObjectMeta;
use proteus::crd::restore::{ProteusRestore, ProteusRestoreSpec};

#[test]
fn map_range_midpoint() {
    assert_eq!(map_range(10, 50, 50, 100), 30);
}

#[test]
fn map_range_complete() {
    assert_eq!(map_range(10, 50, 100, 100), 50);
}

#[test]
fn map_range_edges() {
    assert_eq!(map_range(10, 50, 5, 0), 10);
    assert_eq!(map_range(60, 20, 5, 10), 60);
    assert_eq!(map_range(90, 200, 100, 100), 99);
    assert_eq!(map_range(0, 100, 500, 100), 99);
}

#[test]
fn progress_never_goes_backwards() {
    let mut state = ProgressState::new();
    assert_eq!(state.decide(20, "a"), ProgressDecision::Publish(20));
    assert_eq!(state.decide(10, "b"), ProgressDecision::Skip);
    assert_eq!(state.decide(20, "a"), ProgressDecision::Skip);
    assert_eq!(state.decide(20, "b"), ProgressDecision::Publish(20));
    assert_eq!(state.decide(150, "c"), ProgressDecision::Publish(99));
    state.mark_cancelled();
    assert!(state.is_cancelled());
    assert_eq!(state.decide(99, "d"), ProgressDecision::Cancelled);
}

#[test]
fn byte_reports_are_throttled() {
    let mut t = ByteReportThrottle::new();
    assert_eq!(t.observe(1000), None);
    assert_eq!(t.observe(1024 * 1024), Some(1024 * 1024));
    assert_eq!(t.observe(1024 * 1024 + 5), None);
    assert_eq!(t.finish(), Some(1024 * 1024 + 5));
}

#[test]
fn build_mount_pod_mounts_pvc_read_write() {
    let pod = pvc_writer::build_mount_pod("proteus-rst-test", "target-pvc");
    assert_eq!(pod.claim_name, "target-pvc");
    assert_eq!(pod.claim_read_only, Some(false));
}

#[test]
fn backup_mount_pod_is_read_only_and_owned_in_same_namespace() {
    let owner = BackupMountOwner {
        backup_name: "b1".into(),
        backup_namespace: "apps".into(),
        backup_uid: "uid-1".into(),
    };
    let pod = pvc_reader::build_mount_pod("p", "data", &owner, "apps");
    assert_eq!(pod.claim_read_only, Some(true));
    assert_eq!(pod.active_deadline_seconds, Some(21600));
    assert_eq!(pod.owner_references.as_ref().map(|v| v.len()), Some(1));
    let other = pvc_reader::build_mount_pod("p", "data", &owner, "elsewhere");
    assert!(other.owner_references.is_none());
    assert_eq!(
        mount_pod_label_selector("b1", "apps"),
        "proteus.io/purpose=backup-mount,proteus.io/backup=b1,proteus.io/backup-namespace=apps"
    );
}

#[test]
fn mount_pod_names_have_random_suffix() {
    let name = mount_pod_name("proteus-bkp-");
    assert_eq!(name.len(), 24);
    assert!(name.starts_with("proteus-bkp-"));
    assert!(name[12..].chars().all(|c| c.is_ascii_hexdigit() && !c.is_ascii_uppercase()));
}

#[test]
fn pod_wait_decisions() {
    assert_eq!(pod_wait_step("p", Some("Running"), true), PodWait::Running);
    assert_eq!(
        pod_wait_step("p", Some("Failed"), false),
        PodWait::Failed("mount pod 'p' failed to start".into())
    );
    assert_eq!(pod_wait_step("p", Some("Pending"), false), PodWait::Poll);
    assert_eq!(
        pod_wait_step("p", Some("Pending"), true),
        PodWait::Failed(
            "mount pod 'p' did not reach Running within 90s (last phase=Some(\"Pending\"))".into()
        )
    );
}

#[test]
fn du_output_parses_first_word() {
    assert_eq!(parse_du_output("12345\t/data\n"), Ok(12345));
    assert_eq!(parse_du_output("  +7 /data"), Ok(7));
    assert_eq!(
        parse_du_output("oops"),
        Err("could not parse du output: \"oops\"".to_string())
    );
    assert!(parse_du_output("").is_err());
    assert!(parse_du_output("18446744073709551616 /data").is_err());
    assert_eq!(parse_du_output("18446744073709551615"), Ok(u64::MAX));
}

#[test]
fn restore_target_checks() {
    assert!(target_is_empty(b" \n\t"));
    assert!(!target_is_empty(b"/data/file\n"));
    assert!(check_target_empty(true).is_ok());
    assert_eq!(
        check_target_empty(false),
        Err("target PVC already has data at /data (set overwrite: true to replace it)".into())
    );
}

fn backup(repo: &str, target: &str, keep_last: u32) -> ProteusBackup {
    ProteusBackup {
        metadata: ObjectMeta::empty(),
        spec: ProteusBackupSpec {
            repository_ref: repo.into(),
            repository_namespace: None,
            target_namespace: target.into(),
            pvc_names: vec![],
            label_selector: None,
            schedule: None,
            retention: RetentionPolicy { keep_last, max_age_days: None },
            include_volumes: true,
            include_cluster_resources: false,
        },
        status: None,
    }
}

#[test]
fn backup_reconcile_validates_and_sets_pending() {
    let err = plan_backup_reconcile(&backup("r", "t", 0)).err().expect("keepLast");
    assert_eq!(err.message(), "invalid resource spec: retention.keepLast must be >= 1");
    let plan = plan_backup_reconcile(&backup("r", "t", 7)).ok().expect("valid");
    assert_eq!(plan.namespace, "default");
    assert_eq!(plan.requeue_secs, 60);
}

#[test]
fn restore_reconcile_writes_status_once() {
    let restore = ProteusRestore {
        metadata: ObjectMeta::named("r".into(), "ns".into()),
        spec: ProteusRestoreSpec {
            backup_ref: "b".into(),
            backup_namespace: None,
            snapshot_id: None,
            target_namespace: "t".into(),
            overwrite: false,
            include_resources: None,
        },
        status: None,
    };
    let plan = plan_restore_reconcile(&restore).ok().expect("valid");
    assert!(plan.changed);
    assert_eq!(plan.status.progress_percent, Some(0));
    let again = ProteusRestore { status: Some(plan.status.clone()), ..restore };
    let plan2 = plan_restore_reconcile(&again).ok().expect("valid");
    assert!(!plan2.changed);
}
