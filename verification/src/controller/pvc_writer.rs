//! Writing a PVC for a restore: the short-lived Pod that mounts it read-write, whether the
//! target may be written, and the commands run in the Pod.

use vstd::prelude::*;
use crate::controller::pvc_reader::{
    mount_pod_common, pairs_view, sleep_command, strings_view, MountPod, MOUNT_CONTAINER,
    MOUNT_IMAGE, MOUNT_PATH,
};

verus! {

/// The restore mount Pod: labelled as such, with no owner and no deadline, the claim mounted
/// read-write.
pub open spec fn restore_mount_pod_ok(p: MountPod, name: Seq<char>, pvc_name: Seq<char>) -> bool {
    &&& mount_pod_common(p, name, pvc_name)
    &&& pairs_view(p.labels@) == seq![("proteus.io/purpose"@, "restore-mount"@)]
    &&& p.owner_references is None
    &&& p.active_deadline_seconds is None
    &&& p.mount_read_only is None
    &&& p.claim_read_only == Some(false)
}

pub fn build_mount_pod(pod_name: &str, pvc_name: &str) -> (r: MountPod)
    ensures
        restore_mount_pod_ok(r, pod_name@, pvc_name@),
{
    let mut labels: Vec<(String, String)> = Vec::new();
    labels.push((String::from_str("proteus.io/purpose"), String::from_str("restore-mount")));
    assert(pairs_view(labels@) =~= seq![("proteus.io/purpose"@, "restore-mount"@)]);
    MountPod {
        name: String::from_str(pod_name),
        labels,
        owner_references: None,
        restart_policy: String::from_str("Never"),
        active_deadline_seconds: None,
        container_name: String::from_str(MOUNT_CONTAINER),
        image: String::from_str(MOUNT_IMAGE),
        command: sleep_command(),
        volume_name: String::from_str("data"),
        mount_path: String::from_str(MOUNT_PATH),
        mount_read_only: None,
        claim_name: String::from_str(pvc_name),
        claim_read_only: Some(false),
    }
}

/// ASCII whitespace as `u8::is_ascii_whitespace` defines it: space, tab, line feed, form
/// feed, carriage return.
pub open spec fn is_ascii_ws(b: u8) -> bool {
    b == 32 || b == 9 || b == 10 || b == 12 || b == 13
}

/// The listing of the mount path printed nothing but whitespace: the target is empty.
pub fn target_is_empty(buf: &[u8]) -> (r: bool)
    ensures
        r == forall|i: int| 0 <= i < buf@.len() ==> is_ascii_ws(#[trigger] buf@[i]),
{
    let mut i: usize = 0;
    while i < buf.len()
        invariant
            i <= buf@.len(),
            forall|j: int| 0 <= j < i ==> is_ascii_ws(#[trigger] buf@[j]),
        decreases buf.len() - i,
    {
        let b = buf[i];
        if !(b == 32 || b == 9 || b == 10 || b == 12 || b == 13) {
            assert(!is_ascii_ws(buf@[i as int]));
            return false;
        }
        i += 1;
    }
    true
}

/// What a restore does to the target before writing: clear it when overwriting, otherwise
/// check that it is empty.
#[derive(Clone, Copy, Debug, PartialEq, Eq)]
pub enum TargetPreparation {
    Clear,
    RequireEmpty,
}

pub fn target_preparation(overwrite: bool) -> (r: TargetPreparation)
    ensures
        r == if overwrite {
            TargetPreparation::Clear
        } else {
            TargetPreparation::RequireEmpty
        },
{
    if overwrite {
        TargetPreparation::Clear
    } else {
        TargetPreparation::RequireEmpty
    }
}

/// The message when the target holds data and overwriting was not asked for.
pub open spec fn target_not_empty_text() -> Seq<char> {
    "target PVC already has data at /data (set overwrite: true to replace it)"@
}

/// Without overwrite, a target that already holds data refuses the restore.
pub fn check_target_empty(empty: bool) -> (r: Result<(), String>)
    ensures
        empty ==> r is Ok,
        !empty ==> (r matches Err(m) && m@ == target_not_empty_text()),
{
    if empty {
        Ok(())
    } else {
        Err(
            String::from_str(
                "target PVC already has data at /data (set overwrite: true to replace it)",
            ),
        )
    }
}

/// The message when the target PVC does not exist.
pub open spec fn missing_pvc_text(pvc_name: Seq<char>, namespace: Seq<char>) -> Seq<char> {
    "target PVC '"@ + pvc_name + "' not found in namespace '"@ + namespace
        + "' (create an empty PVC with that name before restoring)"@
}

pub fn missing_pvc_message(pvc_name: &str, namespace: &str) -> (r: String)
    ensures
        r@ == missing_pvc_text(pvc_name@, namespace@),
{
    let mut m = String::from_str("target PVC '");
    m.push_str(pvc_name);
    m.push_str("' not found in namespace '");
    m.push_str(namespace);
    m.push_str("' (create an empty PVC with that name before restoring)");
    m
}

/// The message when looking the target PVC up failed for another reason.
pub open spec fn pvc_lookup_failed_text(pvc_name: Seq<char>, namespace: Seq<char>, err: Seq<char>) -> Seq<
    char,
> {
    "failed to look up target PVC '"@ + pvc_name + "' in namespace '"@ + namespace + "': "@ + err
}

pub fn pvc_lookup_failed_message(pvc_name: &str, namespace: &str, err: &str) -> (r: String)
    ensures
        r@ == pvc_lookup_failed_text(pvc_name@, namespace@, err@),
{
    let mut m = String::from_str("failed to look up target PVC '");
    m.push_str(pvc_name);
    m.push_str("' in namespace '");
    m.push_str(namespace);
    m.push_str("': ");
    m.push_str(err);
    m
}

/// The shell command that prints the first entry under the mount path, if any.
pub fn emptiness_check_command() -> (r: Vec<String>)
    ensures
        strings_view(r@) == seq!["sh"@, "-c"@, "find /data -mindepth 1 -print -quit"@],
{
    let mut v: Vec<String> = Vec::new();
    v.push(String::from_str("sh"));
    v.push(String::from_str("-c"));
    v.push(String::from_str("find /data -mindepth 1 -print -quit"));
    assert(strings_view(v@) =~= seq!["sh"@, "-c"@, "find /data -mindepth 1 -print -quit"@]);
    v
}

/// The shell command that removes everything under the mount path, hidden entries included.
pub fn clear_command() -> (r: Vec<String>)
    ensures
        strings_view(r@) == seq![
            "sh"@,
            "-c"@,
            "rm -rf /data/.??* /data/.[!.]* /data/* 2>/dev/null; true"@,
        ],
{
    let mut v: Vec<String> = Vec::new();
    v.push(String::from_str("sh"));
    v.push(String::from_str("-c"));
    v.push(String::from_str("rm -rf /data/.??* /data/.[!.]* /data/* 2>/dev/null; true"));
    assert(strings_view(v@) =~= seq![
        "sh"@,
        "-c"@,
        "rm -rf /data/.??* /data/.[!.]* /data/* 2>/dev/null; true"@,
    ]);
    v
}

/// The command that unpacks a tar archive from stdin into the mount path.
pub fn untar_command() -> (r: Vec<String>)
    ensures
        strings_view(r@) == seq!["tar"@, "-xf"@, "-"@, "-C"@, "/data"@],
{
    let mut v: Vec<String> = Vec::new();
    v.push(String::from_str("tar"));
    v.push(String::from_str("-xf"));
    v.push(String::from_str("-"));
    v.push(String::from_str("-C"));
    v.push(String::from_str(MOUNT_PATH));
    assert(strings_view(v@) =~= seq!["tar"@, "-xf"@, "-"@, "-C"@, "/data"@]);
    v
}

/// The decision of one poll of a restore mount Pod (its timeout message names no phase).
#[derive(Clone, Debug, PartialEq, Eq)]
pub enum RestorePodWait {
    Running,
    Failed(String),
    Poll,
}

pub fn restore_pod_wait_step(pod_name: &str, phase: Option<&str>, deadline_passed: bool) -> (r:
    RestorePodWait)
    ensures
        ({
            let ph: Option<Seq<char>> = match phase {
                Some(p) => Some(p@),
                None => None,
            };
            if ph == Some("Running"@) {
                r == RestorePodWait::Running
            } else if ph == Some("Failed"@) {
                r matches RestorePodWait::Failed(m) && m@ == "mount pod '"@ + pod_name@
                    + "' failed to start"@
            } else if deadline_passed {
                r matches RestorePodWait::Failed(m) && m@ == "mount pod '"@ + pod_name@
                    + "' did not reach Running within 90s"@
            } else {
                r == RestorePodWait::Poll
            }
        }),
{
    let is_running = match phase {
        Some(p) => crate::text::str_eq(p, "Running"),
        None => false,
    };
    let is_failed = match phase {
        Some(p) => crate::text::str_eq(p, "Failed"),
        None => false,
    };
    if is_running {
        return RestorePodWait::Running;
    }
    if is_failed {
        let mut m = String::from_str("mount pod '");
        m.push_str(pod_name);
        m.push_str("' failed to start");
        assert(m@ =~= "mount pod '"@ + pod_name@ + "' failed to start"@);
        return RestorePodWait::Failed(m);
    }
    if deadline_passed {
        let mut m = String::from_str("mount pod '");
        m.push_str(pod_name);
        m.push_str("' did not reach Running within 90s");
        assert(m@ =~= "mount pod '"@ + pod_name@ + "' did not reach Running within 90s"@);
        return RestorePodWait::Failed(m);
    }
    RestorePodWait::Poll
}

} // verus!
