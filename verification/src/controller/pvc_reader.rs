//! Reading a PVC for a backup: the short-lived Pod that mounts it read-only, the label
//! selector that finds leftover ones, waiting for the Pod, and sizing the volume.

use vstd::prelude::*;
use crate::crd::meta::OwnerReference;
use crate::text::{
    decimal_seq, is_unicode_whitespace, str_debug, str_debug_text, trim_start_seq,
};

verus! {

pub const MOUNT_IMAGE: &'static str = "busybox:1.36";

pub const MOUNT_CONTAINER: &'static str = "mount";

pub const MOUNT_PATH: &'static str = "/data";

/// Seconds to wait for a mount Pod to run.
pub const POD_READY_TIMEOUT_SECS: u64 = 90;

/// Seconds between two polls of a mount Pod.
pub const POD_READY_POLL_INTERVAL_SECS: u64 = 2;

/// Hard cap so a leaked mount Pod cannot sit forever after a controller crash.
pub const POD_ACTIVE_DEADLINE_SECS: i64 = 6 * 60 * 60;

pub const LABEL_PURPOSE: &'static str = "proteus.io/purpose";

pub const LABEL_BACKUP: &'static str = "proteus.io/backup";

pub const LABEL_BACKUP_NS: &'static str = "proteus.io/backup-namespace";

pub const PURPOSE_BACKUP_MOUNT: &'static str = "backup-mount";

/// Identity of the backup that owns a mount Pod.
#[derive(Clone, Debug)]
pub struct BackupMountOwner {
    pub backup_name: String,
    pub backup_namespace: String,
    pub backup_uid: String,
}

/// Stage updates while preparing the mount Pod and sizing the volume.
#[derive(Clone, Copy, Debug, PartialEq, Eq)]
pub enum MountStage {
    CreatingPod,
    WaitingPodRunning,
    MeasuringSize,
    StreamingTar,
}

/// A Pod that mounts one PVC under `/data` in a single `sleep` container.
#[derive(Clone, Debug)]
pub struct MountPod {
    pub name: String,
    pub labels: Vec<(String, String)>,
    pub owner_references: Option<Vec<OwnerReference>>,
    pub restart_policy: String,
    pub active_deadline_seconds: Option<i64>,
    pub container_name: String,
    pub image: String,
    pub command: Vec<String>,
    pub volume_name: String,
    pub mount_path: String,
    pub mount_read_only: Option<bool>,
    pub claim_name: String,
    pub claim_read_only: Option<bool>,
}

pub open spec fn pairs_view(s: Seq<(String, String)>) -> Seq<(Seq<char>, Seq<char>)> {
    s.map_values(|p: (String, String)| (p.0@, p.1@))
}

pub open spec fn strings_view(s: Seq<String>) -> Seq<Seq<char>> {
    s.map_values(|p: String| p@)
}

/// The fixed parts every mount Pod shares: never restarted, one `mount` container running
/// `busybox:1.36` with `sleep 3600`, the claim mounted as volume `data` at `/data`.
pub open spec fn mount_pod_common(p: MountPod, name: Seq<char>, pvc_name: Seq<char>) -> bool {
    &&& p.name@ == name
    &&& p.restart_policy@ == "Never"@
    &&& p.container_name@ == "mount"@
    &&& p.image@ == "busybox:1.36"@
    &&& strings_view(p.command@) == seq!["sleep"@, "3600"@]
    &&& p.volume_name@ == "data"@
    &&& p.mount_path@ == "/data"@
    &&& p.claim_name@ == pvc_name
}

pub fn sleep_command() -> (r: Vec<String>)
    ensures
        strings_view(r@) == seq!["sleep"@, "3600"@],
{
    let mut v: Vec<String> = Vec::new();
    v.push(String::from_str("sleep"));
    v.push(String::from_str("3600"));
    assert(strings_view(v@) =~= seq!["sleep"@, "3600"@]);
    v
}

/// The backup mount Pod: read-only mount and claim, a six-hour deadline, labels naming the
/// backup, and a controlling owner reference to the backup only when the Pod lives in the
/// backup's namespace and the backup has a uid.
pub open spec fn backup_mount_pod_ok(
    p: MountPod,
    name: Seq<char>,
    pvc_name: Seq<char>,
    owner: BackupMountOwner,
    pod_namespace: Seq<char>,
) -> bool {
    &&& mount_pod_common(p, name, pvc_name)
    &&& p.active_deadline_seconds == Some(POD_ACTIVE_DEADLINE_SECS)
    &&& p.mount_read_only == Some(true)
    &&& p.claim_read_only == Some(true)
    &&& pairs_view(p.labels@) == seq![
        ("proteus.io/purpose"@, "backup-mount"@),
        ("proteus.io/backup"@, owner.backup_name@),
        ("proteus.io/backup-namespace"@, owner.backup_namespace@),
    ]
    &&& if owner.backup_namespace@ == pod_namespace && owner.backup_uid@.len() > 0 {
        p.owner_references matches Some(v) && v@.len() == 1 && {
            let o = v@[0];
            &&& o.api_version@ == "proteus.io/v1alpha1"@
            &&& o.kind@ == "ProteusBackup"@
            &&& o.name@ == owner.backup_name@
            &&& o.uid@ == owner.backup_uid@
            &&& o.controller == Some(true)
            &&& o.block_owner_deletion == Some(false)
        }
    } else {
        p.owner_references is None
    }
}

pub fn build_mount_pod(
    pod_name: &str,
    pvc_name: &str,
    owner: &BackupMountOwner,
    pod_namespace: &str,
) -> (r: MountPod)
    ensures
        backup_mount_pod_ok(r, pod_name@, pvc_name@, *owner, pod_namespace@),
{
    let mut labels: Vec<(String, String)> = Vec::new();
    labels.push((String::from_str(LABEL_PURPOSE), String::from_str(PURPOSE_BACKUP_MOUNT)));
    labels.push((String::from_str(LABEL_BACKUP), owner.backup_name.clone()));
    labels.push((String::from_str(LABEL_BACKUP_NS), owner.backup_namespace.clone()));
    assert(pairs_view(labels@) =~= seq![
        ("proteus.io/purpose"@, "backup-mount"@),
        ("proteus.io/backup"@, owner.backup_name@),
        ("proteus.io/backup-namespace"@, owner.backup_namespace@),
    ]);
    let same_ns = crate::text::str_eq(owner.backup_namespace.as_str(), pod_namespace);
    let owner_refs = if same_ns && owner.backup_uid.as_str().unicode_len() > 0 {
        let mut v: Vec<OwnerReference> = Vec::new();
        v.push(
            OwnerReference {
                api_version: String::from_str("proteus.io/v1alpha1"),
                kind: String::from_str("ProteusBackup"),
                name: owner.backup_name.clone(),
                uid: owner.backup_uid.clone(),
                controller: Some(true),
                block_owner_deletion: Some(false),
            },
        );
        Some(v)
    } else {
        None
    };
    MountPod {
        name: String::from_str(pod_name),
        labels,
        owner_references: owner_refs,
        restart_policy: String::from_str("Never"),
        active_deadline_seconds: Some(POD_ACTIVE_DEADLINE_SECS),
        container_name: String::from_str(MOUNT_CONTAINER),
        image: String::from_str(MOUNT_IMAGE),
        command: sleep_command(),
        volume_name: String::from_str("data"),
        mount_path: String::from_str(MOUNT_PATH),
        mount_read_only: Some(true),
        claim_name: String::from_str(pvc_name),
        claim_read_only: Some(true),
    }
}

/// The label selector of the mount Pods of one backup.
pub open spec fn mount_pod_selector_text(backup_name: Seq<char>, backup_namespace: Seq<char>) -> Seq<
    char,
> {
    "proteus.io/purpose=backup-mount,proteus.io/backup="@ + backup_name
        + ",proteus.io/backup-namespace="@ + backup_namespace
}

pub fn mount_pod_label_selector(backup_name: &str, backup_namespace: &str) -> (r: String)
    ensures
        r@ == mount_pod_selector_text(backup_name@, backup_namespace@),
{
    let mut s = String::from_str("proteus.io/purpose=backup-mount,proteus.io/backup=");
    s.push_str(backup_name);
    s.push_str(",proteus.io/backup-namespace=");
    s.push_str(backup_namespace);
    s
}

pub open spec fn is_lower_hex_char(c: char) -> bool {
    ('0' <= c && c <= '9') || ('a' <= c && c <= 'f')
}

/// Trusted: `Uuid::new_v4().simple()` rendered as text (uuid 1.x): a random v4 UUID as 32
/// lowercase hex digits, without hyphens. Random: only the shape is known.
#[verifier::external_body]
fn uuid_v4_simple() -> (r: String)
    ensures
        r@.len() == 32,
        forall|i: int| 0 <= i < 32 ==> is_lower_hex_char(#[trigger] r@[i]),
{
    uuid::Uuid::new_v4().simple().to_string()
}

/// A short random id: the first 12 hex digits of a fresh v4 UUID.
fn short_id() -> (r: String)
    ensures
        r@.len() == 12,
        forall|i: int| 0 <= i < 12 ==> is_lower_hex_char(#[trigger] r@[i]),
{
    let full = uuid_v4_simple();
    let id = full.as_str().substring_char(0, 12);
    assert forall|i: int| 0 <= i < 12 implies is_lower_hex_char(#[trigger] id@[i]) by {
        assert(id@[i] == full@[i]);
    }
    String::from_str(id)
}

/// A fresh name for a mount Pod: `prefix` followed by 12 random hex digits.
pub fn mount_pod_name(prefix: &str) -> (r: String)
    ensures
        r@.len() == prefix@.len() + 12,
        r@.take(prefix@.len() as int) == prefix@,
        forall|i: int| prefix@.len() <= i < r@.len() ==> is_lower_hex_char(#[trigger] r@[i]),
{
    let id = short_id();
    let r = String::from_str(prefix).concat(id.as_str());
    assert(r@.take(prefix@.len() as int) =~= prefix@);
    assert forall|i: int| prefix@.len() <= i < r@.len() implies is_lower_hex_char(#[trigger] r@[i]) by {
        assert(r@[i] == id@[i - prefix@.len()]);
    }
    r
}

/// What one poll of a mount Pod decides.
#[derive(Clone, Debug, PartialEq, Eq)]
pub enum PodWait {
    Running,
    /// Give up with this message.
    Failed(String),
    /// Poll again after the interval.
    Poll,
}

/// `Some("phase")` or `None`, as `Debug` writes an optional string.
pub open spec fn opt_phase_debug_text(phase: Option<Seq<char>>) -> Seq<char> {
    match phase {
        Some(p) => "Some("@ + str_debug_text(p) + ")"@,
        None => "None"@,
    }
}

/// The decision of one poll: done when Running, fail when Failed or (otherwise) when the
/// deadline has passed, else poll again.
pub open spec fn pod_wait_ok(
    pod_name: Seq<char>,
    phase: Option<Seq<char>>,
    deadline_passed: bool,
    r: PodWait,
) -> bool {
    if phase == Some("Running"@) {
        r == PodWait::Running
    } else if phase == Some("Failed"@) {
        r matches PodWait::Failed(m) && m@ == "mount pod '"@ + pod_name + "' failed to start"@
    } else if deadline_passed {
        r matches PodWait::Failed(m) && m@ == "mount pod '"@ + pod_name
            + "' did not reach Running within 90s (last phase="@ + opt_phase_debug_text(phase)
            + ")"@
    } else {
        r == PodWait::Poll
    }
}

pub fn pod_wait_step(pod_name: &str, phase: Option<&str>, deadline_passed: bool) -> (r: PodWait)
    ensures
        pod_wait_ok(
            pod_name@,
            match phase {
                Some(p) => Some(p@),
                None => None,
            },
            deadline_passed,
            r,
        ),
{
    let is_running = match phase {
        Some(p) => crate::text::str_eq(p, "Running"),
        None => false,
    };
    let is_failed = match phase {
        Some(p) => crate::text::str_eq(p, "Failed"),
        None => false,
    };
    if is_running {
        return PodWait::Running;
    }
    if is_failed {
        let mut m = String::from_str("mount pod '");
        m.push_str(pod_name);
        m.push_str("' failed to start");
        assert(m@ =~= "mount pod '"@ + pod_name@ + "' failed to start"@);
        return PodWait::Failed(m);
    }
    if deadline_passed {
        let mut m = String::from_str("mount pod '");
        m.push_str(pod_name);
        m.push_str("' did not reach Running within 90s (last phase=");
        match phase {
            Some(p) => {
                m.push_str("Some(");
                m.push_str(str_debug(p).as_str());
                m.push_str(")");
            },
            None => {
                m.push_str("None");
            },
        }
        m.push_str(")");
        proof {
            let pv: Option<Seq<char>> = match phase {
                Some(p) => Some(p@),
                None => None,
            };
            assert(m@ =~= "mount pod '"@ + pod_name@ + "' did not reach Running within 90s (last phase="@
                + opt_phase_debug_text(pv) + ")"@);
        }
        return PodWait::Failed(m);
    }
    PodWait::Poll
}

/// Length of the leading run of non-whitespace characters.
pub open spec fn token_len(t: Seq<char>) -> nat
    decreases t.len(),
{
    if t.len() == 0 || is_unicode_whitespace(t[0]) {
        0
    } else {
        1 + token_len(t.drop_first())
    }
}

/// The first whitespace-separated word of `s`, if any.
pub open spec fn first_word(s: Seq<char>) -> Option<Seq<char>> {
    let t = trim_start_seq(s);
    if t.len() == 0 {
        None
    } else {
        Some(t.take(token_len(t) as int))
    }
}

pub open spec fn is_ascii_digit(c: char) -> bool {
    '0' <= c && c <= '9'
}

/// Decimal value of a run of ASCII digits.
pub open spec fn digits_value(d: Seq<char>) -> nat
    decreases d.len(),
{
    if d.len() == 0 {
        0
    } else {
        digits_value(d.drop_last()) * 10 + ((d.last() as u32) - 48) as nat
    }
}

pub open spec fn unsigned_digits(t: Seq<char>) -> Seq<char> {
    if t.len() > 0 && t[0] == '+' {
        t.drop_first()
    } else {
        t
    }
}

/// `u64::from_str`: an optional `+`, then at least one ASCII digit, with a value that fits.
pub open spec fn parse_u64_spec(t: Seq<char>) -> Option<u64> {
    let d = unsigned_digits(t);
    if d.len() > 0 && (forall|i: int| 0 <= i < d.len() ==> is_ascii_digit(#[trigger] d[i]))
        && digits_value(d) <= u64::MAX {
        Some(digits_value(d) as u64)
    } else {
        None
    }
}

/// The byte count `du -sb` reports: its first word as a number.
pub open spec fn du_bytes_spec(text: Seq<char>) -> Option<u64> {
    match first_word(text) {
        Some(w) => parse_u64_spec(w),
        None => None,
    }
}

proof fn lemma_trim_start_skip(s: Seq<char>, k: int)
    requires
        0 <= k <= s.len(),
        forall|j: int| 0 <= j < k ==> is_unicode_whitespace(#[trigger] s[j]),
        k == s.len() || !is_unicode_whitespace(s[k]),
    ensures
        trim_start_seq(s) == s.skip(k),
    decreases k,
{
    if k == 0 {
        assert(s.skip(0) =~= s);
    } else {
        assert(s.drop_first().skip(k - 1) =~= s.skip(k));
        assert forall|j: int| 0 <= j < k - 1 implies is_unicode_whitespace(
            #[trigger] s.drop_first()[j],
        ) by {
            assert(s.drop_first()[j] == s[j + 1]);
        }
        lemma_trim_start_skip(s.drop_first(), k - 1);
    }
}

proof fn lemma_token_len(t: Seq<char>, k: int)
    requires
        0 <= k <= t.len(),
        forall|j: int| 0 <= j < k ==> !is_unicode_whitespace(#[trigger] t[j]),
        k == t.len() || is_unicode_whitespace(t[k]),
    ensures
        token_len(t) == k,
    decreases k,
{
    if k > 0 {
        assert forall|j: int| 0 <= j < k - 1 implies !is_unicode_whitespace(
            #[trigger] t.drop_first()[j],
        ) by {
            assert(t.drop_first()[j] == t[j + 1]);
        }
        lemma_token_len(t.drop_first(), k - 1);
    }
}

proof fn lemma_digits_value_prefix(d: Seq<char>, k: int)
    requires
        0 <= k <= d.len(),
        forall|i: int| 0 <= i < d.len() ==> is_ascii_digit(#[trigger] d[i]),
    ensures
        digits_value(d.take(k)) <= digits_value(d),
    decreases d.len(),
{
    if k < d.len() {
        assert(d.drop_last().take(k) =~= d.take(k));
        lemma_digits_value_prefix(d.drop_last(), k);
    } else {
        assert(d.take(k) =~= d);
    }
}

/// Parse a decimal `u64` as `str::parse` does.
pub fn parse_u64(t: &str) -> (r: Option<u64>)
    ensures
        r == parse_u64_spec(t@),
{
    let n = t.unicode_len();
    let start: usize = if n > 0 && t.get_char(0) == '+' {
        1
    } else {
        0
    };
    let ghost d = unsigned_digits(t@);
    assert(d =~= t@.skip(start as int));
    if start == n {
        return None;
    }
    let mut acc: u64 = 0;
    let mut i: usize = start;
    while i < n
        invariant
            n == t@.len(),
            start <= i <= n,
            d == t@.skip(start as int),
            d == unsigned_digits(t@),
            d.len() > 0,
            forall|j: int| 0 <= j < i - start ==> is_ascii_digit(#[trigger] d[j]),
            acc == digits_value(d.take(i - start)),
        decreases n - i,
    {
        let c = t.get_char(i);
        proof {
            assert(d[i - start] == c);
            assert(d.take(i - start + 1).drop_last() =~= d.take(i - start));
        }
        if !('0' <= c && c <= '9') {
            assert(!is_ascii_digit(d[i - start]));
            assert(!(forall|j: int| 0 <= j < d.len() ==> is_ascii_digit(#[trigger] d[j])));
            return None;
        }
        let digit: u64 = (c as u32 - 48) as u64;
        if acc > (u64::MAX - digit) / 10 {
            proof {
                let m = (u64::MAX - digit) as int;
                vstd::arithmetic::div_mod::lemma_fundamental_div_mod(m, 10);
                assert(acc * 10 + digit > u64::MAX) by (nonlinear_arith)
                    requires
                        acc > m / 10,
                        m == 10 * (m / 10) + m % 10,
                        0 <= m % 10 < 10,
                        m == u64::MAX - digit,
                ;
                assert(digits_value(d.take(i - start + 1)) > u64::MAX);
                if forall|j: int| 0 <= j < d.len() ==> is_ascii_digit(#[trigger] d[j]) {
                    lemma_digits_value_prefix(d, i - start + 1);
                }
                assert(parse_u64_spec(t@) is None);
            }
            return None;
        }
        acc = acc * 10 + digit;
        i += 1;
    }
    assert(d.take(n - start) =~= d);
    Some(acc)
}

/// The size `du -sb` printed, or an error quoting its output.
pub fn parse_du_output(text: &str) -> (r: Result<u64, String>)
    ensures
        match du_bytes_spec(text@) {
            Some(v) => r == Ok::<u64, String>(v),
            None => r matches Err(m) && m@ == "could not parse du output: "@ + str_debug_text(text@),
        },
{
    let n = text.unicode_len();
    let mut i: usize = 0;
    while i < n && text.get_char(i).is_whitespace()
        invariant
            n == text@.len(),
            i <= n,
            forall|j: int| 0 <= j < i ==> is_unicode_whitespace(#[trigger] text@[j]),
        decreases n - i,
    {
        i += 1;
    }
    proof {
        lemma_trim_start_skip(text@, i as int);
    }
    let start = i;
    while i < n && !text.get_char(i).is_whitespace()
        invariant
            n == text@.len(),
            start <= i <= n,
            forall|j: int| start <= j < i ==> !is_unicode_whitespace(#[trigger] text@[j]),
        decreases n - i,
    {
        i += 1;
    }
    let parsed = if start == n {
        None
    } else {
        let word = text.substring_char(start, i);
        proof {
            let t = text@.skip(start as int);
            assert forall|j: int| 0 <= j < i - start implies !is_unicode_whitespace(#[trigger] t[j]) by {
                assert(t[j] == text@[start + j]);
            }
            if i < n {
                assert(t[i - start] == text@[i as int]);
            }
            lemma_token_len(t, i - start);
            assert(word@ =~= t.take(i - start));
        }
        parse_u64(word)
    };
    match parsed {
        Some(v) => Ok(v),
        None => Err(String::from_str("could not parse du output: ").concat(str_debug(text).as_str())),
    }
}

/// The command that streams the volume as a tar archive.
pub fn tar_create_command() -> (r: Vec<String>)
    ensures
        strings_view(r@) == seq!["tar"@, "-cf"@, "-"@, "-C"@, "/data"@, "."@],
{
    let mut v: Vec<String> = Vec::new();
    v.push(String::from_str("tar"));
    v.push(String::from_str("-cf"));
    v.push(String::from_str("-"));
    v.push(String::from_str("-C"));
    v.push(String::from_str(MOUNT_PATH));
    v.push(String::from_str("."));
    assert(strings_view(v@) =~= seq!["tar"@, "-cf"@, "-"@, "-C"@, "/data"@, "."@]);
    v
}

/// The command that sizes the volume.
pub fn du_command() -> (r: Vec<String>)
    ensures
        strings_view(r@) == seq!["du"@, "-sb"@, "/data"@],
{
    let mut v: Vec<String> = Vec::new();
    v.push(String::from_str("du"));
    v.push(String::from_str("-sb"));
    v.push(String::from_str(MOUNT_PATH));
    assert(strings_view(v@) =~= seq!["du"@, "-sb"@, "/data"@]);
    v
}

} // verus!
