//! Decisions the UI pages make.

use vstd::prelude::*;
use crate::api::namespaces::{lemma_lex_total, lemma_lex_trans, lex_le, str_lex_le};
use crate::text::{contains_seq, contains_str, trim_seq};
use crate::api::inventory::InventoryQuery;
use crate::ui::api::{CreateRepositoryBackend, CreateRepositoryRequest, RepositoryListItem};

verus! {

/// Namespace offered first and by default.
pub const DEFAULT_NAMESPACE: &'static str = "proteus-system";

/// Milliseconds to wait before searching while the user types a query.
pub const SEARCH_DEBOUNCE_MS: u32 = 280;

/// Milliseconds to wait before loading the inventory without a query.
pub const IDLE_DELAY_MS: u32 = 40;

/// Milliseconds between two polls of the repository list.
pub const REPOSITORY_POLL_MS: u32 = 7000;

/// Delay before the inventory reloads after a filter change.
pub fn inventory_delay_ms(query: &str) -> (r: u32)
    ensures
        r == if query@.len() == 0 {
            IDLE_DELAY_MS
        } else {
            SEARCH_DEBOUNCE_MS
        },
{
    if query.unicode_len() == 0 {
        IDLE_DELAY_MS
    } else {
        SEARCH_DEBOUNCE_MS
    }
}

/// A repository row still reconciling: no phase yet, or `Pending`.
pub open spec fn still_reconciling(item: RepositoryListItem) -> bool {
    match item.phase {
        None => true,
        Some(p) => p@ == "Pending"@,
    }
}

/// The repository list is polled again while some row is still reconciling.
pub fn needs_poll(items: &Vec<RepositoryListItem>) -> (r: bool)
    ensures
        r == exists|i: int| 0 <= i < items@.len() && still_reconciling(#[trigger] items@[i]),
{
    let mut i: usize = 0;
    while i < items.len()
        invariant
            i <= items@.len(),
            forall|k: int| 0 <= k < i ==> !still_reconciling(#[trigger] items@[k]),
        decreases items.len() - i,
    {
        let pending = match &items[i].phase {
            None => true,
            Some(p) => crate::text::str_eq(p.as_str(), "Pending"),
        };
        if pending {
            assert(still_reconciling(items@[i as int]));
            return true;
        }
        i += 1;
    }
    false
}

pub open spec fn strictly_sorted(s: Seq<Seq<char>>) -> bool {
    forall|i: int, j: int|
        0 <= i < j < s.len() ==> lex_le(#[trigger] s[i], #[trigger] s[j]) && s[i] != s[j]
}

pub open spec fn strings_view(s: Seq<String>) -> Seq<Seq<char>> {
    s.map_values(|x: String| x@)
}

/// Add `x` to a strictly sorted run unless it is already there.
fn insert_unique(out: &mut Vec<String>, x: String)
    requires
        strictly_sorted(strings_view(old(out)@)),
    ensures
        strictly_sorted(strings_view(final(out)@)),
        strings_view(final(out)@).to_set() == strings_view(old(out)@).to_set().insert(x@),
{
    let ghost xv = x@;
    let ghost before = strings_view(out@);
    let mut j: usize = 0;
    while j < out.len() && str_lex_le(out[j].as_str(), x.as_str()) && !crate::text::str_eq(
        out[j].as_str(),
        x.as_str(),
    )
        invariant
            j <= out.len(),
            xv == x@,
            before == strings_view(out@),
            forall|k: int| 0 <= k < j ==> lex_le(#[trigger] before[k], xv) && before[k] != xv,
        decreases out.len() - j,
    {
        j += 1;
    }
    if j < out.len() && crate::text::str_eq(out[j].as_str(), x.as_str()) {
        proof {
            assert(before[j as int] == xv);
            assert(before.to_set() =~= before.to_set().insert(xv)) by {
                assert(before.contains(xv));
            }
        }
        return ;
    }
    proof {
        if j < out.len() {
            assert(!lex_le(before[j as int], xv));
            lemma_lex_total(before[j as int], xv);
        }
    }
    out.insert(j, x);
    proof {
        let after = strings_view(out@);
        assert(after =~= before.insert(j as int, xv));
        assert forall|p: int, q: int| 0 <= p < q < after.len() implies lex_le(
            #[trigger] after[p],
            #[trigger] after[q],
        ) && after[p] != after[q] by {
            if q < j {
                assert(after[p] == before[p] && after[q] == before[q]);
            } else if q == j {
                assert(after[p] == before[p]);
            } else if p == j {
                assert(after[q] == before[q - 1]);
                if q - 1 > j {
                    lemma_lex_trans(xv, before[j as int], before[q - 1]);
                    if xv == before[q - 1] {
                        lemma_lex_antisym(before[j as int], xv);
                    }
                }
            } else if p < j {
                assert(after[q] == before[q - 1]);
                assert(after[p] == before[p]);
                if q - 1 >= j && j < before.len() {
                    if before[p] == before[q - 1] {
                        lemma_lex_trans(before[j as int], before[q - 1], xv);
                    }
                }
            } else {
                assert(after[q] == before[q - 1]);
                assert(after[p] == before[p - 1]);
            }
        }
        assert(after.to_set() =~= before.to_set().insert(xv)) by {
            assert forall|y: Seq<char>| after.contains(y) <==> before.contains(y) || y == xv by {
                if after.contains(y) {
                    let k = choose|k: int| 0 <= k < after.len() && after[k] == y;
                    if k < j {
                        assert(before[k] == y);
                    } else if k > j {
                        assert(before[k - 1] == y);
                    }
                }
                if before.contains(y) {
                    let k = choose|k: int| 0 <= k < before.len() && before[k] == y;
                    if k < j {
                        assert(after[k] == y);
                    } else {
                        assert(after[k + 1] == y);
                    }
                }
                if y == xv {
                    assert(after[j as int] == y);
                }
            }
        }
    }
}

/// Two strings each ordered before the other are equal.
pub proof fn lemma_lex_antisym(a: Seq<char>, b: Seq<char>)
    requires
        lex_le(a, b),
        lex_le(b, a),
    ensures
        a == b,
    decreases a.len(),
{
    if a.len() > 0 && b.len() > 0 {
        lemma_lex_antisym(a.drop_first(), b.drop_first());
        assert(a =~= seq![a[0]] + a.drop_first());
        assert(b =~= seq![b[0]] + b.drop_first());
    } else {
        assert(a.len() == 0 && b.len() == 0);
        assert(a =~= b);
    }
}

/// The namespace names offered, sorted and without repeats; with `ensure_default`, the
/// default namespace is put first when the cluster did not list it.
pub fn namespace_options(names: &Vec<String>, ensure_default: bool) -> (r: Vec<String>)
    ensures
        ({
            let sorted_part = if ensure_default && !strings_view(names@).contains(
                "proteus-system"@,
            ) {
                strings_view(r@).drop_first()
            } else {
                strings_view(r@)
            };
            &&& strictly_sorted(sorted_part)
            &&& sorted_part.to_set() == strings_view(names@).to_set()
            &&& ensure_default && !strings_view(names@).contains("proteus-system"@) ==> r@.len()
                > 0 && r@[0]@ == "proteus-system"@
        }),
{
    let mut out: Vec<String> = Vec::new();
    let mut i: usize = 0;
    assert(strings_view(out@).to_set() =~= strings_view(names@.take(0)).to_set());
    while i < names.len()
        invariant
            i <= names.len(),
            strictly_sorted(strings_view(out@)),
            strings_view(out@).to_set() == strings_view(names@.take(i as int)).to_set(),
        decreases names.len() - i,
    {
        insert_unique(&mut out, names[i].clone());
        proof {
            let pre = strings_view(names@.take(i as int));
            assert(strings_view(names@.take(i + 1)) =~= pre.push(names@[i as int]@));
            pre.lemma_push_to_set_commute(names@[i as int]@);
        }
        i += 1;
    }
    assert(names@.take(names.len() as int) =~= names@);
    if ensure_default {
        let mut found = false;
        let mut k: usize = 0;
        while k < names.len()
            invariant
                k <= names.len(),
                found <==> exists|t: int| 0 <= t < k && (#[trigger] names@[t])@ == "proteus-system"@,
            decreases names.len() - k,
        {
            if crate::text::str_eq(names[k].as_str(), DEFAULT_NAMESPACE) {
                found = true;
            }
            k += 1;
        }
        proof {
            if strings_view(names@).contains("proteus-system"@) {
                let t = choose|t: int| 0 <= t < names@.len() && strings_view(names@)[t] == "proteus-system"@;
                assert(names@[t]@ == "proteus-system"@);
            }
            if found {
                let t = choose|t: int| 0 <= t < names@.len() && (#[trigger] names@[t])@ == "proteus-system"@;
                assert(strings_view(names@)[t] == "proteus-system"@);
            }
        }
        if !found {
            let ghost before = strings_view(out@);
            out.insert(0, String::from_str(DEFAULT_NAMESPACE));
            assert(strings_view(out@).drop_first() =~= before);
        }
    }
    out
}

/// Namespaces offered when the namespace list is unavailable: those of the inventory rows,
/// blanks left out, sorted and without repeats.
pub fn row_namespace_options(rows: &Vec<crate::api::inventory::InventoryItem>) -> (r: Vec<String>)
    ensures
        strictly_sorted(strings_view(r@)),
        forall|n: Seq<char>|
            strings_view(r@).contains(n) <==> n.len() > 0 && exists|i: int|
                0 <= i < rows@.len() && (#[trigger] rows@[i]).namespace@ == n,
{
    let mut names: Vec<String> = Vec::new();
    let mut i: usize = 0;
    while i < rows.len()
        invariant
            i <= rows@.len(),
            forall|n: Seq<char>|
                strings_view(names@).contains(n) <==> n.len() > 0 && exists|k: int|
                    0 <= k < i && (#[trigger] rows@[k]).namespace@ == n,
        decreases rows.len() - i,
    {
        let ns = &rows[i].namespace;
        let ghost before = strings_view(names@);
        if ns.as_str().unicode_len() > 0 {
            names.push(ns.clone());
            proof {
                assert(strings_view(names@) =~= before.push(ns@));
            }
        }
        proof {
            assert forall|n: Seq<char>|
                strings_view(names@).contains(n) <==> n.len() > 0 && exists|k: int|
                    0 <= k < i + 1 && (#[trigger] rows@[k]).namespace@ == n by {
                if strings_view(names@).contains(n) && !before.contains(n) {
                    assert(rows@[i as int].namespace@ == n);
                }
                if n.len() > 0 && exists|k: int| 0 <= k < i + 1 && (#[trigger] rows@[k]).namespace@ == n {
                    let k = choose|k: int| 0 <= k < i + 1 && (#[trigger] rows@[k]).namespace@ == n;
                    if k == i {
                        assert(strings_view(names@).last() == n);
                    }
                }
                if before.contains(n) {
                    let t = choose|t: int| 0 <= t < before.len() && before[t] == n;
                    assert(strings_view(names@)[t] == n);
                }
            }
        }
        i += 1;
    }
    let r = namespace_options(&names, false);
    proof {
        assert forall|n: Seq<char>| strings_view(r@).contains(n) <==> strings_view(names@).contains(n) by {
            assert(strings_view(r@).to_set().contains(n) == strings_view(names@).to_set().contains(n));
        }
    }
    r
}

/// The options matching a typed filter: all of them for an empty filter, else those whose
/// lowercase form contains the filter's lowercase form.
pub open spec fn option_matches(filter: Seq<char>, name: Seq<char>) -> bool {
    filter.len() == 0 || contains_seq(crate::text::unicode_lowercase_text(name), filter)
}

pub fn filter_namespace_options(options: &Vec<String>, draft: &str) -> (r: Vec<String>)
    ensures
        ({
            let f = crate::text::unicode_lowercase_text(draft@);
            strings_view(r@) == strings_view(options@).filter(|n: Seq<char>| option_matches(f, n))
        }),
{
    let filter = crate::text::to_lowercase(draft);
    let ghost pred = |n: Seq<char>| option_matches(filter@, n);
    let mut out: Vec<String> = Vec::new();
    let mut i: usize = 0;
    while i < options.len()
        invariant
            i <= options.len(),
            pred == (|n: Seq<char>| option_matches(filter@, n)),
            strings_view(out@) == strings_view(options@.take(i as int)).filter(pred),
        decreases options.len() - i,
    {
        let name = &options[i];
        let keep = filter.as_str().unicode_len() == 0 || contains_str(
            crate::text::to_lowercase(name.as_str()).as_str(),
            filter.as_str(),
        );
        proof {
            let pre = strings_view(options@.take(i as int));
            assert(strings_view(options@.take(i + 1)) =~= pre.push(name@));
            reveal(Seq::filter);
            assert(pre.push(name@).drop_last() =~= pre);
        }
        if keep {
            out.push(name.clone());
        }
        proof {
            let pre = strings_view(options@.take(i as int));
            if keep {
                assert(strings_view(out@) =~= pre.filter(pred).push(name@));
            }
        }
        i += 1;
    }
    assert(options@.take(options.len() as int) =~= options@);
    out
}

/// The fields of the new-repository form.
#[derive(Clone, Copy, Debug, PartialEq, Eq)]
pub enum BackendKind {
    Local,
    S3,
}

#[derive(Clone, Debug)]
pub struct RepositoryForm {
    pub backend_kind: BackendKind,
    pub name: String,
    pub namespace: String,
    pub description: String,
    pub local_path: String,
    pub bucket: String,
    pub endpoint: String,
    pub region: String,
    pub prefix: String,
    pub credentials_secret_ref: String,
    pub force_path_style: bool,
}

pub open spec fn nonblank(s: Seq<char>) -> Option<Seq<char>> {
    if trim_seq(s).len() > 0 {
        Some(trim_seq(s))
    } else {
        None
    }
}

pub open spec fn opt_view(o: Option<String>) -> Option<Seq<char>> {
    match o {
        Some(s) => Some(s@),
        None => None,
    }
}

/// The first missing field of the form, in the order the form checks them.
pub open spec fn form_problem(f: RepositoryForm) -> Option<Seq<char>> {
    if trim_seq(f.name@).len() == 0 {
        Some("name is required"@)
    } else if trim_seq(f.namespace@).len() == 0 {
        Some("namespace is required"@)
    } else {
        match f.backend_kind {
            BackendKind::Local => if trim_seq(f.local_path@).len() == 0 {
                Some("backend.path is required"@)
            } else {
                None
            },
            BackendKind::S3 => if trim_seq(f.bucket@).len() == 0 {
                Some("backend.bucket is required"@)
            } else if trim_seq(f.credentials_secret_ref@).len() == 0 {
                Some("backend.credentialsSecretRef is required"@)
            } else {
                None
            },
        }
    }
}

/// `req` is what a complete form submits: trimmed fields, blank optional ones left out,
/// encryption off.
pub open spec fn form_request_ok(f: RepositoryForm, req: CreateRepositoryRequest) -> bool {
    &&& req.name@ == trim_seq(f.name@)
    &&& req.namespace@ == trim_seq(f.namespace@)
    &&& opt_view(req.description) == nonblank(f.description@)
    &&& !req.encryption_enabled
    &&& match f.backend_kind {
        BackendKind::Local => req.backend matches CreateRepositoryBackend::Local { path } && path@
            == trim_seq(f.local_path@),
        BackendKind::S3 => req.backend matches CreateRepositoryBackend::S3 {
            bucket,
            prefix,
            endpoint,
            region,
            credentials_secret_ref,
            force_path_style,
        } && {
            &&& bucket@ == trim_seq(f.bucket@)
            &&& opt_view(prefix) == nonblank(f.prefix@)
            &&& opt_view(endpoint) == nonblank(f.endpoint@)
            &&& opt_view(region) == nonblank(f.region@)
            &&& credentials_secret_ref@ == trim_seq(f.credentials_secret_ref@)
            &&& force_path_style == f.force_path_style
        },
    }
}

fn trimmed(s: &String) -> (r: String)
    ensures
        r@ == trim_seq(s@),
{
    String::from_str(s.as_str().trim())
}

fn nonblank_trimmed(s: &String) -> (r: Option<String>)
    ensures
        opt_view(r) == nonblank(s@),
{
    let t = trimmed(s);
    if t.as_str().unicode_len() > 0 {
        Some(t)
    } else {
        None
    }
}

/// Check the new-repository form and build its request, or name the first missing field.
pub fn repository_request_from_form(f: &RepositoryForm) -> (r: Result<CreateRepositoryRequest, String>)
    ensures
        match form_problem(*f) {
            Some(m) => r matches Err(e) && e@ == m,
            None => r matches Ok(req) && form_request_ok(*f, req),
        },
{
    let name = trimmed(&f.name);
    let namespace = trimmed(&f.namespace);
    if name.as_str().unicode_len() == 0 {
        return Err(String::from_str("name is required"));
    }
    if namespace.as_str().unicode_len() == 0 {
        return Err(String::from_str("namespace is required"));
    }
    let backend = match f.backend_kind {
        BackendKind::Local => {
            let path = trimmed(&f.local_path);
            if path.as_str().unicode_len() == 0 {
                return Err(String::from_str("backend.path is required"));
            }
            CreateRepositoryBackend::Local { path }
        },
        BackendKind::S3 => {
            let bucket = trimmed(&f.bucket);
            let secret = trimmed(&f.credentials_secret_ref);
            if bucket.as_str().unicode_len() == 0 {
                return Err(String::from_str("backend.bucket is required"));
            }
            if secret.as_str().unicode_len() == 0 {
                return Err(String::from_str("backend.credentialsSecretRef is required"));
            }
            CreateRepositoryBackend::S3 {
                bucket,
                prefix: nonblank_trimmed(&f.prefix),
                endpoint: nonblank_trimmed(&f.endpoint),
                region: nonblank_trimmed(&f.region),
                credentials_secret_ref: secret,
                force_path_style: f.force_path_style,
            }
        },
    };
    Ok(
        CreateRepositoryRequest {
            name,
            namespace,
            description: nonblank_trimmed(&f.description),
            encryption_enabled: false,
            backend,
        },
    )
}

/// The confirmation question before deleting a repository.
pub fn delete_confirmation_text(name: &str, namespace: &str) -> (r: String)
    ensures
        r@ == "Delete repository "@ + name@ + " in namespace "@ + namespace@ + "?"@,
{
    let mut m = String::from_str("Delete repository ");
    m.push_str(name);
    m.push_str(" in namespace ");
    m.push_str(namespace);
    m.push_str("?");
    m
}


/// The new-repository form as it first opens: a local backend under the default namespace
/// and path, region `us-east-1`, path-style addressing on, every other field empty.
impl Default for RepositoryForm {
    fn default() -> (r: Self)
        ensures
            r.backend_kind == BackendKind::Local,
            r.name@ == Seq::<char>::empty(),
            r.namespace@ == "proteus-system"@,
            r.description@ == Seq::<char>::empty(),
            r.local_path@ == "/var/lib/proteus/repo"@,
            r.bucket@ == Seq::<char>::empty(),
            r.endpoint@ == Seq::<char>::empty(),
            r.region@ == "us-east-1"@,
            r.prefix@ == Seq::<char>::empty(),
            r.credentials_secret_ref@ == Seq::<char>::empty(),
            r.force_path_style,
    {
        RepositoryForm {
            backend_kind: BackendKind::Local,
            name: String::new(),
            namespace: String::from_str(DEFAULT_NAMESPACE),
            description: String::new(),
            local_path: String::from_str("/var/lib/proteus/repo"),
            bucket: String::new(),
            endpoint: String::new(),
            region: String::from_str("us-east-1"),
            prefix: String::new(),
            credentials_secret_ref: String::new(),
            force_path_style: true,
        }
    }
}

/// A table cell for an optional value: the value, or a dash when there is none.
pub fn text_or_dash(v: &Option<String>) -> (r: String)
    ensures
        r@ == match v {
            Some(s) => s@,
            None => "\u{2014}"@,
        },
{
    match v {
        Some(s) => s.clone(),
        None => String::from_str("\u{2014}"),
    }
}

/// The badge style of a repository phase: its own for `Ready` and `Failed`, the plain badge
/// otherwise.
pub fn phase_badge_class(phase: Option<&str>) -> (r: &'static str)
    ensures
        r@ == match phase {
            Some(p) => if p@ == "Ready"@ {
                "badge phase-ready"@
            } else if p@ == "Failed"@ {
                "badge phase-failed"@
            } else {
                "badge"@
            },
            None => "badge"@,
        },
{
    match phase {
        Some(p) => if crate::text::str_eq(p, "Ready") {
            "badge phase-ready"
        } else if crate::text::str_eq(p, "Failed") {
            "badge phase-failed"
        } else {
            "badge"
        },
        None => "badge",
    }
}

/// The kinds offered by the inventory filter: the value sent and the label shown.
pub open spec fn kind_options_seq() -> Seq<(Seq<char>, Seq<char>)> {
    seq![
        ("All"@, "All kinds"@),
        ("Deployment"@, "Deployments"@),
        ("Pod"@, "Pods"@),
        ("Service"@, "Services"@),
        ("PersistentVolumeClaim"@, "PVCs"@),
        ("ConfigMap"@, "ConfigMaps"@),
        ("Secret"@, "Secrets"@),
    ]
}

pub fn kind_options() -> (r: Vec<(&'static str, &'static str)>)
    ensures
        r@.len() == kind_options_seq().len(),
        forall|i: int|
            0 <= i < r@.len() ==> ((#[trigger] r@[i]).0@, r@[i].1@) == kind_options_seq()[i],
{
    let r = vec![
        ("All", "All kinds"),
        ("Deployment", "Deployments"),
        ("Pod", "Pods"),
        ("Service", "Services"),
        ("PersistentVolumeClaim", "PVCs"),
        ("ConfigMap", "ConfigMaps"),
        ("Secret", "Secrets"),
    ];
    r
}

fn nonempty(s: &str) -> (r: Option<String>)
    ensures
        match r {
            Some(t) => s@.len() > 0 && t@ == s@,
            None => s@.len() == 0,
        },
{
    if s.unicode_len() == 0 {
        None
    } else {
        Some(String::from_str(s))
    }
}

/// The inventory request of the page's filters: an empty namespace or query is left out, the
/// kind is always sent.
pub fn inventory_request(namespace: &str, kind: &str, query: &str) -> (r: InventoryQuery)
    ensures
        match r.namespace {
            Some(n) => namespace@.len() > 0 && n@ == namespace@,
            None => namespace@.len() == 0,
        },
        r.kind matches Some(k) && k@ == kind@,
        match r.q {
            Some(q) => query@.len() > 0 && q@ == query@,
            None => query@.len() == 0,
        },
{
    InventoryQuery { namespace: nonempty(namespace), kind: Some(String::from_str(kind)), q: nonempty(query) }
}

/// The state of the namespace picker: whether its menu is open, what has been typed, and the
/// namespace chosen (empty for all namespaces).
#[derive(Clone, Debug)]
pub struct ComboboxState {
    pub open: bool,
    pub draft: String,
    pub selected: String,
}

/// What happens to the namespace picker.
#[derive(Clone, Debug)]
pub enum ComboboxEvent {
    /// The field gains focus.
    Focus,
    /// Text is typed.
    Input(String),
    /// Escape is pressed.
    Escape,
    /// Enter is pressed: the first option matching the typed text is chosen.
    Enter,
    /// The field lost focus a moment ago.
    BlurElapsed,
    /// The clear button is pressed.
    Clear,
    /// "All namespaces" is picked.
    PickAll,
    /// A namespace is picked from the menu; a name that is not one of the options is ignored.
    Pick(String),
}

impl ComboboxState {
    /// The picker as it first shows: closed, nothing typed, all namespaces.
    pub fn new() -> (r: Self)
        ensures
            !r.open,
            r.draft@ == Seq::<char>::empty(),
            r.selected@ == Seq::<char>::empty(),
    {
        ComboboxState { open: false, draft: String::new(), selected: String::new() }
    }
}

/// The text the picker's field shows: the chosen namespace while closed, the typed text while
/// open, else nothing.
pub fn combobox_display(s: &ComboboxState) -> (r: String)
    ensures
        r@ == if !s.open && s.selected@.len() > 0 {
            s.selected@
        } else if s.open {
            s.draft@
        } else {
            Seq::<char>::empty()
        },
{
    if !s.open && s.selected.as_str().unicode_len() > 0 {
        s.selected.clone()
    } else if s.open {
        s.draft.clone()
    } else {
        String::new()
    }
}

/// The picker closed with nothing typed and `selected` chosen.
pub open spec fn closed_with(r: ComboboxState, selected: Seq<char>) -> bool {
    !r.open && r.draft@ == Seq::<char>::empty() && r.selected@ == selected
}

/// The picker holds no namespace, or one of the options: never a free-form value.
pub open spec fn selection_ok(s: ComboboxState, options: Seq<String>) -> bool {
    s.selected@.len() == 0 || strings_view(options).contains(s.selected@)
}

fn contains_name(options: &Vec<String>, name: &str) -> (r: bool)
    ensures
        r == strings_view(options@).contains(name@),
{
    let mut i: usize = 0;
    while i < options.len()
        invariant
            i <= options.len(),
            forall|k: int| 0 <= k < i ==> (#[trigger] options@[k])@ != name@,
        decreases options.len() - i,
    {
        if crate::text::str_eq(options[i].as_str(), name) {
            assert(strings_view(options@)[i as int] == name@);
            return true;
        }
        i += 1;
    }
    proof {
        if strings_view(options@).contains(name@) {
            let k = choose|k: int| 0 <= k < options@.len() && strings_view(options@)[k] == name@;
            assert(options@[k]@ == name@);
        }
    }
    false
}

/// One event on the picker whose menu lists `options`. Only an option, or no namespace, is
/// ever committed: a picker that held no namespace or an option still does afterwards.
pub fn combobox_step(s: ComboboxState, event: ComboboxEvent, options: &Vec<String>) -> (r: ComboboxState)
    ensures
        match event {
            ComboboxEvent::Focus => r.open && r.draft@ == Seq::<char>::empty() && r.selected@
                == s.selected@,
            ComboboxEvent::Input(t) => r.open && r.draft@ == t@ && r.selected@ == s.selected@,
            ComboboxEvent::Escape | ComboboxEvent::BlurElapsed => closed_with(r, s.selected@),
            ComboboxEvent::Enter => {
                let matching = strings_view(options@).filter(
                    |n: Seq<char>| option_matches(crate::text::unicode_lowercase_text(s.draft@), n),
                );
                if matching.len() > 0 {
                    closed_with(r, matching[0])
                } else {
                    r.open == s.open && r.draft@ == s.draft@ && r.selected@ == s.selected@
                }
            },
            ComboboxEvent::Clear | ComboboxEvent::PickAll => closed_with(r, Seq::<char>::empty()),
            ComboboxEvent::Pick(n) => if strings_view(options@).contains(n@) {
                closed_with(r, n@)
            } else {
                r.open == s.open && r.draft@ == s.draft@ && r.selected@ == s.selected@
            },
        },
        selection_ok(s, options@) ==> selection_ok(r, options@),
{
    match event {
        ComboboxEvent::Focus => ComboboxState { open: true, draft: String::new(), selected: s.selected },
        ComboboxEvent::Input(t) => ComboboxState { open: true, draft: t, selected: s.selected },
        ComboboxEvent::Escape | ComboboxEvent::BlurElapsed => ComboboxState {
            open: false,
            draft: String::new(),
            selected: s.selected,
        },
        ComboboxEvent::Enter => {
            let matching = filter_namespace_options(options, s.draft.as_str());
            if matching.len() > 0 {
                proof {
                    let f = crate::text::unicode_lowercase_text(s.draft@);
                    let pred = |n: Seq<char>| option_matches(f, n);
                    assert(strings_view(matching@).contains(strings_view(matching@)[0]));
                    strings_view(options@).lemma_filter_contains_rev(pred, strings_view(matching@)[0]);
                }
                ComboboxState { open: false, draft: String::new(), selected: matching[0].clone() }
            } else {
                s
            }
        },
        ComboboxEvent::Clear | ComboboxEvent::PickAll => ComboboxState {
            open: false,
            draft: String::new(),
            selected: String::new(),
        },
        ComboboxEvent::Pick(n) => {
            if contains_name(options, n.as_str()) {
                ComboboxState { open: false, draft: String::new(), selected: n }
            } else {
                s
            }
        },
    }
}

/// The style of a menu entry: active when it is the chosen one.
pub fn combobox_option_class(selected: &str, name: &str) -> (r: &'static str)
    ensures
        r@ == if selected@ == name@ {
            "combobox-option active"@
        } else {
            "combobox-option"@
        },
{
    if crate::text::str_eq(selected, name) {
        "combobox-option active"
    } else {
        "combobox-option"
    }
}

} // verus!
