use vstd::prelude::*;
use crate::api::common::{opt_str_view, trimmed_opt};
use crate::api::error::{ApiError, ApiResult};
use crate::api::state::object_namespace;
use crate::crd::meta::{name_any_of, namespace_of, ObjectMeta};
use crate::text::{
    ascii_lower_seq, contains_seq, contains_str, decimal_seq, i64_to_decimal, signed_decimal_seq,
    str_eq, to_ascii_lower, trim_seq, u64_to_decimal,
};

verus! {

/// The kinds the inventory lists, in listing order.
pub open spec fn inventory_kinds_seq() -> Seq<Seq<char>> {
    seq!["Deployment"@, "Pod"@, "Service"@, "PersistentVolumeClaim"@, "ConfigMap"@, "Secret"@]
}

pub fn inventory_kinds() -> (r: Vec<&'static str>)
    ensures
        r@.len() == inventory_kinds_seq().len(),
        forall|i: int| 0 <= i < r@.len() ==> (#[trigger] r@[i])@ == inventory_kinds_seq()[i],
{
    let r = vec!["Deployment", "Pod", "Service", "PersistentVolumeClaim", "ConfigMap", "Secret"];
    r
}

/// Query of the inventory listing.
#[derive(Clone, Debug)]
pub struct InventoryQuery {
    pub namespace: Option<String>,
    pub kind: Option<String>,
    pub q: Option<String>,
}

impl Default for InventoryQuery {
    fn default() -> (r: Self)
        ensures
            r.namespace is None,
            r.kind is None,
            r.q is None,
    {
        InventoryQuery { namespace: None, kind: None, q: None }
    }
}

/// One row of the inventory: metadata only.
#[derive(Debug, PartialEq, Eq)]
pub struct InventoryItem {
    pub kind: String,
    pub name: String,
    pub namespace: String,
    pub extra: Option<String>,
}

impl Clone for InventoryItem {
    fn clone(&self) -> (r: Self)
        ensures
            r == *self,
    {
        InventoryItem {
            kind: self.kind.clone(),
            name: self.name.clone(),
            namespace: self.namespace.clone(),
            extra: crate::api::common::clone_opt_string(&self.extra),
        }
    }
}

/// Two strings are equal up to ASCII case.
pub open spec fn eq_ignore_ascii_case_seq(a: Seq<char>, b: Seq<char>) -> bool {
    ascii_lower_seq(a) == ascii_lower_seq(b)
}

/// Equality up to ASCII case.
pub fn eq_ignore_ascii_case(a: &str, b: &str) -> (r: bool)
    ensures
        r == eq_ignore_ascii_case_seq(a@, b@),
{
    let la = to_ascii_lower(a);
    let lb = to_ascii_lower(b);
    la == lb
}

/// `raw` names the PVC kind by its short alias.
pub open spec fn pvc_alias_spec(raw: Seq<char>, allowed: Seq<char>) -> bool {
    allowed == "PersistentVolumeClaim"@ && eq_ignore_ascii_case_seq(raw, "PVC"@)
}

fn pvc_alias(raw: &str, allowed: &str) -> (r: bool)
    ensures
        r == pvc_alias_spec(raw@, allowed@),
{
    let same = str_eq(allowed, "PersistentVolumeClaim");
    same && eq_ignore_ascii_case(raw, "PVC")
}

/// `raw` selects the kind `allowed`.
pub open spec fn kind_matches(raw: Seq<char>, allowed: Seq<char>) -> bool {
    eq_ignore_ascii_case_seq(allowed, raw) || pvc_alias_spec(raw, allowed)
}

/// The first of `kinds` that `raw` selects.
pub open spec fn first_matching_kind(raw: Seq<char>, kinds: Seq<Seq<char>>) -> Option<Seq<char>>
    decreases kinds.len(),
{
    if kinds.len() == 0 {
        None
    } else if kind_matches(raw, kinds[0]) {
        Some(kinds[0])
    } else {
        first_matching_kind(raw, kinds.drop_first())
    }
}

/// The message of the error for an unknown kind.
pub open spec fn unsupported_kind_text(raw: Seq<char>) -> Seq<char> {
    "unsupported inventory kind '"@ + raw
        + "'; allowed: Deployment, Pod, Service, PersistentVolumeClaim, ConfigMap, Secret"@
}

/// The kinds a query's `kind` parameter selects: all of them for none, a blank value, `All`,
/// `all` or `*`; otherwise the one kind it names (ASCII case ignored, `PVC` for
/// `PersistentVolumeClaim`), or the error `unsupported_kind_text`.
pub open spec fn resolved_kinds(kind: Option<Seq<char>>) -> Result<Seq<Seq<char>>, Seq<char>> {
    match trimmed_opt(kind) {
        None => Ok(inventory_kinds_seq()),
        Some(raw) => if raw == "All"@ || raw == "all"@ || raw == "*"@ {
            Ok(inventory_kinds_seq())
        } else {
            match first_matching_kind(raw, inventory_kinds_seq()) {
                Some(k) => Ok(seq![k]),
                None => Err(unsupported_kind_text(raw)),
            }
        },
    }
}

pub fn resolve_kinds(kind: Option<&str>) -> (r: ApiResult<Vec<&'static str>>)
    ensures
        match resolved_kinds(opt_str_view(kind)) {
            Ok(ks) => r matches Ok(v) && v@.len() == ks.len() && forall|i: int|
                0 <= i < ks.len() ==> (#[trigger] v@[i])@ == ks[i],
            Err(m) => r matches Err(e) && e == ApiError::BadRequest(e->BadRequest_0)
                && e->BadRequest_0@ == m,
        },
{
    let trimmed = crate::api::common::optional_trimmed(kind);
    let raw = match trimmed {
        None => {
            return Ok(inventory_kinds());
        },
        Some(raw) => raw,
    };
    let raw = raw.as_str();
    if str_eq(raw, "All") || str_eq(raw, "all") || str_eq(raw, "*") {
        return Ok(inventory_kinds());
    }
    let kinds = inventory_kinds();
    let mut i: usize = 0;
    assert(inventory_kinds_seq().skip(0) =~= inventory_kinds_seq());
    while i < kinds.len()
        invariant
            kinds@.len() == inventory_kinds_seq().len(),
            forall|j: int| 0 <= j < kinds@.len() ==> (#[trigger] kinds@[j])@ == inventory_kinds_seq()[j],
            i <= kinds.len(),
            trimmed_opt(opt_str_view(kind)) == Some(raw@),
            !(raw@ == "All"@ || raw@ == "all"@ || raw@ == "*"@),
            first_matching_kind(raw@, inventory_kinds_seq()) == first_matching_kind(
                raw@,
                inventory_kinds_seq().skip(i as int),
            ),
        decreases kinds.len() - i,
    {
        let allowed = kinds[i];
        proof {
            let rest = inventory_kinds_seq().skip(i as int);
            assert(rest[0] == allowed@);
            assert(rest.drop_first() =~= inventory_kinds_seq().skip(i + 1));
        }
        if eq_ignore_ascii_case(allowed, raw) || pvc_alias(raw, allowed) {
            proof {
                let rest = inventory_kinds_seq().skip(i as int);
                assert(kind_matches(raw@, rest[0]));
                assert(first_matching_kind(raw@, rest) == Some(allowed@));
            }
            let mut one: Vec<&'static str> = Vec::new();
            one.push(allowed);
            return Ok(one);
        }
        i += 1;
    }
    proof {
        assert(inventory_kinds_seq().skip(i as int).len() == 0);
    }
    let mut msg = String::from_str("unsupported inventory kind '");
    msg.push_str(raw);
    msg.push_str("'; allowed: Deployment, Pod, Service, PersistentVolumeClaim, ConfigMap, Secret");
    Err(ApiError::BadRequest(msg))
}

/// `item`'s name contains `needle`, ASCII case ignored (`needle` already lowercased).
pub open spec fn name_matches(needle: Seq<char>) -> spec_fn(InventoryItem) -> bool {
    |item: InventoryItem| contains_seq(ascii_lower_seq(item.name@), needle)
}

/// The rows whose name contains the trimmed query, ASCII case ignored; all rows for no query
/// or a blank one. Row order is kept.
pub open spec fn filtered_by_name(items: Seq<InventoryItem>, q: Option<Seq<char>>) -> Seq<
    InventoryItem,
> {
    match trimmed_opt(q) {
        None => items,
        Some(needle) => items.filter(name_matches(ascii_lower_seq(needle))),
    }
}

pub fn filter_by_name(items: Vec<InventoryItem>, q: Option<&str>) -> (r: Vec<InventoryItem>)
    ensures
        r@ == filtered_by_name(items@, opt_str_view(q)),
{
    let needle = match crate::api::common::optional_trimmed(q) {
        None => {
            return items;
        },
        Some(n) => n,
    };
    let needle = to_ascii_lower(needle.as_str());
    let ghost pred = name_matches(needle@);
    let mut out: Vec<InventoryItem> = Vec::new();
    let mut i: usize = 0;
    while i < items.len()
        invariant
            i <= items.len(),
            pred == name_matches(needle@),
            out@ == items@.take(i as int).filter(pred),
        decreases items.len() - i,
    {
        let item = &items[i];
        let lowered = to_ascii_lower(item.name.as_str());
        proof {
            assert(items@.take(i + 1) =~= items@.take(i as int).push(items@[i as int]));
            reveal(Seq::filter);
            assert(items@.take(i + 1).drop_last() =~= items@.take(i as int));
        }
        if contains_str(lowered.as_str(), needle.as_str()) {
            out.push(item.clone());
        }
        i += 1;
    }
    assert(items@.take(items.len() as int) =~= items@);
    out
}

/// The row of a Deployment: `"{ready}/{desired} ready"`, counts defaulting to 0.
pub fn deployment_item(meta: &ObjectMeta, ready: Option<i32>, desired: Option<i32>) -> (r:
    InventoryItem)
    ensures
        r.kind@ == "Deployment"@,
        r.name@ == name_any_of(*meta),
        r.namespace@ == namespace_of(*meta),
        r.extra matches Some(e) && e@ == signed_decimal_seq(
            match ready {
                Some(v) => v as int,
                None => 0,
            },
        ) + "/"@ + signed_decimal_seq(
            match desired {
                Some(v) => v as int,
                None => 0,
            },
        ) + " ready"@,
{
    let ready = match ready {
        Some(v) => v,
        None => 0,
    };
    let desired = match desired {
        Some(v) => v,
        None => 0,
    };
    let mut extra = i64_to_decimal(ready as i64);
    extra.push_str("/");
    extra.push_str(i64_to_decimal(desired as i64).as_str());
    extra.push_str(" ready");
    InventoryItem {
        kind: String::from_str("Deployment"),
        name: meta.name_any(),
        namespace: object_namespace(meta),
        extra: Some(extra),
    }
}

fn text_or(value: Option<String>, fallback: &str) -> (r: String)
    ensures
        r@ == match value {
            Some(v) => v@,
            None => fallback@,
        },
{
    match value {
        Some(v) => v,
        None => String::from_str(fallback),
    }
}

/// The row of a Pod: its phase, `Unknown` when it has none.
pub fn pod_item(meta: &ObjectMeta, phase: Option<String>) -> (r: InventoryItem)
    ensures
        r.kind@ == "Pod"@,
        r.name@ == name_any_of(*meta),
        r.namespace@ == namespace_of(*meta),
        r.extra matches Some(e) && e@ == match phase {
            Some(p) => p@,
            None => "Unknown"@,
        },
{
    InventoryItem {
        kind: String::from_str("Pod"),
        name: meta.name_any(),
        namespace: object_namespace(meta),
        extra: Some(text_or(phase, "Unknown")),
    }
}

/// The row of a Service: its type, `ClusterIP` when it has none.
pub fn service_item(meta: &ObjectMeta, service_type: Option<String>) -> (r: InventoryItem)
    ensures
        r.kind@ == "Service"@,
        r.name@ == name_any_of(*meta),
        r.namespace@ == namespace_of(*meta),
        r.extra matches Some(e) && e@ == match service_type {
            Some(t) => t@,
            None => "ClusterIP"@,
        },
{
    InventoryItem {
        kind: String::from_str("Service"),
        name: meta.name_any(),
        namespace: object_namespace(meta),
        extra: Some(text_or(service_type, "ClusterIP")),
    }
}

/// The row of a PersistentVolumeClaim: its phase, `Unknown` when it has none.
pub fn pvc_item(meta: &ObjectMeta, phase: Option<String>) -> (r: InventoryItem)
    ensures
        r.kind@ == "PersistentVolumeClaim"@,
        r.name@ == name_any_of(*meta),
        r.namespace@ == namespace_of(*meta),
        r.extra matches Some(e) && e@ == match phase {
            Some(p) => p@,
            None => "Unknown"@,
        },
{
    InventoryItem {
        kind: String::from_str("PersistentVolumeClaim"),
        name: meta.name_any(),
        namespace: object_namespace(meta),
        extra: Some(text_or(phase, "Unknown")),
    }
}

/// The row of a ConfigMap: `"{n} keys"`, counting text and binary entries.
pub fn configmap_item(meta: &ObjectMeta, data_keys: usize, binary_keys: usize) -> (r:
    InventoryItem)
    requires
        data_keys + binary_keys <= usize::MAX,
    ensures
        r.kind@ == "ConfigMap"@,
        r.name@ == name_any_of(*meta),
        r.namespace@ == namespace_of(*meta),
        r.extra matches Some(e) && e@ == decimal_seq((data_keys + binary_keys) as nat)
            + " keys"@,
{
    let keys = data_keys + binary_keys;
    let mut extra = u64_to_decimal(keys as u64);
    extra.push_str(" keys");
    InventoryItem {
        kind: String::from_str("ConfigMap"),
        name: meta.name_any(),
        namespace: object_namespace(meta),
        extra: Some(extra),
    }
}

/// The row of a Secret, built from metadata alone: its data never enters the row.
pub fn secret_from_partial_meta(meta: &ObjectMeta) -> (r: InventoryItem)
    ensures
        r.kind@ == "Secret"@,
        r.name@ == name_any_of(*meta),
        r.namespace@ == namespace_of(*meta),
        r.extra is None,
{
    InventoryItem {
        kind: String::from_str("Secret"),
        name: meta.name_any(),
        namespace: object_namespace(meta),
        extra: None,
    }
}


/// Filtering by name keeps a row exactly when the lowercased, trimmed query occurs anywhere
/// in its lowercased name (at any offset, not only at the start): every row with such an
/// occurrence is kept, and every row kept is one of the rows and has one. A blank query
/// keeps every row.
pub proof fn lemma_filter_by_name_substring(items: Seq<InventoryItem>, q: Seq<char>, k: int, i: int)
    requires
        0 <= k < items.len(),
    ensures
        trim_seq(q).len() == 0 ==> filtered_by_name(items, Some(q)) == items,
        ({
            let needle = ascii_lower_seq(trim_seq(q));
            let hay = ascii_lower_seq(items[k].name@);
            (trim_seq(q).len() > 0 && 0 <= i && i + needle.len() <= hay.len() && hay.subrange(
                i,
                i + needle.len(),
            ) == needle) ==> filtered_by_name(items, Some(q)).contains(items[k])
        }),
        trim_seq(q).len() > 0 ==> forall|j: int|
            0 <= j < filtered_by_name(items, Some(q)).len() ==> {
                let row = #[trigger] filtered_by_name(items, Some(q))[j];
                let needle = ascii_lower_seq(trim_seq(q));
                let hay = ascii_lower_seq(row.name@);
                &&& items.contains(row)
                &&& exists|p: int|
                    0 <= p && p + needle.len() <= hay.len() && #[trigger] hay.subrange(
                    p,
                    p + needle.len(),
                ) == needle
            },
{
    broadcast use vstd::seq_lib::group_filter_ensures;

    if trim_seq(q).len() > 0 {
        let needle = ascii_lower_seq(trim_seq(q));
        let pred = name_matches(needle);
        assert(filtered_by_name(items, Some(q)) == items.filter(pred));
        let hay = ascii_lower_seq(items[k].name@);
        if 0 <= i && i + needle.len() <= hay.len() && hay.subrange(i, i + needle.len()) == needle {
            assert(crate::text::occurs_at(hay, needle, i));
            assert(pred(items[k]));
            items.lemma_filter_contains(pred, k);
        }
        assert forall|j: int| 0 <= j < items.filter(pred).len() implies {
            let row = #[trigger] items.filter(pred)[j];
            let hay = ascii_lower_seq(row.name@);
            &&& items.contains(row)
            &&& exists|p: int|
                0 <= p && p + needle.len() <= hay.len() && #[trigger] hay.subrange(
                    p,
                    p + needle.len(),
                ) == needle
        } by {
            let row = items.filter(pred)[j];
            assert(items.filter(pred).contains(row));
            items.lemma_filter_contains_rev(pred, row);
            items.lemma_filter_pred(pred, j);
            let hay = ascii_lower_seq(row.name@);
            let p = choose|p: int| crate::text::occurs_at(hay, needle, p);
            assert(crate::text::occurs_at(hay, needle, p));
        }
    }
}

} // verus!
