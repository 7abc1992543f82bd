//! The Kubernetes Secrets the API manages for repositories: inline S3 credentials and
//! generated encryption keys.

use vstd::prelude::*;
use crate::crd::meta::{name_any_of, OwnerReference};
use crate::crd::repository::ProteusRepository;
use vstd::string::StringSliceAdditionalSpecFns;

verus! {

pub const MANAGED_SECRET_LABEL: &'static str = "proteus.io/managed-credentials";

pub const MANAGED_SECRET_REPO_LABEL: &'static str = "proteus.io/repository";

/// Inline S3 credentials to materialize as a Secret.
#[derive(Clone, Debug)]
pub struct InlineS3Credentials {
    pub secret_name: String,
    pub access_key_id: String,
    pub secret_access_key: String,
}

/// A generated encryption key to materialize as a Secret.
#[derive(Clone, Debug)]
pub struct InlineEncryptionKey {
    pub secret_name: String,
    pub key_base64: String,
}

/// A Secret to create (or, on a conflict, to apply over the existing one).
#[derive(Clone, Debug)]
pub struct SecretManifest {
    pub name: String,
    pub namespace: String,
    pub labels: Vec<(String, String)>,
    pub owner_references: Option<Vec<OwnerReference>>,
    pub secret_type: String,
    pub string_data: Vec<(String, String)>,
}

pub open spec fn pair_view(p: (String, String)) -> (Seq<char>, Seq<char>) {
    (p.0@, p.1@)
}

pub open spec fn pairs_view(s: Seq<(String, String)>) -> Seq<(Seq<char>, Seq<char>)> {
    s.map_values(|p: (String, String)| pair_view(p))
}

fn pair(k: &str, v: String) -> (r: (String, String))
    ensures
        pair_view(r) == (k@, v@),
{
    (String::from_str(k), v)
}

/// The controlling owner reference to `repo`, when it has a uid.
pub open spec fn repository_owner_ref_ok(owner: Option<ProteusRepository>, r: Option<Vec<OwnerReference>>) -> bool {
    match owner {
        Some(repo) if repo.metadata.uid is Some => r matches Some(v) && v@.len() == 1 && {
            let o = v@[0];
            &&& o.api_version@ == "proteus.io/v1alpha1"@
            &&& o.kind@ == "ProteusRepository"@
            &&& o.name@ == name_any_of(repo.metadata)
            &&& o.uid@ == repo.metadata.uid.unwrap()@
            &&& o.controller == Some(true)
            &&& o.block_owner_deletion == Some(true)
        },
        _ => r is None,
    }
}

pub fn repository_owner_references(owner: Option<&ProteusRepository>) -> (r: Option<Vec<OwnerReference>>)
    ensures
        repository_owner_ref_ok(
            match owner {
                Some(o) => Some(*o),
                None => None,
            },
            r,
        ),
{
    match owner {
        Some(repo) => match &repo.metadata.uid {
            Some(uid) => {
                let mut v: Vec<OwnerReference> = Vec::new();
                v.push(
                    OwnerReference {
                        api_version: String::from_str("proteus.io/v1alpha1"),
                        kind: String::from_str("ProteusRepository"),
                        name: repo.metadata.name_any(),
                        uid: uid.clone(),
                        controller: Some(true),
                        block_owner_deletion: Some(true),
                    },
                );
                Some(v)
            },
            None => None,
        },
        None => None,
    }
}

/// Labels of a managed Secret: the managed marker, and the owning repository's name when
/// there is one.
pub open spec fn managed_labels_of(owner: Option<ProteusRepository>) -> Seq<(Seq<char>, Seq<char>)> {
    match owner {
        Some(repo) => seq![
            ("proteus.io/managed-credentials"@, "true"@),
            ("proteus.io/repository"@, name_any_of(repo.metadata)),
        ],
        None => seq![("proteus.io/managed-credentials"@, "true"@)],
    }
}

pub fn managed_labels(owner: Option<&ProteusRepository>) -> (r: Vec<(String, String)>)
    ensures
        pairs_view(r@) == managed_labels_of(
            match owner {
                Some(o) => Some(*o),
                None => None,
            },
        ),
{
    let mut labels: Vec<(String, String)> = Vec::new();
    labels.push(pair(MANAGED_SECRET_LABEL, String::from_str("true")));
    if let Some(repo) = owner {
        labels.push(pair(MANAGED_SECRET_REPO_LABEL, repo.metadata.name_any()));
    }
    assert(pairs_view(labels@) =~= managed_labels_of(
        match owner {
            Some(o) => Some(*o),
            None => None,
        },
    ));
    labels
}

/// Labels applied over an existing managed Secret: the repository label is always present,
/// empty without an owner.
pub open spec fn managed_patch_labels_of(owner: Option<ProteusRepository>) -> Seq<
    (Seq<char>, Seq<char>),
> {
    seq![
        ("proteus.io/managed-credentials"@, "true"@),
        ("proteus.io/repository"@, match owner {
            Some(repo) => name_any_of(repo.metadata),
            None => Seq::empty(),
        }),
    ]
}

pub fn managed_patch_labels(owner: Option<&ProteusRepository>) -> (r: Vec<(String, String)>)
    ensures
        pairs_view(r@) == managed_patch_labels_of(
            match owner {
                Some(o) => Some(*o),
                None => None,
            },
        ),
{
    let mut labels: Vec<(String, String)> = Vec::new();
    labels.push(pair(MANAGED_SECRET_LABEL, String::from_str("true")));
    let repo_name = match owner {
        Some(repo) => repo.metadata.name_any(),
        None => String::new(),
    };
    labels.push(pair(MANAGED_SECRET_REPO_LABEL, repo_name));
    assert(pairs_view(labels@) =~= managed_patch_labels_of(
        match owner {
            Some(o) => Some(*o),
            None => None,
        },
    ));
    labels
}

/// `s` is the managed Secret `name` in `namespace` holding `data`, owned by `owner`.
pub open spec fn managed_secret_ok(
    s: SecretManifest,
    name: Seq<char>,
    namespace: Seq<char>,
    owner: Option<ProteusRepository>,
    data: Seq<(Seq<char>, Seq<char>)>,
) -> bool {
    &&& s.name@ == name
    &&& s.namespace@ == namespace
    &&& pairs_view(s.labels@) == managed_labels_of(owner)
    &&& repository_owner_ref_ok(owner, s.owner_references)
    &&& s.secret_type@ == "Opaque"@
    &&& pairs_view(s.string_data@) == data
}

/// The Secret holding inline S3 credentials under `accessKeyId` and `secretAccessKey`.
pub fn s3_credentials_secret(
    namespace: &str,
    creds: &InlineS3Credentials,
    owner: Option<&ProteusRepository>,
) -> (r: SecretManifest)
    ensures
        managed_secret_ok(
            r,
            creds.secret_name@,
            namespace@,
            match owner {
                Some(o) => Some(*o),
                None => None,
            },
            seq![
                ("accessKeyId"@, creds.access_key_id@),
                ("secretAccessKey"@, creds.secret_access_key@),
            ],
        ),
{
    let mut data: Vec<(String, String)> = Vec::new();
    data.push(pair("accessKeyId", creds.access_key_id.clone()));
    data.push(pair("secretAccessKey", creds.secret_access_key.clone()));
    assert(pairs_view(data@) =~= seq![
        ("accessKeyId"@, creds.access_key_id@),
        ("secretAccessKey"@, creds.secret_access_key@),
    ]);
    SecretManifest {
        name: creds.secret_name.clone(),
        namespace: String::from_str(namespace),
        labels: managed_labels(owner),
        owner_references: repository_owner_references(owner),
        secret_type: String::from_str("Opaque"),
        string_data: data,
    }
}

/// The Secret holding a generated encryption key under `encryptionKey`.
pub fn encryption_key_secret(
    namespace: &str,
    key: &InlineEncryptionKey,
    owner: Option<&ProteusRepository>,
) -> (r: SecretManifest)
    ensures
        managed_secret_ok(
            r,
            key.secret_name@,
            namespace@,
            match owner {
                Some(o) => Some(*o),
                None => None,
            },
            seq![("encryptionKey"@, key.key_base64@)],
        ),
{
    let mut data: Vec<(String, String)> = Vec::new();
    data.push(pair("encryptionKey", key.key_base64.clone()));
    assert(pairs_view(data@) =~= seq![("encryptionKey"@, key.key_base64@)]);
    SecretManifest {
        name: key.secret_name.clone(),
        namespace: String::from_str(namespace),
        labels: managed_labels(owner),
        owner_references: repository_owner_references(owner),
        secret_type: String::from_str("Opaque"),
        string_data: data,
    }
}

/// The map a run of key/value pairs describes, over views: a later pair overrides an
/// earlier one with the same key.
pub open spec fn pairs_map<V: View>(s: Seq<(String, V)>) -> Map<Seq<char>, V::V>
    decreases s.len(),
{
    if s.len() == 0 {
        Map::empty()
    } else {
        pairs_map(s.drop_last()).insert(s.last().0@, s.last().1@)
    }
}

/// `m` after adding the pairs of `s` whose key is not there yet: an earlier pair wins.
pub open spec fn fill_absent<V: View>(m: Map<Seq<char>, V::V>, s: Seq<(String, V)>) -> Map<
    Seq<char>,
    V::V,
>
    decreases s.len(),
{
    if s.len() == 0 {
        m
    } else {
        let m1 = fill_absent(m, s.drop_last());
        if m1.dom().contains(s.last().0@) {
            m1
        } else {
            m1.insert(s.last().0@, s.last().1@)
        }
    }
}

pub open spec fn unique_keys<V>(s: Seq<(String, V)>) -> bool {
    forall|i: int, j: int| 0 <= i < j < s.len() ==> (#[trigger] s[i]).0@ != (#[trigger] s[j]).0@
}

proof fn lemma_pairs_map_contains<V: View>(s: Seq<(String, V)>, k: Seq<char>)
    ensures
        pairs_map(s).dom().contains(k) <==> exists|i: int| 0 <= i < s.len() && (#[trigger] s[i]).0@ == k,
    decreases s.len(),
{
    if s.len() > 0 {
        lemma_pairs_map_contains(s.drop_last(), k);
        if exists|i: int| 0 <= i < s.len() && (#[trigger] s[i]).0@ == k {
            let i = choose|i: int| 0 <= i < s.len() && (#[trigger] s[i]).0@ == k;
            if i < s.len() - 1 {
                assert(s.drop_last()[i] == s[i]);
            }
        }
        if exists|i: int| 0 <= i < s.drop_last().len() && (#[trigger] s.drop_last()[i]).0@ == k {
            let i = choose|i: int|
                0 <= i < s.drop_last().len() && (#[trigger] s.drop_last()[i]).0@ == k;
            assert(s[i] == s.drop_last()[i]);
        }
    }
}

proof fn lemma_pairs_map_update<V: View>(s: Seq<(String, V)>, i: int, k: String, v: V)
    requires
        0 <= i < s.len(),
        unique_keys(s),
        s[i].0@ == k@,
    ensures
        pairs_map(s.update(i, (k, v))) == pairs_map(s).insert(k@, v@),
        unique_keys(s.update(i, (k, v))),
    decreases s.len(),
{
    let t = s.update(i, (k, v));
    assert forall|a: int, b: int| 0 <= a < b < t.len() implies (#[trigger] t[a]).0@ != (
    #[trigger] t[b]).0@ by {
        assert(s[a].0@ != s[b].0@);
    }
    if i == s.len() - 1 {
        assert(t.drop_last() =~= s.drop_last());
        assert(pairs_map(t) =~= pairs_map(s).insert(k@, v@));
    } else {
        assert(t.drop_last() =~= s.drop_last().update(i, (k, v)));
        assert(unique_keys(s.drop_last())) by {
            assert forall|a: int, b: int| 0 <= a < b < s.drop_last().len() implies (
            #[trigger] s.drop_last()[a]).0@ != (#[trigger] s.drop_last()[b]).0@ by {
                assert(s[a].0@ != s[b].0@);
            }
        }
        lemma_pairs_map_update(s.drop_last(), i, k, v);
        assert(s.last().0@ != k@) by {
            assert(s[i].0@ != s[s.len() - 1].0@);
        }
        assert(t.last() == s.last());
        assert(pairs_map(t) =~= pairs_map(s).insert(k@, v@));
    }
}

fn find_key<V>(out: &Vec<(String, V)>, k: &str) -> (r: Option<usize>)
    ensures
        match r {
            Some(i) => i < out@.len() && out@[i as int].0@ == k@,
            None => forall|i: int| 0 <= i < out@.len() ==> (#[trigger] out@[i]).0@ != k@,
        },
{
    let mut i: usize = 0;
    while i < out.len()
        invariant
            i <= out@.len(),
            forall|j: int| 0 <= j < i ==> (#[trigger] out@[j]).0@ != k@,
        decreases out.len() - i,
    {
        if crate::text::str_eq(out[i].0.as_str(), k) {
            return Some(i);
        }
        i += 1;
    }
    None
}

/// Set `k` to `v`, replacing an earlier value.
fn upsert<V: View>(out: &mut Vec<(String, V)>, k: String, v: V)
    requires
        unique_keys(old(out)@),
    ensures
        unique_keys(final(out)@),
        pairs_map(final(out)@) == pairs_map(old(out)@).insert(k@, v@),
{
    match find_key(out, k.as_str()) {
        Some(i) => {
            proof {
                lemma_pairs_map_update(out@, i as int, k, v);
            }
            out.set(i, (k, v));
        },
        None => {
            let ghost before = out@;
            out.push((k, v));
            proof {
                assert(out@.drop_last() =~= before);
                assert forall|a: int, b: int| 0 <= a < b < out@.len() implies (
                #[trigger] out@[a]).0@ != (#[trigger] out@[b]).0@ by {
                    if b == out@.len() - 1 {
                        assert(before[a].0@ != k@);
                    } else {
                        assert(before[a].0@ != before[b].0@);
                    }
                }
            }
        },
    }
}

/// Add `k` with `v` unless `k` is already there.
fn insert_absent<V: View>(out: &mut Vec<(String, V)>, k: String, v: V)
    requires
        unique_keys(old(out)@),
    ensures
        unique_keys(final(out)@),
        pairs_map(final(out)@) == if pairs_map(old(out)@).dom().contains(k@) {
            pairs_map(old(out)@)
        } else {
            pairs_map(old(out)@).insert(k@, v@)
        },
{
    proof {
        lemma_pairs_map_contains(out@, k@);
    }
    match find_key(out, k.as_str()) {
        Some(_) => {},
        None => {
            upsert(out, k, v);
        },
    }
}

/// The entries of a Secret as raw bytes: text entries as their UTF-8 bytes (a later one
/// wins), then binary entries for keys not set yet (text wins over binary, an earlier binary
/// entry over a later one), so both base64 text and raw binary key material survive.
pub open spec fn raw_secret_map(
    data: Seq<(String, Vec<u8>)>,
    string_data: Seq<(String, String)>,
) -> Map<Seq<char>, Seq<u8>> {
    fill_absent(text_bytes_map(string_data), data)
}

pub open spec fn text_bytes_map(s: Seq<(String, String)>) -> Map<Seq<char>, Seq<u8>>
    decreases s.len(),
{
    if s.len() == 0 {
        Map::empty()
    } else {
        text_bytes_map(s.drop_last()).insert(s.last().0@, vstd::utf8::encode_utf8(s.last().1@))
    }
}

pub fn decode_secret_raw_data(
    data: Option<&Vec<(String, Vec<u8>)>>,
    string_data: Option<&Vec<(String, String)>>,
) -> (r: Vec<(String, Vec<u8>)>)
    ensures
        unique_keys(r@),
        pairs_map(r@) == raw_secret_map(
            match data {
                Some(d) => d@,
                None => Seq::empty(),
            },
            match string_data {
                Some(s) => s@,
                None => Seq::empty(),
            },
        ),
{
    let mut out: Vec<(String, Vec<u8>)> = Vec::new();
    let ghost sd = match string_data {
        Some(s) => s@,
        None => Seq::<(String, String)>::empty(),
    };
    let ghost dd = match data {
        Some(d) => d@,
        None => Seq::<(String, Vec<u8>)>::empty(),
    };
    if let Some(string_data) = string_data {
        let mut i: usize = 0;
        while i < string_data.len()
            invariant
                i <= string_data@.len(),
                sd == string_data@,
                unique_keys(out@),
                pairs_map(out@) == text_bytes_map(sd.take(i as int)),
            decreases string_data.len() - i,
        {
            let (k, v) = &string_data[i];
            let bytes = vstd::slice::slice_to_vec(v.as_str().as_bytes());
            upsert(&mut out, k.clone(), bytes);
            proof {
                assert(sd.take(i + 1).drop_last() =~= sd.take(i as int));
            }
            i += 1;
        }
        assert(sd.take(string_data@.len() as int) =~= sd);
    }
    assert(pairs_map(out@) == text_bytes_map(sd));
    if let Some(data) = data {
        let ghost text = pairs_map(out@);
        let mut i: usize = 0;
        while i < data.len()
            invariant
                i <= data@.len(),
                dd == data@,
                unique_keys(out@),
                pairs_map(out@) == fill_absent(text, dd.take(i as int)),
            decreases data.len() - i,
        {
            let (k, v) = &data[i];
            let bytes = vstd::slice::slice_to_vec(v.as_slice());
            insert_absent(&mut out, k.clone(), bytes);
            proof {
                assert(dd.take(i + 1).drop_last() =~= dd.take(i as int));
                assert(dd.take(i + 1).last() == dd[i as int]);
            }
            i += 1;
        }
        assert(dd.take(data@.len() as int) =~= dd);
    }
    out
}

/// Trusted: `String::from_utf8` accepts exactly the valid UTF-8 byte strings and decodes them
/// (std documentation).
#[verifier::external_body]
fn string_from_utf8(bytes: Vec<u8>) -> (r: Option<String>)
    ensures
        match r {
            Some(s) => vstd::utf8::valid_utf8(bytes@) && s@ == vstd::utf8::decode_utf8(bytes@),
            None => !vstd::utf8::valid_utf8(bytes@),
        },
{
    String::from_utf8(bytes).ok()
}

/// The binary entries that are valid UTF-8, decoded, in order.
pub open spec fn utf8_entries(s: Seq<(String, Vec<u8>)>) -> Seq<(Seq<char>, Seq<char>)>
    decreases s.len(),
{
    if s.len() == 0 {
        Seq::empty()
    } else {
        let rest = utf8_entries(s.drop_last());
        if vstd::utf8::valid_utf8(s.last().1@) {
            rest.push((s.last().0@, vstd::utf8::decode_utf8(s.last().1@)))
        } else {
            rest
        }
    }
}

/// `m` after adding the pairs of `s` whose key is not there yet.
pub open spec fn fill_absent_views(m: Map<Seq<char>, Seq<char>>, s: Seq<(Seq<char>, Seq<char>)>) -> Map<
    Seq<char>,
    Seq<char>,
>
    decreases s.len(),
{
    if s.len() == 0 {
        m
    } else {
        let m1 = fill_absent_views(m, s.drop_last());
        if m1.dom().contains(s.last().0) {
            m1
        } else {
            m1.insert(s.last().0, s.last().1)
        }
    }
}

/// The entries of a Secret as text: text entries, then the binary entries that are valid
/// UTF-8 for keys not set yet; binary entries that are not text are left out.
pub open spec fn text_secret_map(
    data: Seq<(String, Vec<u8>)>,
    string_data: Seq<(String, String)>,
) -> Map<Seq<char>, Seq<char>> {
    fill_absent_views(pairs_map(string_data), utf8_entries(data))
}

pub fn decode_secret_data(
    data: Option<&Vec<(String, Vec<u8>)>>,
    string_data: Option<&Vec<(String, String)>>,
) -> (r: Vec<(String, String)>)
    ensures
        unique_keys(r@),
        pairs_map(r@) == text_secret_map(
            match data {
                Some(d) => d@,
                None => Seq::empty(),
            },
            match string_data {
                Some(s) => s@,
                None => Seq::empty(),
            },
        ),
{
    let mut out: Vec<(String, String)> = Vec::new();
    let ghost sd = match string_data {
        Some(s) => s@,
        None => Seq::<(String, String)>::empty(),
    };
    let ghost dd = match data {
        Some(d) => d@,
        None => Seq::<(String, Vec<u8>)>::empty(),
    };
    if let Some(string_data) = string_data {
        let mut i: usize = 0;
        while i < string_data.len()
            invariant
                i <= string_data@.len(),
                sd == string_data@,
                unique_keys(out@),
                pairs_map(out@) == pairs_map(sd.take(i as int)),
            decreases string_data.len() - i,
        {
            let (k, v) = &string_data[i];
            upsert(&mut out, k.clone(), v.clone());
            proof {
                assert(sd.take(i + 1).drop_last() =~= sd.take(i as int));
            }
            i += 1;
        }
        assert(sd.take(string_data@.len() as int) =~= sd);
    }
    assert(pairs_map(out@) == pairs_map(sd));
    if let Some(data) = data {
        let ghost text = pairs_map(out@);
        let mut i: usize = 0;
        while i < data.len()
            invariant
                i <= data@.len(),
                dd == data@,
                unique_keys(out@),
                pairs_map(out@) == fill_absent_views(text, utf8_entries(dd.take(i as int))),
            decreases data.len() - i,
        {
            let (k, v) = &data[i];
            let bytes = vstd::slice::slice_to_vec(v.as_slice());
            proof {
                assert(dd.take(i + 1).drop_last() =~= dd.take(i as int));
                assert(dd.take(i + 1).last() == dd[i as int]);
            }
            let ghost rest = utf8_entries(dd.take(i as int));
            if let Some(s) = string_from_utf8(bytes) {
                insert_absent(&mut out, k.clone(), s);
                proof {
                    let p = (k@, s@);
                    assert(utf8_entries(dd.take(i + 1)) == rest.push(p));
                    assert(rest.push(p).drop_last() =~= rest);
                }
            } else {
                assert(utf8_entries(dd.take(i + 1)) == rest);
            }
            i += 1;
        }
        assert(dd.take(data@.len() as int) =~= dd);
    }
    out
}

} // verus!
