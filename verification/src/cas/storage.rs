use vstd::prelude::*;
use crate::cas::error::{CoreError, CoreResult};
use crate::cas::hash::{hex_decode_seq, hex_encode_seq, ContentId};
use crate::text::trim_seq;
use vstd::string::StringSliceAdditionalSpecFns;

verus! {

/// Options for storing an object.
#[derive(Clone, Copy, Debug)]
pub struct PutOptions {
    pub skip_if_exists: bool,
}

impl Default for PutOptions {
    fn default() -> (r: Self)
        ensures
            !r.skip_if_exists,
    {
        PutOptions { skip_if_exists: false }
    }
}

/// The outcome of storing an object.
#[derive(Clone, Debug)]
pub struct StoredObject {
    pub id: ContentId,
    pub size: u64,
    pub deduplicated: bool,
}

/// What storing an object does.
#[derive(Clone, Copy, Debug, PartialEq, Eq)]
pub enum PutAction {
    /// The object is already stored and the caller asked to skip it: report it as
    /// deduplicated at its current size.
    Reuse,
    /// Write the object (to a temporary file, then renamed into place).
    Write,
}

/// An existing object is reused only when the options ask to skip existing ones.
pub fn put_action(opts: PutOptions, already_stored: bool) -> (r: PutAction)
    ensures
        r == if opts.skip_if_exists && already_stored {
            PutAction::Reuse
        } else {
            PutAction::Write
        },
{
    if opts.skip_if_exists && already_stored {
        PutAction::Reuse
    } else {
        PutAction::Write
    }
}

/// `base` joined with `rest` the way `PathBuf::join` does it on Unix: an absolute `rest`
/// replaces `base`; otherwise one `/` separates them unless `base` is empty or already ends
/// with one.
pub open spec fn path_join(base: Seq<char>, rest: Seq<char>) -> Seq<char> {
    if rest.len() > 0 && rest[0] == '/' {
        rest
    } else if base.len() > 0 && base.last() != '/' {
        base + seq!['/'] + rest
    } else {
        base + rest
    }
}

/// Join two paths (Unix `PathBuf::join`).
pub fn join_path(base: &str, rest: &str) -> (r: String)
    ensures
        r@ == path_join(base@, rest@),
{
    let rl = rest.unicode_len();
    if rl > 0 && rest.get_char(0) == '/' {
        return String::from_str(rest);
    }
    let bl = base.unicode_len();
    let mut out = String::from_str(base);
    if bl > 0 && base.get_char(bl - 1) != '/' {
        out.push('/');
    }
    out.push_str(rest);
    out
}

/// What `expand_local_path` makes of `path` given the home directory `home`.
pub open spec fn expanded_local_path(path: Seq<char>, home: Option<Seq<char>>) -> Seq<char> {
    let p = trim_seq(path);
    if p.len() == 0 {
        Seq::empty()
    } else if p == seq!['~'] {
        match home {
            Some(h) => h,
            None => seq!['/'],
        }
    } else if p.len() >= 2 && p[0] == '~' && p[1] == '/' && home is Some {
        path_join(home.unwrap(), p.skip(2))
    } else {
        p
    }
}

/// Expand `~` and `~/...` against `home` (the caller reads `$HOME`, or `$USERPROFILE` where
/// that is unset). The path is trimmed first; an empty path stays empty, a bare `~` without a
/// home becomes `/`, and `~/...` without a home is kept as written.
pub fn expand_local_path(path: &str, home: Option<String>) -> (r: String)
    ensures
        r@ == expanded_local_path(path@, match home {
            Some(h) => Some(h@),
            None => None,
        }),
{
    let p = path.trim();
    let n = p.unicode_len();
    if n == 0 {
        return String::new();
    }
    if n == 1 && p.get_char(0) == '~' {
        assert(p@ =~= seq!['~']);
        proof {
            reveal_strlit("/");
        }
        return match home {
            Some(h) => h,
            None => String::from_str("/"),
        };
    }
    if n >= 2 && p.get_char(0) == '~' && p.get_char(1) == '/' {
        if let Some(h) = home {
            let rest = p.substring_char(2, n);
            assert(rest@ =~= p@.skip(2));
            return join_path(h.as_str(), rest);
        }
    }
    proof {
        if n == 1 {
            assert(p@ != seq!['~']) by {
                if p@ == seq!['~'] {
                    assert(p@[0] == '~');
                }
            }
        } else {
            assert(p@.len() != 1);
        }
    }
    String::from_str(p)
}

/// A content-addressed store under a local directory.
///
/// Layout: `{root}/{id[0..2]}/{id}.blob`, with `id` in lowercase hex.
#[derive(Clone, Debug)]
pub struct LocalBackend {
    root: String,
}

/// Where the blob of the object whose hex id is `hex` lives under `root`.
pub open spec fn object_path_of(root: Seq<char>, hex: Seq<char>) -> Seq<char> {
    path_join(path_join(root, hex.take(2)), hex + ".blob"@)
}

/// The content id a file named `name` holds: its name must be 64 hex digits (either case)
/// followed by `.blob`.
pub open spec fn blob_name_id(name: Seq<char>, name_bytes: Seq<u8>) -> Option<Seq<u8>> {
    if name.len() >= 5 && name.skip(name.len() - 5) == ".blob"@ {
        match hex_decode_seq(name_bytes.take(name_bytes.len() - 5)) {
            Some(b) => if b.len() == 32 {
                Some(b)
            } else {
                None
            },
            None => None,
        }
    } else {
        None
    }
}

impl LocalBackend {
    /// A backend rooted at `root` (already expanded and created by the caller).
    pub fn with_root(root: String) -> (r: Self)
        ensures
            r.root_path() == root@,
    {
        LocalBackend { root }
    }

    pub closed spec fn root_path(self) -> Seq<char> {
        self.root@
    }

    pub fn root(&self) -> (r: &str)
        ensures
            r@ == self.root_path(),
    {
        self.root.as_str()
    }

    /// The blob path of `id`.
    pub fn object_path(&self, id: &ContentId) -> (r: String)
        ensures
            r@ == object_path_of(self.root_path(), hex_encode_seq(id@)),
    {
        let hex = id.to_hex();
        proof {
            crate::cas::hash::lemma_content_id_len(*id);
        }
        let prefix = hex.as_str().substring_char(0, 2);
        assert(prefix@ =~= hex@.take(2));
        let dir = join_path(self.root.as_str(), prefix);
        let file = hex.concat(".blob");
        join_path(dir.as_str(), file.as_str())
    }

    /// Check a path given for a new local repository: it is expanded against `home` and must
    /// not be empty; the caller then creates it and probes that it is writable.
    pub fn probe_target(path: &str, home: Option<String>) -> (r: CoreResult<String>)
        ensures
            ({
                let e = expanded_local_path(path@, match home {
                    Some(h) => Some(h@),
                    None => None,
                });
                match r {
                    Ok(p) => e.len() > 0 && p@ == e,
                    Err(err) => e.len() == 0 && err == CoreError::InvalidArgument(
                        err->InvalidArgument_0,
                    ) && err->InvalidArgument_0@ == "local backend path must not be empty"@,
                }
            }),
    {
        let root = expand_local_path(path, home);
        if root.unicode_len() == 0 {
            return Err(
                CoreError::InvalidArgument(String::from_str("local backend path must not be empty")),
            );
        }
        Ok(root)
    }
}

/// The content id held by a file found while walking the store, or `None` for a file that is
/// not a blob.
pub fn blob_id_from_file_name(name: &str) -> (r: Option<ContentId>)
    ensures
        match r {
            Some(id) => blob_name_id(name@, name.spec_bytes()) == Some(id@),
            None => blob_name_id(name@, name.spec_bytes()) is None,
        },
{
    let n = name.unicode_len();
    if n < 5 {
        return None;
    }
    let suffix = name.substring_char(n - 5, n);
    let expected = ".blob";
    proof {
        reveal_strlit(".blob");
        assert(expected@ =~= seq!['.', 'b', 'l', 'o', 'b']);
    }
    let mut is_blob = true;
    let mut k: usize = 0;
    while k < 5
        invariant
            suffix@.len() == 5,
            expected@ == ".blob"@,
            expected@ == seq!['.', 'b', 'l', 'o', 'b'],
            k <= 5,
            is_blob <==> forall|j: int| 0 <= j < k ==> suffix@[j] == expected@[j],
        decreases 5 - k,
    {
        if suffix.get_char(k) != expected.get_char(k) {
            is_blob = false;
        }
        k += 1;
    }
    assert(is_blob <==> suffix@ =~= ".blob"@);
    assert(suffix@ =~= name@.skip(n - 5));
    if !is_blob {
        return None;
    }
    let stem = name.substring_char(0, n - 5);
    proof {
        assert(name@ =~= stem@ + ".blob"@);
        lemma_spec_bytes_strip_ascii_suffix(name, stem);
    }
    match ContentId::from_hex(stem) {
        Ok(id) => Some(id),
        Err(_) => None,
    }
}

/// The UTF-8 bytes of `s` followed by `.blob` end with the five bytes of `.blob`.
proof fn lemma_spec_bytes_strip_ascii_suffix(name: &str, stem: &str)
    requires
        name@ == stem@ + ".blob"@,
        ".blob"@ == seq!['.', 'b', 'l', 'o', 'b'],
    ensures
        name.spec_bytes().len() >= 5,
        name.spec_bytes().take(name.spec_bytes().len() - 5) == stem.spec_bytes(),
{
    let suffix = ".blob"@;
    crate::text::lemma_encode_utf8_concat(stem@, suffix);
    assert(vstd::utf8::is_ascii_chars(suffix));
    vstd::utf8::is_ascii_chars_encode_utf8(suffix);
    assert(vstd::utf8::encode_utf8(suffix).len() == 5);
    assert(vstd::utf8::encode_utf8(stem@ + suffix).take(
        vstd::utf8::encode_utf8(stem@ + suffix).len() - 5,
    ) =~= vstd::utf8::encode_utf8(stem@));
}

/// Joining a relative path keeps it whole at the end of the result.
proof fn lemma_path_join_suffix(base: Seq<char>, rest: Seq<char>)
    requires
        rest.len() > 0,
        rest[0] != '/',
    ensures
        path_join(base, rest).len() >= rest.len(),
        path_join(base, rest).skip(path_join(base, rest).len() - rest.len()) == rest,
{
    let p = path_join(base, rest);
    if base.len() > 0 && base.last() != '/' {
        assert(p =~= (base + seq!['/']) + rest);
    } else {
        assert(p =~= base + rest);
    }
    assert(p.skip(p.len() - rest.len()) =~= rest);
}

/// Under one root, distinct objects are stored at distinct paths: a path determines the
/// content id stored there.
pub proof fn lemma_object_path_injective(root: Seq<char>, a: ContentId, b: ContentId)
    requires
        object_path_of(root, hex_encode_seq(a@)) == object_path_of(root, hex_encode_seq(b@)),
    ensures
        a == b,
{
    crate::cas::hash::lemma_content_id_len(a);
    crate::cas::hash::lemma_content_id_len(b);
    let ha = hex_encode_seq(a@);
    let hb = hex_encode_seq(b@);
    reveal_strlit(".blob");
    let ra = ha + ".blob"@;
    let rb = hb + ".blob"@;
    crate::cas::hash::lemma_hex_encode_ascii(a@);
    crate::cas::hash::lemma_hex_encode_ascii(b@);
    assert(ra[0] == ha[0]);
    assert(rb[0] == hb[0]);
    assert(ha[0] != '/') by {
        let v = a@[0] / 16;
        assert(0 <= v < 16);
    }
    assert(hb[0] != '/') by {
        let v = b@[0] / 16;
        assert(0 <= v < 16);
    }
    lemma_path_join_suffix(path_join(root, ha.take(2)), ra);
    lemma_path_join_suffix(path_join(root, hb.take(2)), rb);
    assert(ra.len() == rb.len());
    assert(ra == rb);
    assert(ha =~= ra.take(64));
    assert(hb =~= rb.take(64));
    crate::cas::hash::lemma_hex_encode_injective(a@, b@);
    crate::cas::hash::lemma_content_id_view_injective(a, b);
}

/// The file an object is stored in is found again by a listing: the blob name of id `id`
/// (its hex digits and `.blob`) gives `id` back.
pub proof fn lemma_blob_name_round_trip(id: ContentId)
    ensures
        blob_name_id(
            hex_encode_seq(id@) + ".blob"@,
            vstd::utf8::encode_utf8(hex_encode_seq(id@) + ".blob"@),
        ) == Some(id@),
{
    crate::cas::hash::lemma_content_id_len(id);
    let h = hex_encode_seq(id@);
    reveal_strlit(".blob");
    let suffix = ".blob"@;
    assert(suffix =~= seq!['.', 'b', 'l', 'o', 'b']);
    let name = h + suffix;
    assert(name.skip(name.len() - 5) =~= suffix);
    crate::text::lemma_encode_utf8_concat(h, suffix);
    assert(vstd::utf8::is_ascii_chars(suffix));
    vstd::utf8::is_ascii_chars_encode_utf8(suffix);
    let bytes = vstd::utf8::encode_utf8(name);
    assert(bytes.take(bytes.len() - 5) =~= vstd::utf8::encode_utf8(h));
    crate::cas::hash::lemma_hex_round_trip_text(id@);
}

/// Settings of an S3-compatible repository.
#[derive(Clone, Debug)]
pub struct S3Config {
    pub bucket: String,
    pub prefix: Option<String>,
    pub endpoint: Option<String>,
    pub region: Option<String>,
    pub force_path_style: bool,
}

/// An S3-compatible store (its operations are not implemented yet).
#[derive(Clone, Debug)]
pub struct S3Backend {
    config: S3Config,
}

/// The operations of a store.
#[derive(Clone, Copy, Debug, PartialEq, Eq)]
pub enum StoreOperation {
    Put,
    Get,
    Exists,
    Delete,
}

/// The detail of the "not implemented" error an S3 operation gives.
pub open spec fn s3_unsupported_text(op: StoreOperation, id_hex: Seq<char>, bucket: Seq<char>) -> Seq<
    char,
> {
    match op {
        StoreOperation::Put => "put into bucket "@ + bucket,
        StoreOperation::Get => "get "@ + id_hex + " from bucket "@ + bucket,
        StoreOperation::Exists => "exists "@ + id_hex + " in bucket "@ + bucket,
        StoreOperation::Delete => "delete "@ + id_hex + " from bucket "@ + bucket,
    }
}

impl S3Backend {
    pub fn new(config: S3Config) -> (r: Self)
        ensures
            r.config() == config,
    {
        S3Backend { config }
    }

    pub closed spec fn config(self) -> S3Config {
        self.config
    }

    pub fn bucket(&self) -> (r: &str)
        ensures
            r@ == self.config().bucket@,
    {
        self.config.bucket.as_str()
    }

    /// The error every S3 operation currently returns.
    pub fn unsupported(&self, op: StoreOperation, id: &ContentId) -> (r: CoreError)
        ensures
            r == CoreError::S3NotImplemented(r->S3NotImplemented_0),
            r->S3NotImplemented_0@ == s3_unsupported_text(
                op,
                hex_encode_seq(id@),
                self.config().bucket@,
            ),
    {
        let b = self.config.bucket.as_str();
        let msg = match op {
            StoreOperation::Put => String::from_str("put into bucket ").concat(b),
            StoreOperation::Get => {
                let mut m = String::from_str("get ");
                m.push_str(id.to_hex().as_str());
                m.push_str(" from bucket ");
                m.push_str(b);
                m
            },
            StoreOperation::Exists => {
                let mut m = String::from_str("exists ");
                m.push_str(id.to_hex().as_str());
                m.push_str(" in bucket ");
                m.push_str(b);
                m
            },
            StoreOperation::Delete => {
                let mut m = String::from_str("delete ");
                m.push_str(id.to_hex().as_str());
                m.push_str(" from bucket ");
                m.push_str(b);
                m
            },
        };
        CoreError::S3NotImplemented(msg)
    }
}

} // verus!
