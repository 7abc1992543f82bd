use vstd::prelude::*;
use crate::api::error::{ApiError, ApiResult};
use crate::text::trim_seq;
use crate::crd::repository::RepositoryBackend;

verus! {

pub const DEFAULT_REPO_NAMESPACE: &'static str = "proteus-system";

/// A present value with something left after trimming, trimmed; `None` otherwise.
pub open spec fn trimmed_opt(value: Option<Seq<char>>) -> Option<Seq<char>> {
    match value {
        Some(v) => if trim_seq(v).len() > 0 {
            Some(trim_seq(v))
        } else {
            None
        },
        None => None,
    }
}

pub open spec fn opt_str_view(v: Option<&str>) -> Option<Seq<char>> {
    match v {
        Some(s) => Some(s@),
        None => None,
    }
}

pub open spec fn opt_string_view(v: Option<String>) -> Option<Seq<char>> {
    match v {
        Some(s) => Some(s@),
        None => None,
    }
}

/// The message of the error for a missing required field.
pub open spec fn required_text(field: Seq<char>) -> Seq<char> {
    field + " is required"@
}

/// `r` is the bad-request error with message `text`.
pub open spec fn is_bad_request(r: ApiError, text: Seq<char>) -> bool {
    r matches ApiError::BadRequest(m) && m@ == text
}

/// The trimmed value, `None` when it is absent or blank.
pub fn optional_trimmed(value: Option<&str>) -> (r: Option<String>)
    ensures
        opt_string_view(r) == trimmed_opt(opt_str_view(value)),
{
    match value {
        Some(v) => {
            let t = v.trim();
            if t.unicode_len() > 0 {
                Some(String::from_str(t))
            } else {
                None
            }
        },
        None => None,
    }
}

/// The trimmed value of a required field; a bad request `"{field} is required"` when it is
/// absent or blank.
pub fn require_non_empty(field: &str, value: Option<&str>) -> (r: ApiResult<String>)
    ensures
        match trimmed_opt(opt_str_view(value)) {
            Some(v) => r matches Ok(s) && s@ == v,
            None => r matches Err(e) && is_bad_request(e, required_text(field@)),
        },
{
    match optional_trimmed(value) {
        Some(v) => Ok(v),
        None => Err(ApiError::BadRequest(String::from_str(field).concat(" is required"))),
    }
}

/// The namespace a request asks for, or `proteus-system` when it asks for none.
pub open spec fn resolved_namespace(requested: Option<Seq<char>>) -> Seq<char> {
    match trimmed_opt(requested) {
        Some(ns) => ns,
        None => "proteus-system"@,
    }
}

/// The requested namespace (trimmed), defaulting to `proteus-system`.
pub fn resolve_namespace(requested: Option<&str>) -> (r: ApiResult<String>)
    ensures
        r matches Ok(ns) && ns@ == resolved_namespace(opt_str_view(requested)),
{
    match optional_trimmed(requested) {
        Some(ns) => Ok(ns),
        None => Ok(String::from_str(DEFAULT_REPO_NAMESPACE)),
    }
}

pub fn opt_as_str(o: &Option<String>) -> (r: Option<&str>)
    ensures
        opt_str_view(r) == opt_string_view(*o),
{
    match o {
        Some(s) => Some(s.as_str()),
        None => None,
    }
}

pub fn clone_opt_string(o: &Option<String>) -> (r: Option<String>)
    ensures
        r == *o,
{
    match o {
        Some(s) => Some(s.clone()),
        None => None,
    }
}

/// The changes a repository patch makes to the spec: `description` is `Some(None)` to clear
/// it, `Some(Some(text))` to set it; absent fields stay as they are.
#[derive(Clone, Debug)]
pub struct RepositorySpecPatch {
    pub description: Option<Option<String>>,
    pub encryption_enabled: Option<bool>,
    pub backend: Option<RepositoryBackend>,
}

/// The message of the error for a patch that changes nothing.
pub open spec fn empty_patch_text() -> Seq<char> {
    "at least one of description, encryptionEnabled, or backend is required"@
}

/// What a patch does to the description: clears it for a blank value, sets it trimmed
/// otherwise.
pub open spec fn description_patch(d: Option<Seq<char>>) -> Option<Option<Seq<char>>> {
    match d {
        None => None,
        Some(t) => Some(trimmed_opt(Some(t))),
    }
}

pub open spec fn description_patch_view(d: Option<Option<String>>) -> Option<Option<Seq<char>>> {
    match d {
        None => None,
        Some(x) => Some(opt_string_view(x)),
    }
}

pub fn patch_description(d: &Option<String>) -> (r: Option<Option<String>>)
    ensures
        description_patch_view(r) == description_patch(opt_string_view(*d)),
{
    match d {
        None => None,
        Some(t) => Some(optional_trimmed(Some(t.as_str()))),
    }
}

} // verus!
