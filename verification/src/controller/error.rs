use vstd::prelude::*;
use crate::cas::error::{core_error_text, CoreError};

verus! {

/// Failures of a reconcile.
#[derive(Debug, Clone, PartialEq, Eq)]
pub enum ControllerError {
    Kubernetes(String),
    InvalidSpec(String),
    Storage(CoreError),
}

pub type ControllerResult<T> = Result<T, ControllerError>;

/// The human-readable text of a controller error.
pub open spec fn controller_error_text(e: ControllerError) -> Seq<char> {
    match e {
        ControllerError::Kubernetes(s) => "kubernetes error: "@ + s@,
        ControllerError::InvalidSpec(s) => "invalid resource spec: "@ + s@,
        ControllerError::Storage(c) => "storage error: "@ + core_error_text(c),
    }
}

impl ControllerError {
    pub fn message(&self) -> (r: String)
        ensures
            r@ == controller_error_text(*self),
    {
        match self {
            ControllerError::Kubernetes(s) => String::from_str("kubernetes error: ").concat(
                s.as_str(),
            ),
            ControllerError::InvalidSpec(s) => String::from_str("invalid resource spec: ").concat(
                s.as_str(),
            ),
            ControllerError::Storage(c) => String::from_str("storage error: ").concat(
                c.message().as_str(),
            ),
        }
    }
}

} // verus!
