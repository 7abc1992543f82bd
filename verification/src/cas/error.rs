use vstd::prelude::*;

verus! {

/// Failures of the content-addressed storage layer.
#[derive(Debug, Clone, PartialEq, Eq)]
pub enum CoreError {
    /// A local filesystem operation failed at `path`; `source` describes the I/O error.
    LocalIo { path: String, source: String },
    NotFound(String),
    Crypto(String),
    InvalidKey(String),
    S3NotImplemented(String),
    S3(String),
    InvalidArgument(String),
}

pub type CoreResult<T> = Result<T, CoreError>;

/// The human-readable text of an error.
pub open spec fn core_error_text(e: CoreError) -> Seq<char> {
    match e {
        CoreError::LocalIo { path, source } => "local storage I/O error at "@ + path@ + ": "@
            + source@,
        CoreError::NotFound(s) => "object not found: "@ + s@,
        CoreError::Crypto(s) => "cryptographic operation failed: "@ + s@,
        CoreError::InvalidKey(s) => "invalid encryption key: "@ + s@,
        CoreError::S3NotImplemented(s) => "S3 backend not implemented: "@ + s@,
        CoreError::S3(s) => "S3 error: "@ + s@,
        CoreError::InvalidArgument(s) => "invalid argument: "@ + s@,
    }
}

impl CoreError {
    /// The error's human-readable message.
    pub fn message(&self) -> (r: String)
        ensures
            r@ == core_error_text(*self),
    {
        match self {
            CoreError::LocalIo { path, source } => {
                let mut r = String::from_str("local storage I/O error at ");
                r.push_str(path.as_str());
                r.push_str(": ");
                r.push_str(source.as_str());
                r
            },
            CoreError::NotFound(s) => String::from_str("object not found: ").concat(s.as_str()),
            CoreError::Crypto(s) => String::from_str("cryptographic operation failed: ").concat(
                s.as_str(),
            ),
            CoreError::InvalidKey(s) => String::from_str("invalid encryption key: ").concat(
                s.as_str(),
            ),
            CoreError::S3NotImplemented(s) => String::from_str(
                "S3 backend not implemented: ",
            ).concat(s.as_str()),
            CoreError::S3(s) => String::from_str("S3 error: ").concat(s.as_str()),
            CoreError::InvalidArgument(s) => String::from_str("invalid argument: ").concat(
                s.as_str(),
            ),
        }
    }
}

} // verus!
