use vstd::prelude::*;

verus! {

/// Failures of the HTTP API.
#[derive(Debug, Clone, PartialEq, Eq)]
pub enum ApiError {
    /// The listener could not bind `addr`; `source` describes the I/O error.
    Bind { addr: String, source: String },
    Serve { source: String },
    BadRequest(String),
    NotReady,
    Kubernetes(String),
    Internal(String),
}

pub type ApiResult<T> = Result<T, ApiError>;

/// The human-readable text of an API error.
pub open spec fn api_error_text(e: ApiError) -> Seq<char> {
    match e {
        ApiError::Bind { addr, source } => "failed to bind API listener on "@ + addr@ + ": "@
            + source@,
        ApiError::Serve { source } => "API server error: "@ + source@,
        ApiError::BadRequest(s) => "bad request: "@ + s@,
        ApiError::NotReady => "not ready"@,
        ApiError::Kubernetes(s) => "kubernetes error: "@ + s@,
        ApiError::Internal(s) => "internal error: "@ + s@,
    }
}

/// The HTTP status an API error is answered with.
pub open spec fn api_error_status(e: ApiError) -> u16 {
    match e {
        ApiError::BadRequest(_) => 400,
        ApiError::NotReady => 503,
        ApiError::Kubernetes(_) => 502,
        _ => 500,
    }
}

impl ApiError {
    /// The error's human-readable message.
    pub fn message(&self) -> (r: String)
        ensures
            r@ == api_error_text(*self),
    {
        match self {
            ApiError::Bind { addr, source } => {
                let mut r = String::from_str("failed to bind API listener on ");
                r.push_str(addr.as_str());
                r.push_str(": ");
                r.push_str(source.as_str());
                r
            },
            ApiError::Serve { source } => String::from_str("API server error: ").concat(
                source.as_str(),
            ),
            ApiError::BadRequest(s) => String::from_str("bad request: ").concat(s.as_str()),
            ApiError::NotReady => String::from_str("not ready"),
            ApiError::Kubernetes(s) => String::from_str("kubernetes error: ").concat(s.as_str()),
            ApiError::Internal(s) => String::from_str("internal error: ").concat(s.as_str()),
        }
    }

    /// The HTTP status code of the error response: 400 for a bad request, 503 when not ready,
    /// 502 for a Kubernetes failure, 500 otherwise.
    pub fn status_code(&self) -> (r: u16)
        ensures
            r == api_error_status(*self),
    {
        match self {
            ApiError::BadRequest(_) => 400,
            ApiError::NotReady => 503,
            ApiError::Kubernetes(_) => 502,
            _ => 500,
        }
    }
}

} // verus!
