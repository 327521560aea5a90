//! Typed rejections of the admission stages.

use vstd::prelude::*;

verus! {

/// The five kinds of rejection.
#[derive(Clone, Copy, Debug, PartialEq, Eq, Structural)]
pub enum ErrorKind {
    MissingHeader,
    InvalidHeader,
    InvalidBody,
    AuthError,
    InternalError,
}

/// A rejection: its kind, a message for the client and the endpoint that was
/// asked for.
#[derive(Clone, Debug)]
pub enum ServiceError {
    /// A required header is absent; `header` is its name.
    MissingHeader { header: String, endpoint: String },
    /// A header is present but malformed.
    InvalidHeader { message: String, endpoint: String },
    /// The body is malformed, too large or asks for what the node lacks.
    InvalidBody { message: String, endpoint: String },
    /// The caller is not authorized.
    AuthError { auth_error: String, endpoint: String },
    /// The node could not complete the request.
    InternalError { message: String, endpoint: String },
}

/// The transport status of each kind: 400 for the three malformed-input
/// kinds, 401 for an authorization failure, 500 for an internal one.
pub open spec fn status_of(kind: ErrorKind) -> int {
    match kind {
        ErrorKind::MissingHeader => 400,
        ErrorKind::InvalidHeader => 400,
        ErrorKind::InvalidBody => 400,
        ErrorKind::AuthError => 401,
        ErrorKind::InternalError => 500,
    }
}

impl ServiceError {
    /// The kind of this rejection.
    pub open spec fn kind(&self) -> ErrorKind {
        match self {
            ServiceError::MissingHeader { .. } => ErrorKind::MissingHeader,
            ServiceError::InvalidHeader { .. } => ErrorKind::InvalidHeader,
            ServiceError::InvalidBody { .. } => ErrorKind::InvalidBody,
            ServiceError::AuthError { .. } => ErrorKind::AuthError,
            ServiceError::InternalError { .. } => ErrorKind::InternalError,
        }
    }

    /// The endpoint that the rejected request asked for.
    pub open spec fn endpoint(&self) -> Seq<char> {
        match self {
            ServiceError::MissingHeader { endpoint, .. } => endpoint@,
            ServiceError::InvalidHeader { endpoint, .. } => endpoint@,
            ServiceError::InvalidBody { endpoint, .. } => endpoint@,
            ServiceError::AuthError { endpoint, .. } => endpoint@,
            ServiceError::InternalError { endpoint, .. } => endpoint@,
        }
    }

    /// The text of this rejection: the name of the missing header, or the
    /// message.
    pub open spec fn detail(&self) -> Seq<char> {
        match self {
            ServiceError::MissingHeader { header, .. } => header@,
            ServiceError::InvalidHeader { message, .. } => message@,
            ServiceError::InvalidBody { message, .. } => message@,
            ServiceError::AuthError { auth_error, .. } => auth_error@,
            ServiceError::InternalError { message, .. } => message@,
        }
    }

    /// This rejection has the given kind, text and endpoint.
    pub open spec fn is(&self, kind: ErrorKind, detail: Seq<char>, endpoint: Seq<char>) -> bool {
        &&& self.kind() == kind
        &&& self.detail() == detail
        &&& self.endpoint() == endpoint
    }

    /// A rejection of the given kind.
    pub fn new(kind: ErrorKind, detail: &str, endpoint: &str) -> (e: Self)
        ensures
            e.is(kind, detail@, endpoint@),
    {
        let detail = detail.to_owned();
        let endpoint = endpoint.to_owned();
        match kind {
            ErrorKind::MissingHeader => ServiceError::MissingHeader { header: detail, endpoint },
            ErrorKind::InvalidHeader => ServiceError::InvalidHeader { message: detail, endpoint },
            ErrorKind::InvalidBody => ServiceError::InvalidBody { message: detail, endpoint },
            ErrorKind::AuthError => ServiceError::AuthError { auth_error: detail, endpoint },
            ErrorKind::InternalError => ServiceError::InternalError { message: detail, endpoint },
        }
    }

    /// The kind of this rejection.
    pub fn error_kind(&self) -> (k: ErrorKind)
        ensures
            k == self.kind(),
    {
        match self {
            ServiceError::MissingHeader { .. } => ErrorKind::MissingHeader,
            ServiceError::InvalidHeader { .. } => ErrorKind::InvalidHeader,
            ServiceError::InvalidBody { .. } => ErrorKind::InvalidBody,
            ServiceError::AuthError { .. } => ErrorKind::AuthError,
            ServiceError::InternalError { .. } => ErrorKind::InternalError,
        }
    }

    /// The endpoint that the rejected request asked for.
    pub fn endpoint_path(&self) -> (p: &str)
        ensures
            p@ == self.endpoint(),
    {
        match self {
            ServiceError::MissingHeader { endpoint, .. } => endpoint.as_str(),
            ServiceError::InvalidHeader { endpoint, .. } => endpoint.as_str(),
            ServiceError::InvalidBody { endpoint, .. } => endpoint.as_str(),
            ServiceError::AuthError { endpoint, .. } => endpoint.as_str(),
            ServiceError::InternalError { endpoint, .. } => endpoint.as_str(),
        }
    }

    /// The text of this rejection.
    pub fn message(&self) -> (m: &str)
        ensures
            m@ == self.detail(),
    {
        match self {
            ServiceError::MissingHeader { header, .. } => header.as_str(),
            ServiceError::InvalidHeader { message, .. } => message.as_str(),
            ServiceError::InvalidBody { message, .. } => message.as_str(),
            ServiceError::AuthError { auth_error, .. } => auth_error.as_str(),
            ServiceError::InternalError { message, .. } => message.as_str(),
        }
    }

    /// The status that the transport answers with.
    pub fn status_code(&self) -> (code: u16)
        ensures
            code == status_of(self.kind()),
    {
        match self {
            ServiceError::MissingHeader { .. } => 400,
            ServiceError::InvalidHeader { .. } => 400,
            ServiceError::InvalidBody { .. } => 400,
            ServiceError::AuthError { .. } => 401,
            ServiceError::InternalError { .. } => 500,
        }
    }
}

} // verus!
