//! Errors of the negotiation routes and the HTTP status each one maps to.
use vstd::prelude::*;

verus! {

/// The machine-readable class of an error, as carried in an error body.
#[derive(Clone, Copy, Debug, PartialEq, Eq, Structural)]
pub enum ErrorCode {
    NotFound,
    Conflict,
    BadRequest,
    Unauthorized,
    Forbidden,
    Unavailable,
    VersionMismatch,
    Internal,
}

/// The errors these routes raise, each with its message.
pub enum CoreError {
    BadRequest(String),
    NotFound(String),
    Internal(String),
}

/// View of a [`CoreError`]: its class and the characters of its message.
pub ghost enum ErrorView {
    BadRequest(Seq<char>),
    NotFound(Seq<char>),
    Internal(Seq<char>),
}

impl View for CoreError {
    type V = ErrorView;

    open spec fn view(&self) -> ErrorView {
        match self {
            CoreError::BadRequest(m) => ErrorView::BadRequest(m@),
            CoreError::NotFound(m) => ErrorView::NotFound(m@),
            CoreError::Internal(m) => ErrorView::Internal(m@),
        }
    }
}

/// The class of each kind of error.
pub open spec fn code_of(e: ErrorView) -> ErrorCode {
    match e {
        ErrorView::BadRequest(_) => ErrorCode::BadRequest,
        ErrorView::NotFound(_) => ErrorCode::NotFound,
        ErrorView::Internal(_) => ErrorCode::Internal,
    }
}

/// The message of each kind of error.
pub open spec fn message_of(e: ErrorView) -> Seq<char> {
    match e {
        ErrorView::BadRequest(m) => m,
        ErrorView::NotFound(m) => m,
        ErrorView::Internal(m) => m,
    }
}

/// The HTTP status that answers each class of error.
pub open spec fn status_of(code: ErrorCode) -> u16 {
    match code {
        ErrorCode::NotFound => 404,
        ErrorCode::Conflict => 409,
        ErrorCode::BadRequest => 400,
        ErrorCode::Unauthorized => 401,
        ErrorCode::Forbidden => 403,
        ErrorCode::Unavailable => 503,
        ErrorCode::VersionMismatch => 409,
        ErrorCode::Internal => 500,
    }
}

impl CoreError {
    /// The class of this error.
    pub fn code(&self) -> (c: ErrorCode)
        ensures
            c == code_of(self@),
    {
        match self {
            CoreError::BadRequest(_) => ErrorCode::BadRequest,
            CoreError::NotFound(_) => ErrorCode::NotFound,
            CoreError::Internal(_) => ErrorCode::Internal,
        }
    }

    /// The message of this error.
    pub fn message(&self) -> (m: String)
        ensures
            m@ == message_of(self@),
    {
        match self {
            CoreError::BadRequest(m) => m.clone(),
            CoreError::NotFound(m) => m.clone(),
            CoreError::Internal(m) => m.clone(),
        }
    }
}

/// The HTTP status for an error class.
pub fn http_status(code: ErrorCode) -> (s: u16)
    ensures
        s == status_of(code),
{
    match code {
        ErrorCode::NotFound => 404,
        ErrorCode::Conflict => 409,
        ErrorCode::BadRequest => 400,
        ErrorCode::Unauthorized => 401,
        ErrorCode::Forbidden => 403,
        ErrorCode::Unavailable => 503,
        ErrorCode::VersionMismatch => 409,
        ErrorCode::Internal => 500,
    }
}

/// An error answered by a route.
pub struct ApiError(pub CoreError);

impl View for ApiError {
    type V = ErrorView;

    open spec fn view(&self) -> ErrorView {
        self.0@
    }
}

impl From<CoreError> for ApiError {
    fn from(e: CoreError) -> (r: Self) {
        ApiError(e)
    }
}

impl vstd::std_specs::convert::FromSpecImpl<CoreError> for ApiError {
    open spec fn obeys_from_spec() -> bool {
        true
    }

    open spec fn from_spec(e: CoreError) -> Self {
        ApiError(e)
    }
}

impl ApiError {
    /// 400: the request was malformed or referenced something invalid.
    pub fn bad_request(msg: String) -> (r: Self)
        ensures
            r@ == ErrorView::BadRequest(msg@),
    {
        ApiError(CoreError::BadRequest(msg))
    }

    /// 404: the addressed resource doesn't exist.
    pub fn not_found(msg: String) -> (r: Self)
        ensures
            r@ == ErrorView::NotFound(msg@),
    {
        ApiError(CoreError::NotFound(msg))
    }

    /// 500: an unexpected server-side failure.
    pub fn internal(msg: String) -> (r: Self)
        ensures
            r@ == ErrorView::Internal(msg@),
    {
        ApiError(CoreError::Internal(msg))
    }

    /// The HTTP status that answers this error.
    pub fn status(&self) -> (s: u16)
        ensures
            s == status_of(code_of(self@)),
    {
        http_status(self.0.code())
    }
}

} // verus!
