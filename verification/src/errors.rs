use vstd::prelude::*;

verus! {

/// The JSON error body shape: serialized as `{"msg": <msg>}`.
pub struct TodoError {
    pub msg: String,
}

/// Abstract value of an [`AppError`]: the kind and its message text.
pub enum ErrorView {
    BadRequest(Seq<char>),
    Unauthorized(Seq<char>),
    NotFound(Seq<char>),
    InternalError(Seq<char>),
}

/// Closed taxonomy of request-handling failures, each carrying a
/// human-readable message.
pub enum AppError {
    BadRequest(String),
    Unauthorized(String),
    NotFound(String),
    InternalError(String),
}

impl View for AppError {
    type V = ErrorView;

    open spec fn view(&self) -> ErrorView {
        match self {
            AppError::BadRequest(m) => ErrorView::BadRequest(m@),
            AppError::Unauthorized(m) => ErrorView::Unauthorized(m@),
            AppError::NotFound(m) => ErrorView::NotFound(m@),
            AppError::InternalError(m) => ErrorView::InternalError(m@),
        }
    }
}

/// The HTTP status code each error kind maps to.
pub open spec fn status_of(e: ErrorView) -> int {
    match e {
        ErrorView::BadRequest(_) => 400,
        ErrorView::Unauthorized(_) => 401,
        ErrorView::NotFound(_) => 404,
        ErrorView::InternalError(_) => 500,
    }
}

/// The message text an error carries, kept verbatim in the response body.
pub open spec fn msg_of(e: ErrorView) -> Seq<char> {
    match e {
        ErrorView::BadRequest(m) => m,
        ErrorView::Unauthorized(m) => m,
        ErrorView::NotFound(m) => m,
        ErrorView::InternalError(m) => m,
    }
}

impl AppError {
    /// The whole error-to-HTTP mapping in one place: the status code and the
    /// JSON error body `{"msg": <msg>}` for this error.
    pub fn into_response(self) -> (r: (u16, TodoError))
        ensures
            r.0 as int == status_of(self@),
            r.1.msg@ == msg_of(self@),
    {
        match self {
            AppError::BadRequest(msg) => (400, TodoError { msg }),
            AppError::Unauthorized(msg) => (401, TodoError { msg }),
            AppError::NotFound(msg) => (404, TodoError { msg }),
            AppError::InternalError(msg) => (500, TodoError { msg }),
        }
    }
}

} // verus!
