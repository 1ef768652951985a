use vstd::prelude::*;

verus! {

/// The HTTP status of a missing resource.
pub const NOT_FOUND: u16 = 404;

/// What can go wrong when the client talks to the server, the database or the
/// file system. Errors of other libraries arrive here as their message text.
pub enum JellyfinError {
    /// The HTTP request itself failed.
    HttpRequest(String),
    /// A response body was not the expected JSON.
    JsonParse(String),
    /// The server answered with an unsuccessful status.
    ApiError { status: u16, message: String },
    /// The database connection pool failed.
    DbPoolError(String),
    /// A database query failed.
    DbError(String),
    /// Anything else, described by a message.
    GenericError(String),
}

/// The contents of a [`JellyfinError`].
pub enum ErrorView {
    HttpRequest(Seq<char>),
    JsonParse(Seq<char>),
    ApiError { status: u16, message: Seq<char> },
    DbPoolError(Seq<char>),
    DbError(Seq<char>),
    GenericError(Seq<char>),
}

impl View for JellyfinError {
    type V = ErrorView;

    open spec fn view(&self) -> ErrorView {
        match self {
            JellyfinError::HttpRequest(m) => ErrorView::HttpRequest(m@),
            JellyfinError::JsonParse(m) => ErrorView::JsonParse(m@),
            JellyfinError::ApiError { status, message } => ErrorView::ApiError {
                status: *status,
                message: message@,
            },
            JellyfinError::DbPoolError(m) => ErrorView::DbPoolError(m@),
            JellyfinError::DbError(m) => ErrorView::DbError(m@),
            JellyfinError::GenericError(m) => ErrorView::GenericError(m@),
        }
    }
}

/// The error of a missing resource, with the server's wording of it.
pub open spec fn not_found(message: Seq<char>) -> ErrorView {
    ErrorView::ApiError { status: NOT_FOUND, message }
}

} // verus!
