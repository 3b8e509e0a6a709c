//! The errors a request can end in, and the HTTP answer each one gets.

use crate::models::DbError;
use vstd::prelude::*;

verus! {

/// The messages that one request field drew.
#[derive(Clone, Debug)]
pub struct FieldMessages {
    pub field: String,
    pub messages: Vec<String>,
}

impl View for FieldMessages {
    type V = (Seq<char>, Seq<Seq<char>>);

    open spec fn view(&self) -> (Seq<char>, Seq<Seq<char>>) {
        (self.field@, self.messages@.map_values(|m: String| m@))
    }
}

/// The view of a database failure.
pub struct DbErrorView {
    pub description: Seq<char>,
    pub database_message: Option<Seq<char>>,
    pub unique_violation: bool,
}

impl View for DbError {
    type V = DbErrorView;

    open spec fn view(&self) -> DbErrorView {
        DbErrorView {
            description: self.description@,
            database_message: match self.database_message {
                Some(m) => Some(m@),
                None => None,
            },
            unique_violation: self.unique_violation,
        }
    }
}

/// Every way a request can fail.
#[derive(Clone, Debug)]
pub enum AppError {
    DatabaseError(DbError),
    NotFound(String),
    Conflict(String),
    BadRequest(String),
    Unauthorized(String),
    InternalServerError(String),
    ValidationError(Vec<FieldMessages>),
}

/// The view of an error: each message as its characters.
pub enum AppErrorView {
    DatabaseError(DbErrorView),
    NotFound(Seq<char>),
    Conflict(Seq<char>),
    BadRequest(Seq<char>),
    Unauthorized(Seq<char>),
    InternalServerError(Seq<char>),
    ValidationError(Seq<(Seq<char>, Seq<Seq<char>>)>),
}

impl View for AppError {
    type V = AppErrorView;

    open spec fn view(&self) -> AppErrorView {
        match self {
            AppError::DatabaseError(e) => AppErrorView::DatabaseError(e@),
            AppError::NotFound(m) => AppErrorView::NotFound(m@),
            AppError::Conflict(m) => AppErrorView::Conflict(m@),
            AppError::BadRequest(m) => AppErrorView::BadRequest(m@),
            AppError::Unauthorized(m) => AppErrorView::Unauthorized(m@),
            AppError::InternalServerError(m) => AppErrorView::InternalServerError(m@),
            AppError::ValidationError(fields) => AppErrorView::ValidationError(
                fields@.map_values(|f: FieldMessages| f@),
            ),
        }
    }
}

/// The view of a result whose error is an `AppError`.
pub open spec fn result_view<T>(res: Result<T, AppError>) -> Result<T, AppErrorView> {
    match res {
        Ok(v) => Ok(v),
        Err(e) => Err(e@),
    }
}

/// The body of an error answer: one message, or the messages of each
/// field that failed validation.
#[derive(Clone, Debug)]
pub enum ErrorBody {
    Error(String),
    Errors(Vec<FieldMessages>),
}

/// An error answer: an HTTP status code and a body.
#[derive(Clone, Debug)]
pub struct ErrorResponse {
    pub status: u16,
    pub body: ErrorBody,
}

/// The HTTP status code of each kind of error.
pub open spec fn status_of(e: AppErrorView) -> u16 {
    match e {
        AppErrorView::DatabaseError(_) => 500,
        AppErrorView::NotFound(_) => 404,
        AppErrorView::Conflict(_) => 409,
        AppErrorView::BadRequest(_) => 400,
        AppErrorView::Unauthorized(_) => 401,
        AppErrorView::InternalServerError(_) => 500,
        AppErrorView::ValidationError(_) => 422,
    }
}

pub open spec fn internal_error_text() -> Seq<char> {
    "Internal Server Error"@
}

impl From<DbError> for AppError {
    fn from(inner: DbError) -> (res: AppError) {
        AppError::DatabaseError(inner)
    }
}

impl vstd::std_specs::convert::FromSpecImpl<DbError> for AppError {
    open spec fn obeys_from_spec() -> bool {
        true
    }

    open spec fn from_spec(inner: DbError) -> AppError {
        AppError::DatabaseError(inner)
    }
}

impl AppError {
    /// The answer the error gets. A database failure is answered with a
    /// fixed text that reveals nothing of the failure; a validation failure
    /// with the messages of each field; every other error with its message.
    pub fn into_response(self) -> (res: ErrorResponse)
        ensures
            res.status == status_of(self@),
            self is DatabaseError ==> res.status == 500,
            self is NotFound ==> res.status == 404,
            self is Conflict ==> res.status == 409,
            self is BadRequest ==> res.status == 400,
            self is Unauthorized ==> res.status == 401,
            self is InternalServerError ==> res.status == 500,
            self is ValidationError ==> res.status == 422,
            400 <= res.status < 600,
            match self {
                AppError::DatabaseError(_) => res.body matches ErrorBody::Error(m) && m@
                    == internal_error_text(),
                AppError::ValidationError(fields) => res.body == ErrorBody::Errors(fields),
                AppError::NotFound(m) => res.body == ErrorBody::Error(m),
                AppError::Conflict(m) => res.body == ErrorBody::Error(m),
                AppError::BadRequest(m) => res.body == ErrorBody::Error(m),
                AppError::Unauthorized(m) => res.body == ErrorBody::Error(m),
                AppError::InternalServerError(m) => res.body == ErrorBody::Error(m),
            },
    {
        match self {
            AppError::DatabaseError(_) => ErrorResponse {
                status: 500,
                body: ErrorBody::Error("Internal Server Error".to_owned()),
            },
            AppError::NotFound(msg) => ErrorResponse { status: 404, body: ErrorBody::Error(msg) },
            AppError::Conflict(msg) => ErrorResponse { status: 409, body: ErrorBody::Error(msg) },
            AppError::BadRequest(msg) => ErrorResponse { status: 400, body: ErrorBody::Error(msg) },
            AppError::Unauthorized(msg) => ErrorResponse { status: 401, body: ErrorBody::Error(msg) },
            AppError::InternalServerError(msg) => ErrorResponse {
                status: 500,
                body: ErrorBody::Error(msg),
            },
            AppError::ValidationError(fields) => ErrorResponse {
                status: 422,
                body: ErrorBody::Errors(fields),
            },
        }
    }
}

} // verus!
