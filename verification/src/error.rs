use vstd::prelude::*;

use crate::problem::{ProblemDetails, ProblemView, BAD_REQUEST, INTERNAL_SERVER_ERROR};

verus! {

/// The kind of a failure that the database reported.
#[derive(Debug, Clone, Copy, PartialEq, Eq, Structural)]
pub enum DatabaseErrorKind {
    UniqueViolation,
    ForeignKeyViolation,
    UnableToSendCommand,
    SerializationFailure,
    ReadOnlyTransaction,
    NotNullViolation,
    CheckViolation,
    ClosedConnection,
    Unknown,
}

/// What the database said about a failure: its primary message and, where it
/// gave them, its details.
#[derive(Debug)]
pub struct DatabaseErrorInformation {
    pub message: String,
    pub details: Option<String>,
}

/// A failed query.
#[derive(Debug)]
pub enum QueryError {
    /// The database refused the statement.
    DatabaseError(DatabaseErrorKind, DatabaseErrorInformation),
    /// No row matched.
    NotFound,
    RollbackTransaction,
    AlreadyInTransaction,
    NotInTransaction,
    BrokenTransactionManager,
    /// Any other failure of the query layer, by its text.
    Other(String),
}

/// A failure to reach the database. Where a variant wraps another failure, it
/// holds that failure's text.
#[derive(Debug)]
pub enum ConnectionError {
    InvalidCString(String),
    BadConnection(String),
    InvalidConnectionUrl(String),
    CouldntSetupConfiguration(String),
}

impl ConnectionError {
    /// The text of the failure: the text that each variant holds.
    pub open spec fn spec_message(self) -> Seq<char> {
        match self {
            ConnectionError::InvalidCString(s) => s@,
            ConnectionError::BadConnection(s) => s@,
            ConnectionError::InvalidConnectionUrl(s) => s@,
            ConnectionError::CouldntSetupConfiguration(s) => s@,
        }
    }

    /// The text of the failure.
    pub fn message(&self) -> (m: String)
        ensures
            m@ == self.spec_message(),
    {
        match self {
            ConnectionError::InvalidCString(s) => s.clone(),
            ConnectionError::BadConnection(s) => s.clone(),
            ConnectionError::InvalidConnectionUrl(s) => s.clone(),
            ConnectionError::CouldntSetupConfiguration(s) => s.clone(),
        }
    }
}

/// A failure of a request handler.
#[derive(Debug)]
pub enum PostdamnError {
    DatabaseError(QueryError),
    ConnectionError(ConnectionError),
}

/// The title of the problem documents of the failures that are reported with
/// their cause.
pub const ERROR_TITLE: &'static str = "One or more errors occurred.";

/// The title of the problem document of every other failure.
pub const INTERNAL_ERROR_TITLE: &'static str = "Internal server error.";

/// Whether the database refused a statement because of a constraint that the
/// client's data broke.
pub open spec fn is_constraint_violation(kind: DatabaseErrorKind) -> bool {
    kind == DatabaseErrorKind::UniqueViolation || kind == DatabaseErrorKind::ForeignKeyViolation
}

/// The detail that the database gave, or its message where it gave none.
pub open spec fn violation_detail(info: DatabaseErrorInformation) -> Seq<char> {
    match info.details {
        Some(d) => d@,
        None => info.message@,
    }
}

/// The problem document that answers a failure: a constraint violation is the
/// client's error (400) and carries what the database said; a failed connection
/// is the server's (500) and carries its text; anything else is the server's
/// and carries nothing but a generic title.
pub open spec fn error_response(e: PostdamnError) -> ProblemView {
    match e {
        PostdamnError::DatabaseError(QueryError::DatabaseError(kind, info)) if is_constraint_violation(kind) =>
            ProblemView { status: BAD_REQUEST, title: Some(ERROR_TITLE@), detail: Some(violation_detail(info)) },
        PostdamnError::ConnectionError(c) =>
            ProblemView { status: INTERNAL_SERVER_ERROR, title: Some(ERROR_TITLE@), detail: Some(c.spec_message()) },
        _ => ProblemView { status: INTERNAL_SERVER_ERROR, title: Some(INTERNAL_ERROR_TITLE@), detail: None },
    }
}

impl PostdamnError {
    /// A failure to reach the database.
    pub fn from_connection_error(e: ConnectionError) -> (r: Self)
        ensures
            r == PostdamnError::ConnectionError(e),
    {
        PostdamnError::ConnectionError(e)
    }

    /// A failed query.
    pub fn from_query_error(e: QueryError) -> (r: Self)
        ensures
            r == PostdamnError::DatabaseError(e),
    {
        PostdamnError::DatabaseError(e)
    }

    /// A failure to take a connection from the pool, given by its text: it is
    /// reported as a bad connection with that text.
    pub fn from_pool_error(text: String) -> (r: Self)
        ensures
            r == PostdamnError::ConnectionError(ConnectionError::BadConnection(text)),
    {
        Self::from_connection_error(ConnectionError::BadConnection(text))
    }

    /// The problem document that answers this failure.
    pub fn into_response(self) -> (p: ProblemDetails)
        ensures
            p@ == error_response(self),
            self matches PostdamnError::DatabaseError(QueryError::DatabaseError(kind, info)) ==> (
                (kind == DatabaseErrorKind::UniqueViolation || kind == DatabaseErrorKind::ForeignKeyViolation)
                ==> p.status == 400 && p@.detail == Some(
                    if info.details is Some { info.details->0@ } else { info.message@ },
                )),
    {
        match self {
            PostdamnError::DatabaseError(QueryError::DatabaseError(kind, info)) => {
                if kind == DatabaseErrorKind::UniqueViolation || kind == DatabaseErrorKind::ForeignKeyViolation {
                    let detail = match info.details {
                        Some(d) => d,
                        None => info.message,
                    };
                    ProblemDetails::new(BAD_REQUEST).with_title(ERROR_TITLE).with_detail(detail.as_str())
                } else {
                    ProblemDetails::new(INTERNAL_SERVER_ERROR).with_title(INTERNAL_ERROR_TITLE)
                }
            },
            PostdamnError::ConnectionError(error) => {
                let text = error.message();
                ProblemDetails::new(INTERNAL_SERVER_ERROR).with_title(ERROR_TITLE).with_detail(text.as_str())
            },
            _ => ProblemDetails::new(INTERNAL_SERVER_ERROR).with_title(INTERNAL_ERROR_TITLE),
        }
    }
}

/// Every failure is answered with a title, and as the client's error (400)
/// exactly where the database refused the data for breaking a uniqueness or
/// foreign-key constraint; such an answer always carries what the database
/// said.
pub proof fn lemma_response_status(e: PostdamnError)
    ensures
        error_response(e).title is Some,
        error_response(e).status == BAD_REQUEST || error_response(e).status == INTERNAL_SERVER_ERROR,
        error_response(e).status == BAD_REQUEST <==> (e matches PostdamnError::DatabaseError(
            QueryError::DatabaseError(kind, _),
        ) && is_constraint_violation(kind)),
        error_response(e).status == BAD_REQUEST ==> error_response(e).detail is Some,
{
}

/// A failure to take a connection from the pool is answered as the server's
/// error, with the text of the failure as the detail.
pub proof fn lemma_pool_failure_response(text: String)
    ensures
        error_response(PostdamnError::ConnectionError(ConnectionError::BadConnection(text))) == (ProblemView {
            status: INTERNAL_SERVER_ERROR,
            title: Some(ERROR_TITLE@),
            detail: Some(text@),
        }),
{
}

/// A failed query that is no constraint violation is answered with the generic
/// title and no detail: its cause is not shown to the client.
pub proof fn lemma_other_query_failures_are_hidden(e: QueryError)
    requires
        !(e matches QueryError::DatabaseError(kind, _) && is_constraint_violation(kind)),
    ensures
        error_response(PostdamnError::DatabaseError(e)) == (ProblemView {
            status: INTERNAL_SERVER_ERROR,
            title: Some(INTERNAL_ERROR_TITLE@),
            detail: None,
        }),
{
}

/// Any refusal by the database other than a uniqueness or foreign-key
/// violation is answered with 500, the generic title and no detail.
pub proof fn lemma_other_database_errors_are_server_errors(kind: DatabaseErrorKind, info: DatabaseErrorInformation)
    requires
        kind != DatabaseErrorKind::UniqueViolation,
        kind != DatabaseErrorKind::ForeignKeyViolation,
    ensures
        error_response(PostdamnError::DatabaseError(QueryError::DatabaseError(kind, info))) == (ProblemView {
            status: 500,
            title: Some("Internal server error."@),
            detail: None,
        }),
{
}

/// A failure to reach the database is answered with 500, the common title,
/// and the text that the failure holds, whatever its variant.
pub proof fn lemma_connection_failures_show_text(s: String)
    ensures
        error_response(PostdamnError::ConnectionError(ConnectionError::InvalidCString(s))).detail == Some(s@),
        error_response(PostdamnError::ConnectionError(ConnectionError::BadConnection(s))).detail == Some(s@),
        error_response(PostdamnError::ConnectionError(ConnectionError::InvalidConnectionUrl(s))).detail == Some(s@),
        error_response(PostdamnError::ConnectionError(ConnectionError::CouldntSetupConfiguration(s))).detail == Some(s@),
        error_response(PostdamnError::ConnectionError(ConnectionError::BadConnection(s))).status == 500,
        error_response(PostdamnError::ConnectionError(ConnectionError::BadConnection(s))).title == Some("One or more errors occurred."@),
{
}

/// A uniqueness or foreign-key violation is answered with 400, the common
/// title, and as detail the details that the database gave, or its message
/// only where it gave no details; the kind of violation makes no difference.
pub proof fn lemma_violation_shows_details_or_message(
    kind: DatabaseErrorKind,
    message: String,
    details: Option<String>,
)
    requires
        kind == DatabaseErrorKind::UniqueViolation || kind == DatabaseErrorKind::ForeignKeyViolation,
    ensures
        details matches Some(d) ==> error_response(PostdamnError::DatabaseError(
            QueryError::DatabaseError(kind, DatabaseErrorInformation { message, details }),
        )) == (ProblemView { status: 400, title: Some(ERROR_TITLE@), detail: Some(d@) }),
        details is None ==> error_response(PostdamnError::DatabaseError(
            QueryError::DatabaseError(kind, DatabaseErrorInformation { message, details }),
        )) == (ProblemView { status: 400, title: Some(ERROR_TITLE@), detail: Some(message@) }),
{
}

} // verus!
