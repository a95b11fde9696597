//! The task service's errors and the HTTP status each one is answered with.
use vstd::prelude::*;
use vstd::std_specs::convert::FromSpecImpl;

verus! {

/// Why a task operation failed.
pub enum TaskServiceError {
    /// A task with that id is already stored.
    TaskExist(String),
    /// No stored task matched.
    TaskNotFound(String),
    /// Anything else the database reported.
    OtherError(String),
}

/// What the service reads of a database failure: whether the database itself
/// reported it (and then whether it broke a unique constraint), or whether a
/// query that had to return a row returned none; with the failure's text.
pub enum DbFailure {
    /// The database reported an error.
    Database { unique_violation: bool, message: String },
    /// The query returned no row where one was expected.
    RowNotFound { message: String },
    /// Any other failure (connection, protocol, decoding, ...).
    Other { message: String },
}

/// How a database failure is reported to callers.
pub open spec fn classify(f: DbFailure) -> TaskServiceError {
    match f {
        DbFailure::Database { unique_violation, message } => if unique_violation {
            TaskServiceError::TaskExist(message)
        } else {
            TaskServiceError::OtherError(message)
        },
        DbFailure::RowNotFound { message } => TaskServiceError::TaskNotFound(message),
        DbFailure::Other { message } => TaskServiceError::OtherError(message),
    }
}

impl From<DbFailure> for TaskServiceError {
    fn from(f: DbFailure) -> (r: TaskServiceError)
        ensures
            r == classify(f),
    {
        match f {
            DbFailure::Database { unique_violation, message } => if unique_violation {
                TaskServiceError::TaskExist(message)
            } else {
                TaskServiceError::OtherError(message)
            },
            DbFailure::RowNotFound { message } => TaskServiceError::TaskNotFound(message),
            DbFailure::Other { message } => TaskServiceError::OtherError(message),
        }
    }
}

impl FromSpecImpl<DbFailure> for TaskServiceError {
    open spec fn obeys_from_spec() -> bool {
        true
    }

    open spec fn from_spec(v: DbFailure) -> TaskServiceError {
        classify(v)
    }
}

/// An error of a request to the task service.
pub enum ServerError {
    /// The body could not be read as the expected JSON.
    Deserialize(String),
    /// The body was read but broke a validation rule.
    Validation(String),
    /// The task operation itself failed.
    TaskServiceError(TaskServiceError),
}

impl From<TaskServiceError> for ServerError {
    fn from(e: TaskServiceError) -> (r: ServerError)
        ensures
            r == ServerError::TaskServiceError(e),
    {
        ServerError::TaskServiceError(e)
    }
}

impl FromSpecImpl<TaskServiceError> for ServerError {
    open spec fn obeys_from_spec() -> bool {
        true
    }

    open spec fn from_spec(v: TaskServiceError) -> ServerError {
        ServerError::TaskServiceError(v)
    }
}

/// The HTTP status an error is answered with.
pub open spec fn status_of(e: ServerError) -> u16 {
    match e {
        ServerError::Deserialize(_) => 400,
        ServerError::Validation(_) => 400,
        ServerError::TaskServiceError(t) => match t {
            TaskServiceError::TaskExist(_) => 409,
            TaskServiceError::OtherError(_) => 500,
            TaskServiceError::TaskNotFound(_) => 404,
        },
    }
}

/// A failed task operation is answered `409` when the task already exists,
/// `404` when no task matched, and `500` otherwise.
pub proof fn lemma_failure_status(f: DbFailure)
    ensures
        status_of(ServerError::TaskServiceError(classify(f))) == (match f {
            DbFailure::Database { unique_violation, .. } => if unique_violation {
                409u16
            } else {
                500u16
            },
            DbFailure::RowNotFound { .. } => 404u16,
            DbFailure::Other { .. } => 500u16,
        }),
{
}

/// Only a body that could not be read or that broke a rule is answered
/// `400`; every answer is a client (`4xx`) or server (`5xx`) error.
pub proof fn lemma_client_errors(e: ServerError)
    ensures
        status_of(e) == 400 <==> (e is Deserialize || e is Validation),
        400 <= status_of(e) < 600,
{
}

impl ServerError {
    /// The HTTP status of the response that reports this error.
    pub fn status_code(&self) -> (c: u16)
        ensures
            c == status_of(*self),
    {
        match self {
            ServerError::Deserialize(_) => 400,
            ServerError::Validation(_) => 400,
            ServerError::TaskServiceError(t) => match t {
                TaskServiceError::TaskExist(_) => 409,
                TaskServiceError::OtherError(_) => 500,
                TaskServiceError::TaskNotFound(_) => 404,
            },
        }
    }
}

} // verus!
