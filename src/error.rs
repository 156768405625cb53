use vstd::prelude::*;

verus! {

/// The externally visible error kinds. `Internal` and `Database` carry the
/// underlying cause for the server's log; it is never shown to the caller.
#[derive(Debug, Clone)]
pub enum AppError {
    NotFound(String),
    Validation(String),
    Unauthorized,
    Forbidden,
    Conflict(String),
    Internal(String),
    Database(String),
}

/// HTTP status that each kind maps to.
pub open spec fn status_of(e: AppError) -> u16 {
    match e {
        AppError::NotFound(_) => 404,
        AppError::Validation(_) => 400,
        AppError::Unauthorized => 401,
        AppError::Forbidden => 403,
        AppError::Conflict(_) => 409,
        AppError::Internal(_) => 500,
        AppError::Database(_) => 500,
    }
}

/// The message the caller sees: the carried text for the kinds that carry a
/// message, fixed text otherwise.
pub open spec fn message_of(e: AppError) -> Seq<char> {
    match e {
        AppError::NotFound(m) => m@,
        AppError::Validation(m) => m@,
        AppError::Unauthorized => "unauthorized"@,
        AppError::Forbidden => "forbidden"@,
        AppError::Conflict(m) => m@,
        AppError::Internal(_) => "internal error"@,
        AppError::Database(_) => "internal error"@,
    }
}

/// `e` is `NotFound` naming the resource `what`.
pub open spec fn is_not_found(e: AppError, what: Seq<char>) -> bool {
    e matches AppError::NotFound(m) && m@ == what
}

/// `e` is `Conflict` with the message `what`.
pub open spec fn is_conflict(e: AppError, what: Seq<char>) -> bool {
    e matches AppError::Conflict(m) && m@ == what
}

/// The result of the service and its handlers.
pub type Result<T> = std::result::Result<T, AppError>;

/// Status and message of an error response; the body is
/// `{"error": {"message": message, "code": status}}`.
#[derive(Debug, Clone, PartialEq, Eq)]
pub struct ErrorReply {
    pub status: u16,
    pub message: String,
}

impl AppError {
    pub fn not_found(resource: &str) -> (r: Self)
        ensures
            is_not_found(r, resource@),
    {
        AppError::NotFound(resource.to_owned())
    }

    pub fn validation(msg: &str) -> (r: Self)
        ensures
            r matches AppError::Validation(m) && m@ == msg@,
    {
        AppError::Validation(msg.to_owned())
    }

    pub fn conflict(msg: &str) -> (r: Self)
        ensures
            is_conflict(r, msg@),
    {
        AppError::Conflict(msg.to_owned())
    }

    pub fn status(&self) -> (r: u16)
        ensures
            r == status_of(*self),
    {
        match self {
            AppError::NotFound(_) => 404,
            AppError::Validation(_) => 400,
            AppError::Unauthorized => 401,
            AppError::Forbidden => 403,
            AppError::Conflict(_) => 409,
            AppError::Internal(_) => 500,
            AppError::Database(_) => 500,
        }
    }

    /// Maps the error to its response: the status of its kind and the message
    /// the caller may see. The cause of `Internal` and `Database` is withheld.
    pub fn into_response(self) -> (r: ErrorReply)
        ensures
            r.status == status_of(self),
            r.message@ == message_of(self),
    {
        let status = self.status();
        let message = match self {
            AppError::NotFound(m) => m,
            AppError::Validation(m) => m,
            AppError::Unauthorized => "unauthorized".to_owned(),
            AppError::Forbidden => "forbidden".to_owned(),
            AppError::Conflict(m) => m,
            AppError::Internal(_) => "internal error".to_owned(),
            AppError::Database(_) => "internal error".to_owned(),
        };
        ErrorReply { status, message }
    }
}

/// Turns an absent value into `NotFound` for the named resource.
pub trait OptionExt<T>: Sized {
    spec fn found(&self) -> Option<T>;

    fn or_not_found(self, resource: &str) -> (r: Result<T>)
        ensures
            match self.found() {
                Some(v) => r == Ok::<T, AppError>(v),
                None => r matches Err(e) && is_not_found(e, resource@),
            },
    ;
}

impl<T> OptionExt<T> for Option<T> {
    open spec fn found(&self) -> Option<T> {
        *self
    }

    fn or_not_found(self, resource: &str) -> (r: Result<T>) {
        match self {
            Some(v) => Ok(v),
            None => Err(AppError::not_found(resource)),
        }
    }
}

} // verus!
