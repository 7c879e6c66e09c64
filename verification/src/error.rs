use vstd::prelude::*;
use vstd::string::StringExecFns;

verus! {

/// The kinds of failure that operations of this library report.
#[derive(Clone, Copy, Debug, PartialEq, Eq, Structural)]
pub enum AppError {
    /// A transient transport failure; the operation may be retried.
    NetworkError,
    /// The grant or the access token was invalid, revoked or expired.
    AuthError,
    /// The redirect carried a state token other than the session's own.
    StateMismatch,
    /// A flow or a request exceeded its deadline.
    Timeout,
    /// No account carries the given id.
    NotFound,
    /// The remote service denied quota access permanently.
    Forbidden,
    /// The backing store failed or holds inconsistent records.
    StorageError,
}

impl AppError {
    /// The human-readable description of each kind.
    pub open spec fn message_spec(self) -> Seq<char> {
        match self {
            AppError::NetworkError => "network error"@,
            AppError::AuthError => "authentication failed"@,
            AppError::StateMismatch => "state token mismatch"@,
            AppError::Timeout => "timed out"@,
            AppError::NotFound => "account not found"@,
            AppError::Forbidden => "access forbidden"@,
            AppError::StorageError => "storage failure"@,
        }
    }

    pub fn message(&self) -> (text: String)
        ensures
            text@ == self.message_spec(),
    {
        match self {
            AppError::NetworkError => String::from_str("network error"),
            AppError::AuthError => String::from_str("authentication failed"),
            AppError::StateMismatch => String::from_str("state token mismatch"),
            AppError::Timeout => String::from_str("timed out"),
            AppError::NotFound => String::from_str("account not found"),
            AppError::Forbidden => String::from_str("access forbidden"),
            AppError::StorageError => String::from_str("storage failure"),
        }
    }
}

} // verus!
