use vstd::prelude::*;

verus! {

/// An error reported by the relational store that keeps the account and the
/// audit log, carried as its message.
#[derive(Debug)]
pub struct DBError {
    error_message: String,
}

impl DBError {
    pub fn new(error_message: String) -> (r: DBError)
        ensures
            r.message_view() == error_message@,
    {
        DBError { error_message }
    }

    /// The characters of the message.
    pub closed spec fn message_view(&self) -> Seq<char> {
        self.error_message@
    }

    /// The message this error was made with.
    pub fn message(&self) -> (r: &str)
        ensures
            r@ == self.message_view(),
    {
        self.error_message.as_str()
    }
}

/// The failures of the account session and of the object operations.
#[derive(Debug, PartialEq, Eq)]
pub enum ClientError {
    /// No account is stored.
    NotLoggedIn,
    /// An account is already stored.
    AlreadyLoggedIn,
    /// The bucket could not be reached with the credentials given at log-in.
    InvalidCredentials,
    /// The local file to upload does not exist, or a path or key names no file.
    PathNotFound,
    /// The local directory to download into does not exist.
    DirectoryNotFound,
    /// The object store refused or failed a call; carries its message.
    RemoteOperationFailed(String),
    /// The object operation took effect but its audit event could not be
    /// written; carries the store's message.
    AuditWriteFailed(String),
}

/// Turns the store's refusal of an audit event into the error that says the
/// object operation itself already took effect.
pub fn audit_failure(e: DBError) -> (r: ClientError)
    ensures
        r is AuditWriteFailed,
        r->AuditWriteFailed_0@ == e.message_view(),
{
    ClientError::AuditWriteFailed(e.error_message)
}

} // verus!
