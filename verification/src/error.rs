//! The single error currency of the identity subsystem.

use vstd::prelude::*;

verus! {

/// Everything that can go wrong between a request and its answer.
///
/// The first three kinds are expected outcomes that a caller branches on;
/// the last two carry a detail string meant for server-side logs only.
#[derive(Debug)]
pub enum ApplicationError {
    UserAlreadyExists,
    UserDoesNotExist,
    IncorrectPassword,
    DatabaseError(String),
    ApplicationError(String),
}

/// Mathematical value of an [`ApplicationError`]: the kind, with the detail
/// as a sequence of characters.
pub enum ApplicationErrorView {
    UserAlreadyExists,
    UserDoesNotExist,
    IncorrectPassword,
    DatabaseError(Seq<char>),
    ApplicationError(Seq<char>),
}

impl View for ApplicationError {
    type V = ApplicationErrorView;

    open spec fn view(&self) -> ApplicationErrorView {
        match *self {
            ApplicationError::UserAlreadyExists => ApplicationErrorView::UserAlreadyExists,
            ApplicationError::UserDoesNotExist => ApplicationErrorView::UserDoesNotExist,
            ApplicationError::IncorrectPassword => ApplicationErrorView::IncorrectPassword,
            ApplicationError::DatabaseError(detail) => ApplicationErrorView::DatabaseError(detail@),
            ApplicationError::ApplicationError(detail) => ApplicationErrorView::ApplicationError(
                detail@,
            ),
        }
    }
}

impl ApplicationErrorView {
    /// The text that describes this error to an operator.
    pub open spec fn message(self) -> Seq<char> {
        match self {
            ApplicationErrorView::UserAlreadyExists => "user already exists"@,
            ApplicationErrorView::UserDoesNotExist => "user does not exist"@,
            ApplicationErrorView::IncorrectPassword => "the provider password is incorrect"@,
            ApplicationErrorView::DatabaseError(detail) => "error interacting with database "@
                + detail,
            ApplicationErrorView::ApplicationError(detail) => "unexpected application error "@
                + detail,
        }
    }
}

impl ApplicationError {
    /// A catch-all error with the given detail.
    pub fn application(detail: &str) -> (e: ApplicationError)
        ensures
            e@ == ApplicationErrorView::ApplicationError(detail@),
    {
        ApplicationError::ApplicationError(String::from_str(detail))
    }

    /// A storage failure with the given detail.
    pub fn database(detail: &str) -> (e: ApplicationError)
        ensures
            e@ == ApplicationErrorView::DatabaseError(detail@),
    {
        ApplicationError::DatabaseError(String::from_str(detail))
    }

    /// The text that describes this error to an operator: a fixed phrase for
    /// each kind, followed by the detail where the kind carries one.
    pub fn message(&self) -> (text: String)
        ensures
            text@ == self@.message(),
    {
        match self {
            ApplicationError::UserAlreadyExists => String::from_str("user already exists"),
            ApplicationError::UserDoesNotExist => String::from_str("user does not exist"),
            ApplicationError::IncorrectPassword => String::from_str(
                "the provider password is incorrect",
            ),
            ApplicationError::DatabaseError(detail) => String::from_str(
                "error interacting with database ",
            ).concat(detail.as_str()),
            ApplicationError::ApplicationError(detail) => String::from_str(
                "unexpected application error ",
            ).concat(detail.as_str()),
        }
    }
}

impl Clone for ApplicationError {
    fn clone(&self) -> (copy: ApplicationError)
        ensures
            copy == *self,
    {
        match self {
            ApplicationError::UserAlreadyExists => ApplicationError::UserAlreadyExists,
            ApplicationError::UserDoesNotExist => ApplicationError::UserDoesNotExist,
            ApplicationError::IncorrectPassword => ApplicationError::IncorrectPassword,
            ApplicationError::DatabaseError(detail) => ApplicationError::DatabaseError(
                detail.clone(),
            ),
            ApplicationError::ApplicationError(detail) => ApplicationError::ApplicationError(
                detail.clone(),
            ),
        }
    }
}

} // verus!
