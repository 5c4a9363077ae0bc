//! The operator's errors.
use vstd::prelude::*;

verus! {

/// Why an operation of the operator failed.
#[derive(Debug, Clone, PartialEq, Eq)]
pub enum OperatorError {
    /// The cluster that a resource refers to could not be read.
    ClusterNotFound { message: String },
    /// Something the operator relies on inside Kubernetes went wrong.
    InternalServerError { message: String },
    /// The FerrisKey API did not let the operator log in.
    AuthError { message: String },
    /// The FerrisKey API did not carry out a step of a realm import.
    RealmImportError { message: String },
    /// The resource asks for something that cannot be done.
    InvalidSpec { message: String },
    /// A repository could not apply a resource.
    ApplyApiError { message: String },
}

/// What an [`OperatorError`] says.
pub enum ErrorView {
    ClusterNotFound(Seq<char>),
    InternalServerError(Seq<char>),
    AuthError(Seq<char>),
    RealmImportError(Seq<char>),
    InvalidSpec(Seq<char>),
    ApplyApiError(Seq<char>),
}

impl View for OperatorError {
    type V = ErrorView;

    open spec fn view(&self) -> ErrorView {
        match self {
            OperatorError::ClusterNotFound { message } => ErrorView::ClusterNotFound(message@),
            OperatorError::InternalServerError { message } => ErrorView::InternalServerError(
                message@,
            ),
            OperatorError::AuthError { message } => ErrorView::AuthError(message@),
            OperatorError::RealmImportError { message } => ErrorView::RealmImportError(message@),
            OperatorError::InvalidSpec { message } => ErrorView::InvalidSpec(message@),
            OperatorError::ApplyApiError { message } => ErrorView::ApplyApiError(message@),
        }
    }
}

impl OperatorError {
    /// The error's message.
    pub open spec fn message(&self) -> Seq<char> {
        match self {
            OperatorError::ClusterNotFound { message } => message@,
            OperatorError::InternalServerError { message } => message@,
            OperatorError::AuthError { message } => message@,
            OperatorError::RealmImportError { message } => message@,
            OperatorError::InvalidSpec { message } => message@,
            OperatorError::ApplyApiError { message } => message@,
        }
    }
}

/// What a result of an operation that yields nothing says.
pub open spec fn unit_result(result: Result<(), OperatorError>) -> Result<(), ErrorView> {
    match result {
        Ok(_) => Ok(()),
        Err(e) => Err(e@),
    }
}

/// What a result of an operation that yields a text says.
pub open spec fn text_result(result: Result<String, OperatorError>) -> Result<
    Seq<char>,
    ErrorView,
> {
    match result {
        Ok(text) => Ok(text@),
        Err(e) => Err(e@),
    }
}

} // verus!
