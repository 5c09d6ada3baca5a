use vstd::prelude::*;
use vstd::string::*;
use crate::text::join3;

verus! {

/// The body of a failed reply.
#[derive(Debug)]
pub struct ErrorResponse {
    pub error_message: String,
}

/// Why an operation on custom fields failed, as plain mathematical values.
pub enum ExtensionErrorView {
    Validation(Seq<char>),
    DuplicateField,
    UnknownField(Seq<char>),
    Persistence(Seq<char>),
}

/// Why an operation on custom fields failed.
#[derive(Debug)]
pub enum ExtensionError {
    /// The request is malformed; holds the message for the caller.
    Validation(String),
    /// The object kind already has a field of that name.
    DuplicateField,
    /// No field of that name is defined for the object kind; holds the name.
    UnknownField(String),
    /// A store failed; holds what the store reported.
    Persistence(String),
}

impl View for ExtensionError {
    type V = ExtensionErrorView;

    open spec fn view(&self) -> ExtensionErrorView {
        match self {
            ExtensionError::Validation(message) => ExtensionErrorView::Validation(message@),
            ExtensionError::DuplicateField => ExtensionErrorView::DuplicateField,
            ExtensionError::UnknownField(name) => ExtensionErrorView::UnknownField(name@),
            ExtensionError::Persistence(message) => ExtensionErrorView::Persistence(message@),
        }
    }
}

impl ExtensionErrorView {
    /// The message that a caller is shown for the error.
    pub open spec fn message(self) -> Seq<char> {
        match self {
            ExtensionErrorView::Validation(message) => message,
            ExtensionErrorView::DuplicateField =>
                "Field with that name already exists on the provided object type"@,
            ExtensionErrorView::UnknownField(name) =>
                "Custom field with name '"@ + name + "', does not exist"@,
            ExtensionErrorView::Persistence(message) => message,
        }
    }
}

impl ExtensionError {
    pub fn message(&self) -> (message: String)
        ensures
            message@ == self@.message(),
    {
        match self {
            ExtensionError::Validation(message) => message.clone(),
            ExtensionError::DuplicateField => String::from_str(
                "Field with that name already exists on the provided object type",
            ),
            ExtensionError::UnknownField(name) => join3(
                "Custom field with name '",
                name.as_str(),
                "', does not exist",
            ),
            ExtensionError::Persistence(message) => message.clone(),
        }
    }
}

/// The error of an optional failure, as plain mathematical values.
pub open spec fn outcome_view(outcome: Result<(), ExtensionError>) -> Result<(), ExtensionErrorView> {
    match outcome {
        Ok(()) => Ok(()),
        Err(error) => Err(error@),
    }
}

} // verus!
