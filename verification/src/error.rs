//! What can go wrong, and how it is reported.

use vstd::prelude::*;

verus! {

/// The disk operation that failed.
#[derive(Clone, Copy, Debug, PartialEq, Eq, Structural)]
pub enum Action {
    /// Creating the data directory.
    CreateDir,
    /// Writing the document.
    WriteFile,
    /// Reading the document.
    ReadFile,
}

/// Why a save or a load did not succeed.
#[derive(Debug, PartialEq, Eq)]
pub enum StoreError {
    /// The working directory could not be determined.
    Environment { cause: String },
    /// No candidate directory exists or has a parent that exists.
    Resolution,
    /// The disk refused an operation on `path`; `cause` is the system's text.
    Io { action: Action, path: String, cause: String },
}

/// A `StoreError` in contracts: the same three kinds, with text as
/// sequences of characters.
pub enum Failure {
    Environment { cause: Seq<char> },
    Resolution,
    Io { action: Action, path: Seq<char>, cause: Seq<char> },
}

impl View for StoreError {
    type V = Failure;

    open spec fn view(&self) -> Failure {
        match self {
            StoreError::Environment { cause } => Failure::Environment { cause: cause@ },
            StoreError::Resolution => Failure::Resolution,
            StoreError::Io { action, path, cause } => Failure::Io {
                action: *action,
                path: path@,
                cause: cause@,
            },
        }
    }
}

/// How `std::path::Path` prints a path, given as text, with `{:?}`: in
/// double quotes, with the characters that need it escaped.
pub uninterp spec fn quoted(path: Seq<char>) -> Seq<char>;

/// The `Debug` form of `std::path::Path`, through `format!`.
///
/// Claims only that the result is the one `quoted` names.
#[verifier::external_body]
fn quote(path: &str) -> (text: String)
    ensures
        text@ == quoted(path@),
{
    format!("{:?}", std::path::Path::new(path))
}

/// The words that introduce a failed disk operation.
pub open spec fn action_words(action: Action) -> Seq<char> {
    match action {
        Action::CreateDir => "Failed to create directory "@,
        Action::WriteFile => "Failed to write file at "@,
        Action::ReadFile => "Failed to read file at "@,
    }
}

impl Failure {
    /// The text shown to the caller.
    pub open spec fn message(self) -> Seq<char> {
        match self {
            Failure::Environment { cause } => "Failed to get current directory: "@ + cause,
            Failure::Resolution => "Could not determine data directory location"@,
            Failure::Io { action, path, cause } => action_words(action) + quoted(path) + ": "@
                + cause,
        }
    }
}

impl StoreError {
    /// The text shown to the caller: what failed, on which path, and the
    /// system's own words for it.
    pub fn message(&self) -> (text: String)
        ensures
            text@ == self@.message(),
    {
        match self {
            StoreError::Environment { cause } => {
                String::from_str("Failed to get current directory: ").concat(cause.as_str())
            },
            StoreError::Resolution => String::from_str(
                "Could not determine data directory location",
            ),
            StoreError::Io { action, path, cause } => {
                let words = match action {
                    Action::CreateDir => String::from_str("Failed to create directory "),
                    Action::WriteFile => String::from_str("Failed to write file at "),
                    Action::ReadFile => String::from_str("Failed to read file at "),
                };
                words.concat(quote(path.as_str()).as_str()).concat(": ").concat(cause.as_str())
            },
        }
    }
}

/// The view of an outcome without a payload.
pub open spec fn outcome_view(outcome: Result<(), StoreError>) -> Result<(), Failure> {
    match outcome {
        Ok(_) => Ok(()),
        Err(e) => Err(e@),
    }
}

/// The view of an outcome that carries a document.
pub open spec fn document_view(outcome: Result<String, StoreError>) -> Result<Seq<char>, Failure> {
    match outcome {
        Ok(text) => Ok(text@),
        Err(e) => Err(e@),
    }
}

/// The view of what the system answered to a request that yields nothing.
pub open spec fn reply_view(reply: Result<(), String>) -> Result<(), Seq<char>> {
    match reply {
        Ok(_) => Ok(()),
        Err(cause) => Err(cause@),
    }
}

/// The view of what the system answered to a request for text.
pub open spec fn text_view(reply: Result<String, String>) -> Result<Seq<char>, Seq<char>> {
    match reply {
        Ok(text) => Ok(text@),
        Err(cause) => Err(cause@),
    }
}

} // verus!
