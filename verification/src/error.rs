//! The failures that the library reports, and how they are rendered as text.

use vstd::prelude::*;

verus! {

/// A failure reported by this library.
///
/// Each variant is a tag that may carry diagnostics. Diagnostics are plain
/// strings; a variant whose strings are all empty carries none, and is then
/// rendered by a fixed message that depends on the tag alone.
#[derive(Debug, PartialEq, Eq)]
pub enum Error {
    /// An argument handed to a function was invalid.
    InvalidArg {
        /// The name of the invalid argument.
        arg: String,
        /// Why the argument is invalid.
        reason: String,
    },
    /// Two or more optional arguments handed to a function conflict.
    ConflictArg {
        /// Which arguments conflict, and how.
        reason: String,
    },
    /// The convolution backend reported a failure.
    Conv {
        /// The backend's own description of the failure.
        reason: String,
    },
}

/// The mathematical content of an [`Error`]: its tag and its diagnostics as
/// sequences of characters.
pub enum ErrorView {
    InvalidArg { arg: Seq<char>, reason: Seq<char> },
    ConflictArg { reason: Seq<char> },
    Conv { reason: Seq<char> },
}

impl View for Error {
    type V = ErrorView;

    open spec fn view(&self) -> ErrorView {
        match *self {
            Error::InvalidArg { arg, reason } => ErrorView::InvalidArg { arg: arg@, reason: reason@ },
            Error::ConflictArg { reason } => ErrorView::ConflictArg { reason: reason@ },
            Error::Conv { reason } => ErrorView::Conv { reason: reason@ },
        }
    }
}

impl ErrorView {
    /// Whether the error carries any diagnostics besides its tag.
    pub open spec fn has_diagnostics(self) -> bool {
        match self {
            ErrorView::InvalidArg { arg, reason } => arg.len() > 0 || reason.len() > 0,
            ErrorView::ConflictArg { reason } => reason.len() > 0,
            ErrorView::Conv { reason } => reason.len() > 0,
        }
    }

    /// The text that stands for the error when it carries no diagnostics.
    pub open spec fn generic_message(self) -> Seq<char> {
        match self {
            ErrorView::InvalidArg { .. } =>
                "There were invalid arguments. Reasons not shown without `alloc` feature."@,
            ErrorView::ConflictArg { .. } =>
                "There were conflicting arguments. Reasons not shown without `alloc` feature."@,
            ErrorView::Conv { .. } =>
                "An error occurred during the convolution from ndarray_conv. Reasons not shown without `alloc` feature."@,
        }
    }

    /// The text that spells out the diagnostics of the error.
    pub open spec fn detailed_message(self) -> Seq<char> {
        match self {
            ErrorView::InvalidArg { arg, reason } =>
                "Invalid Argument on arg = "@ + arg + " with reason = "@ + reason,
            ErrorView::ConflictArg { reason } =>
                "Conflicting Arguments with reason = "@ + reason,
            ErrorView::Conv { reason } =>
                "An error occurred during the convolution from ndarray_conv with reason "@ + reason + "."@,
        }
    }

    /// The rendering of the error: detailed where it carries diagnostics,
    /// generic where it does not.
    pub open spec fn message(self) -> Seq<char> {
        if self.has_diagnostics() {
            self.detailed_message()
        } else {
            self.generic_message()
        }
    }
}

impl Error {
    /// An `InvalidArg` error about the argument `arg`, with `reason` as its
    /// explanation.
    pub fn invalid_arg(arg: &str, reason: &str) -> (e: Error)
        ensures
            e@ == (ErrorView::InvalidArg { arg: arg@, reason: reason@ }),
    {
        Error::InvalidArg { arg: String::from_str(arg), reason: String::from_str(reason) }
    }

    /// Renders the error as text.
    pub fn to_string(&self) -> (text: String)
        ensures
            text@ == self@.message(),
    {
        match self {
            Error::InvalidArg { arg, reason } => {
                if arg.as_str().is_empty() && reason.as_str().is_empty() {
                    String::from_str(
                        "There were invalid arguments. Reasons not shown without `alloc` feature.",
                    )
                } else {
                    let mut text = String::from_str("Invalid Argument on arg = ");
                    text.append(arg.as_str());
                    text.append(" with reason = ");
                    text.append(reason.as_str());
                    text
                }
            },
            Error::ConflictArg { reason } => {
                if reason.as_str().is_empty() {
                    String::from_str(
                        "There were conflicting arguments. Reasons not shown without `alloc` feature.",
                    )
                } else {
                    let mut text = String::from_str("Conflicting Arguments with reason = ");
                    text.append(reason.as_str());
                    text
                }
            },
            Error::Conv { reason } => {
                if reason.as_str().is_empty() {
                    String::from_str(
                        "An error occurred during the convolution from ndarray_conv. Reasons not shown without `alloc` feature.",
                    )
                } else {
                    let mut text = String::from_str(
                        "An error occurred during the convolution from ndarray_conv with reason ",
                    );
                    text.append(reason.as_str());
                    text.append(".");
                    text
                }
            },
        }
    }
}

} // verus!
