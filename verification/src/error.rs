//! The failures of a lowering pass.

use crate::syntax::SourcePosition;
use crate::text::{decimal, decimal_text};
use vstd::prelude::*;
use vstd::string::*;

verus! {

/// Why a pass stopped.
#[derive(Debug, PartialEq, Eq)]
pub enum Error {
    /// The source could not be read as a declaration tree, or an attribute in it
    /// could not be read: the parser's message and the place it points at.
    ParseError(String, SourcePosition),
    /// A construct that is deliberately not lowered.
    UnsupportedError(String, SourcePosition),
    /// A named type that is not registered.
    UnknownType(String, SourcePosition),
}

/// An [`Error`] with its message as characters.
pub enum ErrorView {
    ParseError(Seq<char>, SourcePosition),
    UnsupportedError(Seq<char>, SourcePosition),
    UnknownType(Seq<char>, SourcePosition),
}

impl View for Error {
    type V = ErrorView;

    open spec fn view(&self) -> ErrorView {
        match *self {
            Error::ParseError(m, p) => ErrorView::ParseError(m@, p),
            Error::UnsupportedError(m, p) => ErrorView::UnsupportedError(m@, p),
            Error::UnknownType(m, p) => ErrorView::UnknownType(m@, p),
        }
    }
}

/// The text shown for an error: the message, followed for an unsupported
/// construct or an unknown type by the line and column it was found at.
pub open spec fn error_text(e: ErrorView) -> Seq<char> {
    match e {
        ErrorView::ParseError(m, _) => m,
        ErrorView::UnsupportedError(m, p) => m + ". At line "@ + decimal(p.line as nat)
            + ", position "@ + decimal(p.column as nat),
        ErrorView::UnknownType(m, p) => m + ". At At line "@ + decimal(p.line as nat)
            + ", position "@ + decimal(p.column as nat),
    }
}

/// Whether an executable result stands for the given result over views.
pub open spec fn agrees<T: View>(r: Result<T, Error>, model: Result<T::V, ErrorView>) -> bool {
    match r {
        Ok(v) => model == Ok::<T::V, ErrorView>(v@),
        Err(e) => model == Err::<T::V, ErrorView>(e@),
    }
}

/// Whether a result without a value stands for the given outcome.
pub open spec fn fails_as(r: Result<(), Error>, error: Option<ErrorView>) -> bool {
    match r {
        Ok(_) => error is None,
        Err(e) => error == Some(e@),
    }
}

impl Error {
    /// The text shown for this error.
    pub fn message(&self) -> (r: String)
        ensures
            r@ == error_text(self@),
    {
        match self {
            Error::ParseError(m, _) => m.clone(),
            Error::UnsupportedError(m, p) => {
                let mut r = m.clone();
                r.append(". At line ");
                r.append(decimal_text(p.line).as_str());
                r.append(", position ");
                r.append(decimal_text(p.column).as_str());
                r
            },
            Error::UnknownType(m, p) => {
                let mut r = m.clone();
                r.append(". At At line ");
                r.append(decimal_text(p.line).as_str());
                r.append(", position ");
                r.append(decimal_text(p.column).as_str());
                r
            },
        }
    }
}

} // verus!
