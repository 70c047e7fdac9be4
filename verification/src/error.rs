//! The library's errors.
use vstd::prelude::*;

verus! {

/// Errors reported by the library.
#[derive(Debug)]
pub enum Error {
    /// An error carrying a human-readable description.
    Placeholder(String),
    /// An engine error code for which the engine has no description.
    Unknown { errno: i32 },
}

/// What an [`Error`] says, with its description as a sequence of characters.
pub enum ErrorView {
    Placeholder(Seq<char>),
    Unknown { errno: i32 },
}

impl View for Error {
    type V = ErrorView;

    open spec fn view(&self) -> ErrorView {
        match self {
            Error::Placeholder(m) => ErrorView::Placeholder(m@),
            Error::Unknown { errno } => ErrorView::Unknown { errno: *errno },
        }
    }
}

/// The library's result type.
pub type Result<T> = core::result::Result<T, Error>;

/// The error for engine return code `errno`, given the engine's description of that
/// code (`None` where the engine has none).
pub open spec fn engine_error(errno: i32, description: Option<Seq<char>>) -> ErrorView {
    match description {
        Some(d) => ErrorView::Placeholder(d),
        None => ErrorView::Unknown { errno },
    }
}

/// The view of an optional description.
pub open spec fn description_view(description: Option<String>) -> Option<Seq<char>> {
    match description {
        Some(d) => Some(d@),
        None => None,
    }
}

impl Error {
    /// The error for engine return code `errno`, given the engine's description of that
    /// code (`None` where the engine has none).
    pub fn from_wt(errno: i32, description: Option<String>) -> (e: Error)
        ensures
            e@ == engine_error(errno, description_view(description)),
            match description {
                Some(d) => e@ == ErrorView::Placeholder(d@),
                None => e@ == (ErrorView::Unknown { errno }),
            },
    {
        match description {
            Some(d) => Error::Placeholder(d),
            None => Error::Unknown { errno },
        }
    }
}

} // verus!
