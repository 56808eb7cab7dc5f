//! The errors of reading Darwin documents and of processing NROD messages.

use vstd::prelude::*;

verus! {

/// The result of a computation, taken by its views.
pub open spec fn view_result<T: View, E: View>(r: Result<T, E>) -> Result<T::V, E::V> {
    match r {
        Ok(t) => Ok(t@),
        Err(e) => Err(e@),
    }
}

/// Why a Darwin document could not be read.
#[derive(Debug)]
pub enum DarwinError {
    /// A value was none of the accepted forms: what was accepted, and the
    /// value found.
    Expected(&'static str, String),
    /// A value that should be `true` or `false`.
    InvalidBool(String),
    /// A value that should be an unsigned number.
    InvalidInt(String),
    /// A value that should be a time (`HH:MM:SS` or `HH:MM`).
    InvalidTime(String),
    /// A value that should be a date (`YYYY-MM-DD`).
    InvalidDate(String),
    /// A required field was not given.
    Missing(&'static str),
}

/// A `DarwinError` with its texts taken as character sequences.
pub enum DarwinErrorView {
    Expected(Seq<char>, Seq<char>),
    InvalidBool(Seq<char>),
    InvalidInt(Seq<char>),
    InvalidTime(Seq<char>),
    InvalidDate(Seq<char>),
    Missing(Seq<char>),
}

impl View for DarwinError {
    type V = DarwinErrorView;

    open spec fn view(&self) -> DarwinErrorView {
        match self {
            DarwinError::Expected(a, b) => DarwinErrorView::Expected(a@, b@),
            DarwinError::InvalidBool(v) => DarwinErrorView::InvalidBool(v@),
            DarwinError::InvalidInt(v) => DarwinErrorView::InvalidInt(v@),
            DarwinError::InvalidTime(v) => DarwinErrorView::InvalidTime(v@),
            DarwinError::InvalidDate(v) => DarwinErrorView::InvalidDate(v@),
            DarwinError::Missing(f) => DarwinErrorView::Missing(f@),
        }
    }
}

} // verus!
