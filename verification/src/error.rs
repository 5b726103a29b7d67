//! The errors of a resolution, as plain data.

use vstd::prelude::*;
use crate::shape::Shape;

verus! {

/// What was found where something else was asked for.
///
/// Integers are widened to 64 bits; floating point numbers are held by their
/// IEEE 754 bit patterns, each in its own width.
#[derive(Debug, PartialEq, Eq)]
pub enum Unexpected {
    Bool(bool),
    Unsigned(u64),
    Signed(i64),
    Float32(u32),
    Float64(u64),
    Char(char),
    Str(String),
    Bytes(Vec<u8>),
}

/// The model of an [`Unexpected`].
pub enum UnexpectedView {
    Bool(bool),
    Unsigned(u64),
    Signed(i64),
    Float32(u32),
    Float64(u64),
    Char(char),
    Str(Seq<char>),
    Bytes(Seq<u8>),
}

impl View for Unexpected {
    type V = UnexpectedView;

    open spec fn view(&self) -> UnexpectedView {
        match self {
            Unexpected::Bool(v) => UnexpectedView::Bool(*v),
            Unexpected::Unsigned(v) => UnexpectedView::Unsigned(*v),
            Unexpected::Signed(v) => UnexpectedView::Signed(*v),
            Unexpected::Float32(v) => UnexpectedView::Float32(*v),
            Unexpected::Float64(v) => UnexpectedView::Float64(*v),
            Unexpected::Char(v) => UnexpectedView::Char(*v),
            Unexpected::Str(v) => UnexpectedView::Str(v@),
            Unexpected::Bytes(v) => UnexpectedView::Bytes(v@),
        }
    }
}

/// Why a leaf could not be resolved.
#[derive(Debug, PartialEq, Eq)]
pub enum Error {
    /// The source could not produce a value; the message says why.
    Custom(String),
    /// The leaf has another shape than the one requested.
    InvalidType { unexpected: Unexpected, requested: Shape },
    /// The value has the right shape but cannot be used; `expected` completes
    /// the sentence "expected ...".
    InvalidValue { unexpected: Unexpected, expected: String },
}

/// The model of an [`Error`].
pub enum ErrorView {
    Custom(Seq<char>),
    InvalidType { unexpected: UnexpectedView, requested: Shape },
    InvalidValue { unexpected: UnexpectedView, expected: Seq<char> },
}

impl View for Error {
    type V = ErrorView;

    open spec fn view(&self) -> ErrorView {
        match self {
            Error::Custom(message) => ErrorView::Custom(message@),
            Error::InvalidType { unexpected, requested } => ErrorView::InvalidType {
                unexpected: unexpected@,
                requested: *requested,
            },
            Error::InvalidValue { unexpected, expected } => ErrorView::InvalidValue {
                unexpected: unexpected@,
                expected: expected@,
            },
        }
    }
}

/// A result with its error seen through its view.
pub open spec fn seen<V>(r: Result<V, Error>) -> Result<V, ErrorView> {
    match r {
        Ok(v) => Ok(v),
        Err(e) => Err(e@),
    }
}

} // verus!
