//! Sources: what resolves a placeholder to a value.

use std::borrow::Cow;
use vstd::prelude::*;
use vstd::slice::slice_to_vec;
use crate::error::{Error, Unexpected};
use crate::leaf::{Held, Leaf};
use crate::visit::Visit;

pub mod file;
pub mod string;
pub mod utils;

pub use self::file::FileSource;
pub use self::string::{MapSource, StringLookup, StringSource};

verus! {

/// A source expands the text of a leaf into a value of the shape requested.
///
/// Which texts hold a variable, and where its value comes from, is the
/// source's own business, and no method promises an outcome. One rule is asked
/// of `expand_str`, `expand_bytes` and `expand_any`: given data that holds no
/// variable, they hand it back as it came, borrowed if it was borrowed.
/// [`crate::laws`] states what the proxy owes to an application under that rule.
///
/// Floating point numbers are returned by their IEEE 754 bit patterns.
pub trait Source {
    /// Expands a variable to a boolean.
    fn expand_bool(&mut self, v: &str) -> Result<bool, Error>;

    fn expand_i8(&mut self, v: &str) -> Result<i8, Error>;

    fn expand_i16(&mut self, v: &str) -> Result<i16, Error>;

    fn expand_i32(&mut self, v: &str) -> Result<i32, Error>;

    fn expand_i64(&mut self, v: &str) -> Result<i64, Error>;

    fn expand_u8(&mut self, v: &str) -> Result<u8, Error>;

    fn expand_u16(&mut self, v: &str) -> Result<u16, Error>;

    fn expand_u32(&mut self, v: &str) -> Result<u32, Error>;

    fn expand_u64(&mut self, v: &str) -> Result<u64, Error>;

    /// Expands a variable to the bit pattern of a single precision number.
    fn expand_f32(&mut self, v: &str) -> Result<u32, Error>;

    /// Expands a variable to the bit pattern of a double precision number.
    fn expand_f64(&mut self, v: &str) -> Result<u64, Error>;

    /// Expands a text to a text.
    fn expand_str<'a>(&mut self, v: Cow<'a, str>) -> Result<Cow<'a, str>, Error>;

    /// Expands bytes to bytes.
    fn expand_bytes<'a>(&mut self, v: Cow<'a, [u8]>) -> Result<Cow<'a, [u8]>, Error>;

    /// Expands a text to whatever its variable holds; the source picks the
    /// shape.
    fn expand_any<'a>(&mut self, v: Cow<'a, str>) -> Result<Any<'a>, Error>;
}

/// What the sources say is expected where a floating point number is due. The
/// caller, who reads such numbers, hands it to the functions that conclude the
/// reading.
pub const FLOATING_POINT: &'static str = "a floating point";

/// A variable that was found: its name, and its value as a text.
#[derive(Debug, PartialEq, Eq)]
pub struct Found {
    pub var: String,
    pub value: String,
}

/// A value whose shape the source has chosen.
#[derive(Debug, PartialEq, Eq)]
pub enum Any<'a> {
    Bool(bool),
    I8(i8),
    I16(i16),
    I32(i32),
    I64(i64),
    U8(u8),
    U16(u16),
    U32(u32),
    U64(u64),
    /// A single precision number, by its IEEE 754 bit pattern.
    F32(u32),
    /// A double precision number, by its IEEE 754 bit pattern.
    F64(u64),
    Str(Cow<'a, str>),
    Bytes(Cow<'a, [u8]>),
}

impl<'a> View for Any<'a> {
    type V = Leaf;

    open spec fn view(&self) -> Leaf {
        match self {
            Any::Bool(v) => Leaf::Bool(*v),
            Any::I8(v) => Leaf::I8(*v),
            Any::I16(v) => Leaf::I16(*v),
            Any::I32(v) => Leaf::I32(*v),
            Any::I64(v) => Leaf::I64(*v),
            Any::U8(v) => Leaf::U8(*v),
            Any::U16(v) => Leaf::U16(*v),
            Any::U32(v) => Leaf::U32(*v),
            Any::U64(v) => Leaf::U64(*v),
            Any::F32(v) => Leaf::F32(*v),
            Any::F64(v) => Leaf::F64(*v),
            Any::Str(Cow::Borrowed(v)) => Leaf::Text(v@, Held::Input),
            Any::Str(Cow::Owned(v)) => Leaf::Text(v@, Held::Owned),
            Any::Bytes(Cow::Borrowed(v)) => Leaf::Bytes(v@, Held::Input),
            Any::Bytes(Cow::Owned(v)) => Leaf::Bytes(v@, Held::Owned),
        }
    }
}

impl<'a> Any<'a> {
    /// Names the value for an error message.
    pub fn unexpected(&self) -> (r: Unexpected)
        ensures
            r@ == crate::content::unexpected_of(self@),
    {
        match self {
            Any::Bool(v) => Unexpected::Bool(*v),
            Any::I8(v) => Unexpected::Signed(*v as i64),
            Any::I16(v) => Unexpected::Signed(*v as i64),
            Any::I32(v) => Unexpected::Signed(*v as i64),
            Any::I64(v) => Unexpected::Signed(*v),
            Any::U8(v) => Unexpected::Unsigned(*v as u64),
            Any::U16(v) => Unexpected::Unsigned(*v as u64),
            Any::U32(v) => Unexpected::Unsigned(*v as u64),
            Any::U64(v) => Unexpected::Unsigned(*v),
            Any::F32(v) => Unexpected::Float32(*v),
            Any::F64(v) => Unexpected::Float64(*v),
            Any::Str(Cow::Borrowed(v)) => Unexpected::Str((*v).to_owned()),
            Any::Str(Cow::Owned(v)) => Unexpected::Str(v.clone()),
            Any::Bytes(Cow::Borrowed(v)) => Unexpected::Bytes(slice_to_vec(v)),
            Any::Bytes(Cow::Owned(v)) => Unexpected::Bytes(slice_to_vec(v.as_slice())),
        }
    }

    /// The callback that hands the value to an application which may keep
    /// borrowed data as long as `'a` lasts.
    pub fn visit_borrowed(self) -> (r: Visit<'a>)
        ensures
            r@ == self@,
    {
        match self {
            Any::Str(Cow::Borrowed(v)) => Visit::BorrowedStr(v),
            Any::Bytes(Cow::Borrowed(v)) => Visit::BorrowedBytes(v),
            other => other.visit(),
        }
    }

    /// The callback that hands the value to an application which may keep
    /// borrowed data for the length of the call only.
    pub fn visit(self) -> (r: Visit<'a>)
        ensures
            r@ == self@.lent(),
    {
        match self {
            Any::Bool(v) => Visit::Bool(v),
            Any::I8(v) => Visit::I8(v),
            Any::I16(v) => Visit::I16(v),
            Any::I32(v) => Visit::I32(v),
            Any::I64(v) => Visit::I64(v),
            Any::U8(v) => Visit::U8(v),
            Any::U16(v) => Visit::U16(v),
            Any::U32(v) => Visit::U32(v),
            Any::U64(v) => Visit::U64(v),
            Any::F32(v) => Visit::F32(v),
            Any::F64(v) => Visit::F64(v),
            Any::Str(Cow::Owned(v)) => Visit::String(v),
            Any::Str(Cow::Borrowed(v)) => Visit::Str(v),
            Any::Bytes(Cow::Owned(v)) => Visit::ByteBuf(v),
            Any::Bytes(Cow::Borrowed(v)) => Visit::Bytes(v),
        }
    }
}

} // verus!
