//! What the proxy hands to the application.

use vstd::prelude::*;
use crate::leaf::{Held, Leaf};

verus! {

/// One callback of the application's visitor, with its argument.
///
/// The three text variants, and the three byte variants, differ in how the
/// application may keep the data: [`Visit::Str`] lends it for the length of the
/// call, [`Visit::BorrowedStr`] lends it for as long as the decoder's input
/// lives, and [`Visit::String`] gives it away.
#[derive(Debug, PartialEq, Eq)]
pub enum Visit<'a> {
    Bool(bool),
    I8(i8),
    I16(i16),
    I32(i32),
    I64(i64),
    I128(i128),
    U8(u8),
    U16(u16),
    U32(u32),
    U64(u64),
    U128(u128),
    /// A single precision number, by its IEEE 754 bit pattern.
    F32(u32),
    /// A double precision number, by its IEEE 754 bit pattern.
    F64(u64),
    Char(char),
    Str(&'a str),
    BorrowedStr(&'a str),
    String(String),
    Bytes(&'a [u8]),
    BorrowedBytes(&'a [u8]),
    ByteBuf(Vec<u8>),
    /// An optional value that is not there.
    Absent,
    Unit,
}

impl<'a> View for Visit<'a> {
    type V = Leaf;

    open spec fn view(&self) -> Leaf {
        match self {
            Visit::Bool(v) => Leaf::Bool(*v),
            Visit::I8(v) => Leaf::I8(*v),
            Visit::I16(v) => Leaf::I16(*v),
            Visit::I32(v) => Leaf::I32(*v),
            Visit::I64(v) => Leaf::I64(*v),
            Visit::I128(v) => Leaf::I128(*v),
            Visit::U8(v) => Leaf::U8(*v),
            Visit::U16(v) => Leaf::U16(*v),
            Visit::U32(v) => Leaf::U32(*v),
            Visit::U64(v) => Leaf::U64(*v),
            Visit::U128(v) => Leaf::U128(*v),
            Visit::F32(v) => Leaf::F32(*v),
            Visit::F64(v) => Leaf::F64(*v),
            Visit::Char(v) => Leaf::Char(*v),
            Visit::Str(v) => Leaf::Text(v@, Held::Transient),
            Visit::BorrowedStr(v) => Leaf::Text(v@, Held::Input),
            Visit::String(v) => Leaf::Text(v@, Held::Owned),
            Visit::Bytes(v) => Leaf::Bytes(v@, Held::Transient),
            Visit::BorrowedBytes(v) => Leaf::Bytes(v@, Held::Input),
            Visit::ByteBuf(v) => Leaf::Bytes(v@, Held::Owned),
            Visit::Absent => Leaf::Absent,
            Visit::Unit => Leaf::Unit,
        }
    }
}

} // verus!
