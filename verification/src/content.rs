//! The snapshot of one primitive leaf, as a decoder reported it.

use vstd::prelude::*;
use vstd::slice::slice_to_vec;
use crate::error::{Unexpected, UnexpectedView};
use crate::leaf::{Held, Leaf};

verus! {

/// One primitive value that a decoder found, taken out of its callback.
///
/// A value lives for one decode step: it is made by a [`ContentVisitor`] and
/// used up by the resolver that follows.
#[derive(Debug, PartialEq, Eq)]
pub enum Content<'de> {
    Bool(bool),
    U8(u8),
    U16(u16),
    U32(u32),
    U64(u64),
    I8(i8),
    I16(i16),
    I32(i32),
    I64(i64),
    /// A single precision number, by its IEEE 754 bit pattern.
    F32(u32),
    /// A double precision number, by its IEEE 754 bit pattern.
    F64(u64),
    Char(char),
    String(String),
    Str(&'de str),
    ByteBuf(Vec<u8>),
    Bytes(&'de [u8]),
}

impl<'de> View for Content<'de> {
    type V = Leaf;

    open spec fn view(&self) -> Leaf {
        match self {
            Content::Bool(v) => Leaf::Bool(*v),
            Content::U8(v) => Leaf::U8(*v),
            Content::U16(v) => Leaf::U16(*v),
            Content::U32(v) => Leaf::U32(*v),
            Content::U64(v) => Leaf::U64(*v),
            Content::I8(v) => Leaf::I8(*v),
            Content::I16(v) => Leaf::I16(*v),
            Content::I32(v) => Leaf::I32(*v),
            Content::I64(v) => Leaf::I64(*v),
            Content::F32(v) => Leaf::F32(*v),
            Content::F64(v) => Leaf::F64(*v),
            Content::Char(v) => Leaf::Char(*v),
            Content::String(v) => Leaf::Text(v@, Held::Owned),
            Content::Str(v) => Leaf::Text(v@, Held::Input),
            Content::ByteBuf(v) => Leaf::Bytes(v@, Held::Owned),
            Content::Bytes(v) => Leaf::Bytes(v@, Held::Input),
        }
    }
}

/// The leaves that a decoder can report as a primitive value, and a source can
/// resolve a text to: everything but the 128 bit integers, an absent value and
/// the unit.
pub open spec fn is_primitive(leaf: Leaf) -> bool {
    !(leaf is I128 || leaf is U128 || leaf is Absent || leaf is Unit)
}

/// How a primitive leaf is named in an error: integers widened to 64 bits,
/// texts and bytes without the way they were held.
pub open spec fn unexpected_of(leaf: Leaf) -> UnexpectedView
    recommends
        is_primitive(leaf),
{
    match leaf {
        Leaf::Bool(v) => UnexpectedView::Bool(v),
        Leaf::U8(v) => UnexpectedView::Unsigned(v as u64),
        Leaf::U16(v) => UnexpectedView::Unsigned(v as u64),
        Leaf::U32(v) => UnexpectedView::Unsigned(v as u64),
        Leaf::U64(v) => UnexpectedView::Unsigned(v),
        Leaf::I8(v) => UnexpectedView::Signed(v as i64),
        Leaf::I16(v) => UnexpectedView::Signed(v as i64),
        Leaf::I32(v) => UnexpectedView::Signed(v as i64),
        Leaf::I64(v) => UnexpectedView::Signed(v),
        Leaf::F32(v) => UnexpectedView::Float32(v),
        Leaf::F64(v) => UnexpectedView::Float64(v),
        Leaf::Char(v) => UnexpectedView::Char(v),
        Leaf::Text(v, _) => UnexpectedView::Str(v),
        Leaf::Bytes(v, _) => UnexpectedView::Bytes(v),
        _ => arbitrary(),
    }
}

impl<'de> Content<'de> {
    /// Names the value for an error message.
    pub fn unexpected(&self) -> (r: Unexpected)
        ensures
            r@ == unexpected_of(self@),
    {
        match self {
            Content::Bool(b) => Unexpected::Bool(*b),
            Content::U8(n) => Unexpected::Unsigned(*n as u64),
            Content::U16(n) => Unexpected::Unsigned(*n as u64),
            Content::U32(n) => Unexpected::Unsigned(*n as u64),
            Content::U64(n) => Unexpected::Unsigned(*n),
            Content::I8(n) => Unexpected::Signed(*n as i64),
            Content::I16(n) => Unexpected::Signed(*n as i64),
            Content::I32(n) => Unexpected::Signed(*n as i64),
            Content::I64(n) => Unexpected::Signed(*n),
            Content::F32(bits) => Unexpected::Float32(*bits),
            Content::F64(bits) => Unexpected::Float64(*bits),
            Content::Char(c) => Unexpected::Char(*c),
            Content::String(s) => Unexpected::Str(s.clone()),
            Content::Str(s) => Unexpected::Str((*s).to_owned()),
            Content::ByteBuf(b) => Unexpected::Bytes(slice_to_vec(b.as_slice())),
            Content::Bytes(b) => Unexpected::Bytes(slice_to_vec(b)),
        }
    }
}

/// Takes a primitive value out of the callback that a decoder chose for it.
///
/// Data that the decoder lends for the length of the callback is copied; data
/// that it borrows from its input is kept as a borrow.
#[derive(Clone, Copy, Debug, Default)]
pub struct ContentVisitor;

impl ContentVisitor {
    pub fn new() -> (r: Self) {
        ContentVisitor
    }

    pub fn visit_bool<'de>(self, v: bool) -> (r: Content<'de>)
        ensures
            r@ == Leaf::Bool(v),
    {
        Content::Bool(v)
    }

    pub fn visit_i8<'de>(self, v: i8) -> (r: Content<'de>)
        ensures
            r@ == Leaf::I8(v),
    {
        Content::I8(v)
    }

    pub fn visit_i16<'de>(self, v: i16) -> (r: Content<'de>)
        ensures
            r@ == Leaf::I16(v),
    {
        Content::I16(v)
    }

    pub fn visit_i32<'de>(self, v: i32) -> (r: Content<'de>)
        ensures
            r@ == Leaf::I32(v),
    {
        Content::I32(v)
    }

    pub fn visit_i64<'de>(self, v: i64) -> (r: Content<'de>)
        ensures
            r@ == Leaf::I64(v),
    {
        Content::I64(v)
    }

    pub fn visit_u8<'de>(self, v: u8) -> (r: Content<'de>)
        ensures
            r@ == Leaf::U8(v),
    {
        Content::U8(v)
    }

    pub fn visit_u16<'de>(self, v: u16) -> (r: Content<'de>)
        ensures
            r@ == Leaf::U16(v),
    {
        Content::U16(v)
    }

    pub fn visit_u32<'de>(self, v: u32) -> (r: Content<'de>)
        ensures
            r@ == Leaf::U32(v),
    {
        Content::U32(v)
    }

    pub fn visit_u64<'de>(self, v: u64) -> (r: Content<'de>)
        ensures
            r@ == Leaf::U64(v),
    {
        Content::U64(v)
    }

    /// Takes a single precision number, given by its bit pattern.
    pub fn visit_f32<'de>(self, bits: u32) -> (r: Content<'de>)
        ensures
            r@ == Leaf::F32(bits),
    {
        Content::F32(bits)
    }

    /// Takes a double precision number, given by its bit pattern.
    pub fn visit_f64<'de>(self, bits: u64) -> (r: Content<'de>)
        ensures
            r@ == Leaf::F64(bits),
    {
        Content::F64(bits)
    }

    pub fn visit_char<'de>(self, v: char) -> (r: Content<'de>)
        ensures
            r@ == Leaf::Char(v),
    {
        Content::Char(v)
    }

    pub fn visit_str<'de>(self, v: &str) -> (r: Content<'de>)
        ensures
            r@ == Leaf::Text(v@, Held::Owned),
    {
        Content::String(v.to_owned())
    }

    pub fn visit_borrowed_str<'de>(self, v: &'de str) -> (r: Content<'de>)
        ensures
            r@ == Leaf::Text(v@, Held::Input),
    {
        Content::Str(v)
    }

    pub fn visit_string<'de>(self, v: String) -> (r: Content<'de>)
        ensures
            r@ == Leaf::Text(v@, Held::Owned),
    {
        Content::String(v)
    }

    pub fn visit_bytes<'de>(self, v: &[u8]) -> (r: Content<'de>)
        ensures
            r@ == Leaf::Bytes(v@, Held::Owned),
    {
        Content::ByteBuf(slice_to_vec(v))
    }

    pub fn visit_borrowed_bytes<'de>(self, v: &'de [u8]) -> (r: Content<'de>)
        ensures
            r@ == Leaf::Bytes(v@, Held::Input),
    {
        Content::Bytes(v)
    }

    pub fn visit_byte_buf<'de>(self, v: Vec<u8>) -> (r: Content<'de>)
        ensures
            r@ == Leaf::Bytes(v@, Held::Owned),
    {
        Content::ByteBuf(v)
    }
}

} // verus!
