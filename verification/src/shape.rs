//! The shapes an application can request from a decoder.

use vstd::prelude::*;

verus! {

/// One decode request, by the shape it names.
#[derive(Clone, Copy, Debug, PartialEq, Eq)]
pub enum Shape {
    /// Whatever shape the decoder finds (the self-describing request).
    Any,
    Bool,
    I8,
    I16,
    I32,
    I64,
    U8,
    U16,
    U32,
    U64,
    F32,
    F64,
    Char,
    Str,
    String,
    Bytes,
    ByteBuf,
    Optional,
    Unit,
    UnitStruct,
    NewtypeStruct,
    Sequence,
    Tuple,
    TupleStruct,
    Mapping,
    Struct,
    Enum,
    Identifier,
    IgnoredAny,
}

impl Shape {
    /// The shapes that name one primitive value.
    pub open spec fn is_scalar(self) -> bool {
        match self {
            Shape::Bool
            | Shape::I8
            | Shape::I16
            | Shape::I32
            | Shape::I64
            | Shape::U8
            | Shape::U16
            | Shape::U32
            | Shape::U64
            | Shape::F32
            | Shape::F64
            | Shape::Char
            | Shape::Str
            | Shape::String
            | Shape::Bytes
            | Shape::ByteBuf => true,
            _ => false,
        }
    }

    /// The shapes that name an integer of a fixed width.
    pub open spec fn is_integer(self) -> bool {
        match self {
            Shape::I8
            | Shape::I16
            | Shape::I32
            | Shape::I64
            | Shape::U8
            | Shape::U16
            | Shape::U32
            | Shape::U64 => true,
            _ => false,
        }
    }

    /// The shapes that name a floating point number.
    pub open spec fn is_float(self) -> bool {
        self is F32 || self is F64
    }
}

} // verus!
