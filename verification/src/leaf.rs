//! The mathematical model of one primitive leaf of a document.
//!
//! A decoder hands a leaf over through one of its callbacks, a source hands one
//! back, and the proxy hands one on to the application. All three are viewed as
//! a [`Leaf`], so that "handed on unchanged" is an equation between views.

use vstd::prelude::*;

verus! {

/// How long the one who receives a text or a byte sequence may keep it.
#[derive(Clone, Copy, Debug, PartialEq, Eq)]
pub enum Held {
    /// Borrowed from the decoder's input buffer: it outlives the decode call.
    Input,
    /// Borrowed for the length of one callback only.
    Transient,
    /// Owned by the receiver.
    Owned,
}

/// One primitive value together with the way it is held.
///
/// Floating point numbers are modelled by their IEEE 754 bit patterns; nothing
/// in this crate looks inside one.
pub enum Leaf {
    Bool(bool),
    I8(i8),
    I16(i16),
    I32(i32),
    I64(i64),
    I128(i128),
    U8(u8),
    U16(u16),
    U32(u32),
    U64(u64),
    U128(u128),
    F32(u32),
    F64(u64),
    Char(char),
    Text(Seq<char>, Held),
    Bytes(Seq<u8>, Held),
    Absent,
    Unit,
}

impl Leaf {
    /// The same value as seen by a receiver who may keep borrowed data for the
    /// length of the callback only.
    pub open spec fn lent(self) -> Leaf {
        match self {
            Leaf::Text(s, Held::Input) => Leaf::Text(s, Held::Transient),
            Leaf::Bytes(b, Held::Input) => Leaf::Bytes(b, Held::Transient),
            other => other,
        }
    }
}

} // verus!
