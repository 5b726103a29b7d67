//! Bytes from decoders that have no byte string of their own.
//!
//! Asked for bytes, a decoder may answer with a byte string, with a text, or,
//! where its format knows neither, with a sequence of small integers. All of
//! them become one contiguous buffer here.

use vstd::prelude::*;
use vstd::slice::slice_to_vec;

verus! {

/// The most that is reserved for a sequence before its first element arrives.
pub const MAX_RESERVED: usize = 4096;

/// The capacity that is reserved for a sequence: what the decoder announces,
/// nothing where it announces nothing, and never more than [`MAX_RESERVED`],
/// since the announcement comes from the document and may be a lie.
pub open spec fn reserved(size_hint: Option<usize>) -> usize {
    match size_hint {
        Some(n) => if n <= MAX_RESERVED {
            n
        } else {
            MAX_RESERVED
        },
        None => 0,
    }
}

/// The elements of a sequence of bytes, as far as the decoder has reported
/// them.
#[derive(Debug, PartialEq, Eq)]
pub struct ByteSeq {
    bytes: Vec<u8>,
    reserved: usize,
}

impl View for ByteSeq {
    type V = Seq<u8>;

    closed spec fn view(&self) -> Seq<u8> {
        self.bytes@
    }
}

impl ByteSeq {
    /// The capacity that was asked for when the sequence was started.
    pub closed spec fn spec_initial_capacity(&self) -> usize {
        self.reserved
    }

    /// The capacity that was asked for when the sequence was started.
    #[verifier::when_used_as_spec(spec_initial_capacity)]
    pub fn initial_capacity(&self) -> (r: usize)
        ensures
            r == self.initial_capacity(),
    {
        self.reserved
    }

    /// The capacity that [`ByteSeq::new`] reserves.
    pub fn capacity_for(size_hint: Option<usize>) -> (r: usize)
        ensures
            r == reserved(size_hint),
    {
        match size_hint {
            Some(n) => if n <= MAX_RESERVED {
                n
            } else {
                MAX_RESERVED
            },
            None => 0,
        }
    }

    /// Starts a sequence of which the decoder announces `size_hint` elements:
    /// an empty one, with room asked for as many elements as [`reserved`]
    /// allows.
    pub fn new(size_hint: Option<usize>) -> (r: Self)
        ensures
            r@ == Seq::<u8>::empty(),
            r.initial_capacity() == reserved(size_hint),
    {
        let reserved = Self::capacity_for(size_hint);
        ByteSeq { bytes: Vec::with_capacity(reserved), reserved }
    }

    /// Takes what the decoder reports next: an element, which is appended, or
    /// the end of the sequence. Returns whether another report is due.
    pub fn accept(&mut self, element: Option<u8>) -> (more: bool)
        ensures
            more == element.is_some(),
            final(self)@ == match element {
                Some(b) => old(self)@.push(b),
                None => old(self)@,
            },
            final(self).initial_capacity() == old(self).initial_capacity(),
    {
        match element {
            Some(b) => {
                self.bytes.push(b);
                true
            },
            None => false,
        }
    }

    /// The elements, in the order in which they were reported.
    pub fn into_bytes(self) -> (r: Vec<u8>)
        ensures
            r@ == self@,
    {
        self.bytes
    }
}

/// What a decoder answered to a request for bytes.
#[derive(Debug, PartialEq, Eq)]
pub enum Raw<'a> {
    Bytes(&'a [u8]),
    ByteBuf(Vec<u8>),
    Str(&'a str),
    String(String),
    Elements(ByteSeq),
}

impl<'a> View for Raw<'a> {
    type V = Seq<u8>;

    /// The bytes that the answer stands for; a text stands for its UTF-8
    /// encoding.
    open spec fn view(&self) -> Seq<u8> {
        match self {
            Raw::Bytes(v) => v@,
            Raw::ByteBuf(v) => v@,
            Raw::Str(v) => vstd::utf8::encode_utf8(v@),
            Raw::String(v) => vstd::utf8::encode_utf8(v@),
            Raw::Elements(v) => v@,
        }
    }
}

/// Turns the decoder's answer into one buffer, copying only what is borrowed.
pub fn deserialize_byte_buf(raw: Raw<'_>) -> (r: Vec<u8>)
    ensures
        r@ == raw@,
{
    match raw {
        Raw::Bytes(v) => slice_to_vec(v),
        Raw::ByteBuf(v) => v,
        Raw::Str(v) => v.as_bytes_vec(),
        Raw::String(v) => v.as_str().as_bytes_vec(),
        Raw::Elements(v) => v.into_bytes(),
    }
}

} // verus!
