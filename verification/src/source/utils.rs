//! What the sources share: the marks around a variable, and the shape that a
//! value is taken to have.

use std::borrow::Cow;
use vstd::prelude::*;
use crate::leaf::Leaf;
use crate::source::Any;

verus! {

/// The marks that enclose the name of a variable.
#[derive(Debug)]
pub struct Variable {
    pub prefix: String,
    pub suffix: String,
}

impl Variable {
    /// The name of the variable that the text `v` refers to, if it refers to
    /// one: what stands between the prefix and the suffix.
    pub fn parse_str<'a>(&self, v: &'a str) -> (r: Option<&'a str>)
        ensures
            crate::text::found(r) == crate::text::enclosed(v@, self.prefix@, self.suffix@),
    {
        crate::text::between(v, self.prefix.as_str(), self.suffix.as_str())
    }

    /// The name of the variable that the bytes `v` refer to, with the two
    /// marks taken in their UTF-8 encoding.
    pub fn parse_bytes<'a>(&self, v: &'a [u8]) -> (r: Option<&'a [u8]>)
        ensures
            crate::text::found_bytes(r) == crate::text::enclosed(
                v@,
                vstd::utf8::encode_utf8(self.prefix@),
                vstd::utf8::encode_utf8(self.suffix@),
            ),
    {
        crate::text::between_bytes(v, self.prefix.as_str().as_bytes(), self.suffix.as_str().as_bytes())
    }

    /// The reference to the variable `v`, as a document writes it.
    pub fn fmt(&self, v: &str) -> (r: String)
        ensures
            r@ == self.prefix@ + v@ + self.suffix@,
    {
        let mut r = self.prefix.clone();
        r.append(v);
        r.append(self.suffix.as_str());
        r
    }
}

impl Default for Variable {
    /// The marks `${` and `}`.
    fn default() -> (r: Self)
        ensures
            r.prefix@ == "${"@,
            r.suffix@ == "}"@,
    {
        Variable { prefix: "${".to_owned(), suffix: "}".to_owned() }
    }
}

/// The text inside a [`Cow`].
pub fn as_str<'b>(s: &'b Cow<'_, str>) -> (r: &'b str)
    ensures
        r@ == s@,
{
    match s {
        Cow::Borrowed(b) => b,
        Cow::Owned(o) => o.as_str(),
    }
}

/// The shape that a value is taken to have where nothing else names one, or
/// none where it stays a text. In this order: `true` and `false` are booleans;
/// what reads as an unsigned 64 bit integer is one; what reads as a signed one
/// is one; what reads as a floating point number is one of double precision.
///
/// `as_double` is the bit pattern of the number that `text` reads as, or none
/// where it does not read as a floating point number.
pub open spec fn inferred(text: Seq<char>, as_double: Option<u64>) -> Option<Leaf> {
    if crate::num::boolean(text) is Some {
        Some(Leaf::Bool(crate::num::boolean(text)->Some_0))
    } else if crate::num::spec_u64(text) is Some {
        Some(Leaf::U64(crate::num::spec_u64(text)->Some_0))
    } else if crate::num::spec_i64(text) is Some {
        Some(Leaf::I64(crate::num::spec_i64(text)->Some_0))
    } else if as_double is Some {
        Some(Leaf::F64(as_double->Some_0))
    } else {
        None
    }
}

/// Finds the shape of `s`, as [`inferred`] says; what has none stays the text
/// that it is.
///
/// `as_double` gives the bit pattern of the floating point number that `s`
/// reads as, or none.
pub fn parse<'a>(s: Cow<'a, str>, as_double: Option<u64>) -> (r: Any<'a>)
    ensures
        match inferred(s@, as_double) {
            Some(leaf) => r@ == leaf,
            None => r == Any::Str(s),
        },
{
    match number(as_str(&s), as_double) {
        Some(any) => any,
        None => Any::Str(s),
    }
}

/// The boolean or the number that `text` is taken to be.
pub fn number<'a>(text: &str, as_double: Option<u64>) -> (r: Option<Any<'a>>)
    ensures
        match inferred(text@, as_double) {
            Some(leaf) => r matches Some(any) && any@ == leaf,
            None => r is None,
        },
{
    if let Some(b) = crate::num::parse_bool(text) {
        return Some(Any::Bool(b));
    }
    if let Some(n) = crate::num::parse_u64(text) {
        return Some(Any::U64(n));
    }
    if let Some(n) = crate::num::parse_i64(text) {
        return Some(Any::I64(n));
    }
    match as_double {
        Some(bits) => Some(Any::F64(bits)),
        None => None,
    }
}

} // verus!
