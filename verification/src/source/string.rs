//! A source whose variables are texts, found by name.

use std::borrow::Cow;
use std::collections::HashMap;
use vstd::prelude::*;
use crate::error::{Error, ErrorView, Unexpected, UnexpectedView};
use crate::leaf::{Held, Leaf};
use crate::source::{Any, Found};

verus! {

/// Finds the value of a variable by its name.
pub trait StringLookup {
    /// The value of the variable `v`, or nothing where there is no such
    /// variable.
    fn lookup(&mut self, v: &str) -> Option<String>;
}

/// The variables are the keys of the map.
impl StringLookup for HashMap<String, String> {
    /// The value that the map holds for the key `v`, or nothing where it holds
    /// none. The map stays as it is.
    ///
    /// What the map holds is stated over the model that `vstd` gives a hash
    /// map. It vouches for that model where the keys keep to
    /// `obeys_key_model`, which it leaves open for `String`.
    fn lookup(&mut self, v: &str) -> (r: Option<String>)
        ensures
            *final(self) == *old(self),
            vstd::std_specs::hash::obeys_key_model::<String>() ==> match r {
                Some(value) => vstd::std_specs::hash::maps_borrowed_key_to_value(
                    old(self)@,
                    v,
                    value,
                ),
                None => !vstd::std_specs::hash::contains_borrowed_key(old(self)@, v),
            },
    {
        broadcast use vstd::std_specs::hash::axiom_random_state_builds_valid_hashers;

        match self.get(v) {
            Some(value) => Some(value.clone()),
            None => None,
        }
    }
}

/// A source whose variables are the entries of a map.
pub type MapSource = StringSource<HashMap<String, String>>;

/// A source that looks its variables up by name and reads their values as
/// texts.
///
/// A leaf refers to a variable where it starts with the prefix and ends with
/// the suffix; what stands between is the name. The value is read as the shape
/// that was requested. Where none was, it is taken to be a boolean, an
/// unsigned, a signed or a floating point number, in this order, and a text
/// otherwise; a value in double quotes is the text between them, so that
/// `"123"` gives the text `123`.
///
/// Reading a floating point number is left to the caller: the functions that
/// depend on one take the outcome as an argument.
#[derive(Debug)]
pub struct StringSource<T> {
    prefix: String,
    suffix: String,
    lookup: T,
}

/// The value without the double quotes around it, if it stands in a pair.
pub open spec fn unquoted(value: Seq<char>) -> Seq<char> {
    match crate::text::enclosed(value, "\""@, "\""@) {
        Some(inner) => inner,
        None => value,
    }
}

impl<T> StringSource<T> {
    /// The mark in front of a name.
    pub closed spec fn prefix(&self) -> Seq<char> {
        self.prefix@
    }

    /// The mark behind a name.
    pub closed spec fn suffix(&self) -> Seq<char> {
        self.suffix@
    }

    /// The lookup inside.
    pub closed spec fn inner(&self) -> T {
        self.lookup
    }

    /// The name of the variable that `text` refers to, if it refers to one.
    pub open spec fn variable(&self, text: Seq<char>) -> Option<Seq<char>> {
        crate::text::enclosed(text, self.prefix(), self.suffix())
    }

    /// The name of the variable that `bytes` refer to, if they are the UTF-8
    /// encoding of a text that refers to one.
    pub open spec fn variable_bytes(&self, bytes: Seq<u8>) -> Option<Seq<char>> {
        if vstd::utf8::valid_utf8(bytes) {
            self.variable(vstd::utf8::decode_utf8(bytes))
        } else {
            None
        }
    }

    /// The reference to the variable `var`, as a document writes it.
    pub open spec fn reference(&self, var: Seq<char>) -> Seq<char> {
        self.prefix() + var + self.suffix()
    }

    /// The error for a variable that the lookup does not know.
    pub open spec fn missing(&self, var: Seq<char>) -> ErrorView {
        ErrorView::Custom("got variable `"@ + self.reference(var) + "`, but it does not exist"@)
    }

    /// The error for a text that refers to no variable where it has to.
    pub open spec fn literal(v: Seq<char>, expected: Seq<char>) -> ErrorView {
        ErrorView::InvalidValue {
            unexpected: UnexpectedView::Str(v),
            expected: "expected "@ + expected + " or a variable"@,
        }
    }

    /// The error for a variable whose value has another shape than the one
    /// requested.
    pub open spec fn mismatched(
        &self,
        var: Seq<char>,
        unexpected: UnexpectedView,
        expected: Seq<char>,
    ) -> ErrorView {
        ErrorView::InvalidValue {
            unexpected,
            expected: "variable `"@ + self.reference(var) + "` to be "@ + expected,
        }
    }

    /// What comes of reading the variable `var` as a value of one shape:
    /// `looked` is what the lookup gave, `read` what the value reads as.
    pub open spec fn reading<V>(
        &self,
        var: Seq<char>,
        looked: Option<Seq<char>>,
        read: Option<V>,
        expected: Seq<char>,
    ) -> Result<V, ErrorView> {
        match looked {
            None => Err(self.missing(var)),
            Some(value) => match read {
                Some(x) => Ok(x),
                None => Err(self.mismatched(var, UnexpectedView::Str(value), expected)),
            },
        }
    }

    /// Creates a source with the marks `${` and `}`.
    pub fn new(lookup: T) -> (r: Self)
        ensures
            r.prefix() == "${"@,
            r.suffix() == "}"@,
            r.inner() == lookup,
    {
        StringSource { prefix: "${".to_owned(), suffix: "}".to_owned(), lookup }
    }

    /// Changes the mark in front of a name.
    pub fn with_variable_prefix(self, prefix: &str) -> (r: Self)
        ensures
            r.prefix() == prefix@,
            r.suffix() == self.suffix(),
            r.inner() == self.inner(),
    {
        StringSource { prefix: prefix.to_owned(), suffix: self.suffix, lookup: self.lookup }
    }

    /// Changes the mark behind a name.
    pub fn with_variable_suffix(self, suffix: &str) -> (r: Self)
        ensures
            r.prefix() == self.prefix(),
            r.suffix() == suffix@,
            r.inner() == self.inner(),
    {
        StringSource { prefix: self.prefix, suffix: suffix.to_owned(), lookup: self.lookup }
    }

    /// Gives the lookup back.
    pub fn into_inner(self) -> (r: T)
        ensures
            r == self.inner(),
    {
        self.lookup
    }

    /// The reference to the variable `var`.
    fn format(&self, var: &str) -> (r: String)
        ensures
            r@ == self.reference(var@),
    {
        let mut r = self.prefix.clone();
        r.append(var);
        r.append(self.suffix.as_str());
        r
    }

    /// The error for a variable that the lookup does not know.
    pub fn missing_variable(&self, var: &str) -> (r: Error)
        ensures
            r@ == self.missing(var@),
    {
        let mut message = "got variable `".to_owned();
        message.append(self.format(var).as_str());
        message.append("`, but it does not exist");
        assert(message@ =~= "got variable `"@ + self.reference(var@)
            + "`, but it does not exist"@);
        Error::Custom(message)
    }

    /// The error for the text `v`, which refers to no variable where only a
    /// variable can give what is `expected`.
    pub fn expected_variable(&self, v: &str, expected: &str) -> (r: Error)
        ensures
            r@ == Self::literal(v@, expected@),
    {
        let mut message = "expected ".to_owned();
        message.append(expected);
        message.append(" or a variable");
        Error::InvalidValue { unexpected: Unexpected::Str(v.to_owned()), expected: message }
    }

    /// The error for the variable `var`, whose value is `unexpected` and not
    /// what is `expected`.
    pub fn mismatched_type(&self, var: &str, unexpected: Unexpected, expected: &str) -> (r: Error)
        ensures
            r@ == self.mismatched(var@, unexpected@, expected@),
    {
        let mut message = "variable `".to_owned();
        message.append(self.format(var).as_str());
        message.append("` to be ");
        message.append(expected);
        assert(message@ =~= "variable `"@ + self.reference(var@) + "` to be "@ + expected@);
        Error::InvalidValue { unexpected, expected: message }
    }

    /// The name of the variable that `v` refers to, if it refers to one.
    pub fn parse_var<'a>(&self, v: &'a str) -> (r: Option<&'a str>)
        ensures
            crate::text::found(r) == self.variable(v@),
    {
        crate::text::between(v, self.prefix.as_str(), self.suffix.as_str())
    }

    /// Concludes the reading of a variable as a value of one shape: `read` is
    /// what its value reads as, or nothing where it does not read as one.
    pub fn parsed<V>(&self, found: &Found, read: Option<V>, expected: &str) -> (r: Result<V, Error>)
        ensures
            match read {
                Some(x) => r == Ok::<V, Error>(x),
                None => r matches Err(e) && e@ == self.mismatched(
                    found.var@,
                    UnexpectedView::Str(found.value@),
                    expected@,
                ),
            },
    {
        match read {
            Some(x) => Ok(x),
            None => Err(
                self.mismatched_type(
                    found.var.as_str(),
                    Unexpected::Str(found.value.clone()),
                    expected,
                ),
            ),
        }
    }

    /// Expands the text `v` to a text, given what [`StringSource::find`] found
    /// for it.
    ///
    /// A text that refers to no variable is handed back as it came. The value
    /// of a variable is taken for the text that it is, less a pair of double
    /// quotes around it; a value that has the shape of a boolean or of a
    /// number is no text, and is refused. `as_double` is the bit pattern of
    /// the floating point number that the value reads as, or nothing.
    pub fn expand_str<'a>(
        &self,
        v: Cow<'a, str>,
        found: Option<Found>,
        as_double: Option<u64>,
    ) -> (r: Result<Cow<'a, str>, Error>)
        ensures
            match found {
                None => r == Ok::<Cow<'a, str>, Error>(v),
                Some(f) => match crate::source::utils::inferred(f.value@, as_double) {
                    None => r matches Ok(Cow::Owned(s)) && s@ == unquoted(f.value@),
                    Some(leaf) => r matches Err(e) && e@ == self.mismatched(
                        f.var@,
                        crate::content::unexpected_of(leaf),
                        "a string"@,
                    ),
                },
            },
    {
        match found {
            None => Ok(v),
            Some(f) => {
                let Found { var, value } = f;
                match parse(Cow::Owned(value), as_double) {
                    Any::Str(s) => {
                        Ok(s)
                    },
                    other => Err(self.mismatched_type(var.as_str(), other.unexpected(), "a string")),
                }
            },
        }
    }

    /// Expands the bytes `v` to bytes, given what [`StringSource::find_bytes`]
    /// found for them.
    ///
    /// Bytes that refer to no variable are handed back as they came. The value
    /// of a variable is expanded as a text is, and handed on in its UTF-8
    /// encoding.
    pub fn expand_bytes<'a>(
        &self,
        v: Cow<'a, [u8]>,
        found: Option<Found>,
        as_double: Option<u64>,
    ) -> (r: Result<Cow<'a, [u8]>, Error>)
        ensures
            match found {
                None => r == Ok::<Cow<'a, [u8]>, Error>(v),
                Some(f) => match crate::source::utils::inferred(f.value@, as_double) {
                    None => r matches Ok(Cow::Owned(b)) && b@ == vstd::utf8::encode_utf8(
                        unquoted(f.value@),
                    ),
                    Some(leaf) => r matches Err(e) && e@ == self.mismatched(
                        f.var@,
                        crate::content::unexpected_of(leaf),
                        "a string"@,
                    ),
                },
            },
    {
        match found {
            None => Ok(v),
            Some(f) => match self.expand_str(Cow::Owned(String::new()), Some(f), as_double) {
                Ok(text) => Ok(Cow::Owned(crate::source::utils::as_str(&text).as_bytes_vec())),
                Err(e) => Err(e),
            },
        }
    }

    /// Expands the text `v` to a value of the shape that the variable's value
    /// is taken to have, given what [`StringSource::find`] found for it.
    ///
    /// A text that refers to no variable is handed back as it came.
    /// `as_double` is the bit pattern of the floating point number that the
    /// value reads as, or nothing.
    pub fn expand_any<'a>(&self, v: Cow<'a, str>, found: Option<Found>, as_double: Option<u64>) -> (r:
        Any<'a>)
        ensures
            match found {
                None => r == Any::Str(v),
                Some(f) => r@ == match crate::source::utils::inferred(f.value@, as_double) {
                    Some(leaf) => leaf,
                    None => Leaf::Text(unquoted(f.value@), Held::Owned),
                },
            },
    {
        match found {
            None => Any::Str(v),
            Some(f) => parse(Cow::Owned(f.value), as_double),
        }
    }
}

impl<T: Default> Default for StringSource<T> {
    fn default() -> (r: Self)
        ensures
            r.prefix() == "${"@,
            r.suffix() == "}"@,
    {
        Self::new(T::default())
    }
}

impl<T: StringLookup> StringSource<T> {
    /// Looks up the variable that `v` refers to.
    ///
    /// Gives nothing where `v` refers to no variable, and the lookup is then
    /// left alone; gives the variable with its value where the lookup knows
    /// it; fails where it does not.
    pub fn find(&mut self, v: &str) -> (r: Result<Option<Found>, Error>)
        ensures
            final(self).prefix() == old(self).prefix(),
            final(self).suffix() == old(self).suffix(),
            match old(self).variable(v@) {
                None => r == Ok::<Option<Found>, Error>(None) 
                    && final(self).inner() == old(self).inner(),
                Some(var) => match r {
                    Ok(Some(f)) => f.var@ == var,
                    Ok(None) => false,
                    Err(e) => e@ == old(self).missing(var),
                },
            },
    {
        let var = match self.parse_var(v) {
            Some(var) => var,
            None => return Ok(None),
        };
        match self.lookup.lookup(var) {
            Some(value) => Ok(Some(Found { var: var.to_owned(), value })),
            None => Err(self.missing_variable(var)),
        }
    }

    /// Looks up the variable that the bytes `v` refer to. Bytes that are no
    /// valid UTF-8 refer to none.
    pub fn find_bytes(&mut self, v: &[u8]) -> (r: Result<Option<Found>, Error>)
        ensures
            final(self).prefix() == old(self).prefix(),
            final(self).suffix() == old(self).suffix(),
            match old(self).variable_bytes(v@) {
                None => r == Ok::<Option<Found>, Error>(None) 
                    && final(self).inner() == old(self).inner(),
                Some(var) => match r {
                    Ok(Some(f)) => f.var@ == var,
                    Ok(None) => false,
                    Err(e) => e@ == old(self).missing(var),
                },
            },
    {
        match crate::text::from_utf8(v) {
            Some(text) => {
                proof {
                    vstd::utf8::encode_utf8_valid_utf8(text@);
                    vstd::utf8::encode_utf8_decode_utf8(text@);
                }
                self.find(text)
            },
            None => Ok(None),
        }
    }

    /// Looks up the variable that `v` has to refer to, since only a variable
    /// can give what is `expected`.
    pub fn require(&mut self, v: &str, expected: &str) -> (r: Result<Found, Error>)
        ensures
            final(self).prefix() == old(self).prefix(),
            final(self).suffix() == old(self).suffix(),
            match old(self).variable(v@) {
                None => r matches Err(e) && e@ == Self::literal(v@, expected@)
                    && final(self).inner() == old(self).inner(),
                Some(var) => match r {
                    Ok(f) => f.var@ == var,
                    Err(e) => e@ == old(self).missing(var),
                },
            },
    {
        match self.find(v) {
            Ok(Some(f)) => Ok(f),
            Ok(None) => Err(self.expected_variable(v, expected)),
            Err(e) => Err(e),
        }
    }

    /// Expands the variable that `v` refers to, read as a boolean.
    ///
    /// Fails where `v` refers to no variable, where the lookup does not know
    /// the variable, and where its value does not read as one.
    pub fn expand_bool(&mut self, v: &str) -> (r: Result<bool, Error>)
        ensures
            final(self).prefix() == old(self).prefix(),
            final(self).suffix() == old(self).suffix(),
            match old(self).variable(v@) {
                None => r matches Err(e) && e@ == Self::literal(v@, "a boolean"@)
                    && final(self).inner() == old(self).inner(),
                Some(var) => (r matches Err(e) && e@ == old(self).missing(var))
                    || exists|value: Seq<char>|
                    crate::error::seen(r) == #[trigger] old(self).reading(
                        var,
                        Some(value),
                        crate::num::boolean(value),
                        "a boolean"@,
                    ),
            },
    {
        let ghost var = old(self).variable(v@)->Some_0;
        match self.require(v, "a boolean") {
            Ok(found) => {
                let read = crate::num::parse_bool(found.value.as_str());
                let r = self.parsed(&found, read, "a boolean");
                assert(crate::error::seen(r) == old(self).reading(
                    var,
                    Some(found.value@),
                    crate::num::boolean(found.value@),
                    "a boolean"@,
                ));
                r
            },
            Err(e) => {
                Err(e)
            },
        }
    }

    /// Expands the variable that `v` refers to, read as a signed integer of 8 bits.
    ///
    /// Fails where `v` refers to no variable, where the lookup does not know
    /// the variable, and where its value does not read as one.
    pub fn expand_i8(&mut self, v: &str) -> (r: Result<i8, Error>)
        ensures
            final(self).prefix() == old(self).prefix(),
            final(self).suffix() == old(self).suffix(),
            match old(self).variable(v@) {
                None => r matches Err(e) && e@ == Self::literal(v@, "a signed integer (i8)"@)
                    && final(self).inner() == old(self).inner(),
                Some(var) => (r matches Err(e) && e@ == old(self).missing(var))
                    || exists|value: Seq<char>|
                    crate::error::seen(r) == #[trigger] old(self).reading(
                        var,
                        Some(value),
                        crate::num::spec_i8(value),
                        "a signed integer (i8)"@,
                    ),
            },
    {
        let ghost var = old(self).variable(v@)->Some_0;
        match self.require(v, "a signed integer (i8)") {
            Ok(found) => {
                let read = crate::num::parse_i8(found.value.as_str());
                let r = self.parsed(&found, read, "a signed integer (i8)");
                assert(crate::error::seen(r) == old(self).reading(
                    var,
                    Some(found.value@),
                    crate::num::spec_i8(found.value@),
                    "a signed integer (i8)"@,
                ));
                r
            },
            Err(e) => {
                Err(e)
            },
        }
    }

    /// Expands the variable that `v` refers to, read as a signed integer of 16 bits.
    ///
    /// Fails where `v` refers to no variable, where the lookup does not know
    /// the variable, and where its value does not read as one.
    pub fn expand_i16(&mut self, v: &str) -> (r: Result<i16, Error>)
        ensures
            final(self).prefix() == old(self).prefix(),
            final(self).suffix() == old(self).suffix(),
            match old(self).variable(v@) {
                None => r matches Err(e) && e@ == Self::literal(v@, "a signed integer (i16)"@)
                    && final(self).inner() == old(self).inner(),
                Some(var) => (r matches Err(e) && e@ == old(self).missing(var))
                    || exists|value: Seq<char>|
                    crate::error::seen(r) == #[trigger] old(self).reading(
                        var,
                        Some(value),
                        crate::num::spec_i16(value),
                        "a signed integer (i16)"@,
                    ),
            },
    {
        let ghost var = old(self).variable(v@)->Some_0;
        match self.require(v, "a signed integer (i16)") {
            Ok(found) => {
                let read = crate::num::parse_i16(found.value.as_str());
                let r = self.parsed(&found, read, "a signed integer (i16)");
                assert(crate::error::seen(r) == old(self).reading(
                    var,
                    Some(found.value@),
                    crate::num::spec_i16(found.value@),
                    "a signed integer (i16)"@,
                ));
                r
            },
            Err(e) => {
                Err(e)
            },
        }
    }

    /// Expands the variable that `v` refers to, read as a signed integer of 32 bits.
    ///
    /// Fails where `v` refers to no variable, where the lookup does not know
    /// the variable, and where its value does not read as one.
    pub fn expand_i32(&mut self, v: &str) -> (r: Result<i32, Error>)
        ensures
            final(self).prefix() == old(self).prefix(),
            final(self).suffix() == old(self).suffix(),
            match old(self).variable(v@) {
                None => r matches Err(e) && e@ == Self::literal(v@, "a signed integer (i32)"@)
                    && final(self).inner() == old(self).inner(),
                Some(var) => (r matches Err(e) && e@ == old(self).missing(var))
                    || exists|value: Seq<char>|
                    crate::error::seen(r) == #[trigger] old(self).reading(
                        var,
                        Some(value),
                        crate::num::spec_i32(value),
                        "a signed integer (i32)"@,
                    ),
            },
    {
        let ghost var = old(self).variable(v@)->Some_0;
        match self.require(v, "a signed integer (i32)") {
            Ok(found) => {
                let read = crate::num::parse_i32(found.value.as_str());
                let r = self.parsed(&found, read, "a signed integer (i32)");
                assert(crate::error::seen(r) == old(self).reading(
                    var,
                    Some(found.value@),
                    crate::num::spec_i32(found.value@),
                    "a signed integer (i32)"@,
                ));
                r
            },
            Err(e) => {
                Err(e)
            },
        }
    }

    /// Expands the variable that `v` refers to, read as a signed integer of 64 bits.
    ///
    /// Fails where `v` refers to no variable, where the lookup does not know
    /// the variable, and where its value does not read as one.
    pub fn expand_i64(&mut self, v: &str) -> (r: Result<i64, Error>)
        ensures
            final(self).prefix() == old(self).prefix(),
            final(self).suffix() == old(self).suffix(),
            match old(self).variable(v@) {
                None => r matches Err(e) && e@ == Self::literal(v@, "a signed integer (i64)"@)
                    && final(self).inner() == old(self).inner(),
                Some(var) => (r matches Err(e) && e@ == old(self).missing(var))
                    || exists|value: Seq<char>|
                    crate::error::seen(r) == #[trigger] old(self).reading(
                        var,
                        Some(value),
                        crate::num::spec_i64(value),
                        "a signed integer (i64)"@,
                    ),
            },
    {
        let ghost var = old(self).variable(v@)->Some_0;
        match self.require(v, "a signed integer (i64)") {
            Ok(found) => {
                let read = crate::num::parse_i64(found.value.as_str());
                let r = self.parsed(&found, read, "a signed integer (i64)");
                assert(crate::error::seen(r) == old(self).reading(
                    var,
                    Some(found.value@),
                    crate::num::spec_i64(found.value@),
                    "a signed integer (i64)"@,
                ));
                r
            },
            Err(e) => {
                Err(e)
            },
        }
    }

    /// Expands the variable that `v` refers to, read as an unsigned integer of 8 bits.
    ///
    /// Fails where `v` refers to no variable, where the lookup does not know
    /// the variable, and where its value does not read as one.
    pub fn expand_u8(&mut self, v: &str) -> (r: Result<u8, Error>)
        ensures
            final(self).prefix() == old(self).prefix(),
            final(self).suffix() == old(self).suffix(),
            match old(self).variable(v@) {
                None => r matches Err(e) && e@ == Self::literal(v@, "an unsigned integer (i8)"@)
                    && final(self).inner() == old(self).inner(),
                Some(var) => (r matches Err(e) && e@ == old(self).missing(var))
                    || exists|value: Seq<char>|
                    crate::error::seen(r) == #[trigger] old(self).reading(
                        var,
                        Some(value),
                        crate::num::spec_u8(value),
                        "an unsigned integer (i8)"@,
                    ),
            },
    {
        let ghost var = old(self).variable(v@)->Some_0;
        match self.require(v, "an unsigned integer (i8)") {
            Ok(found) => {
                let read = crate::num::parse_u8(found.value.as_str());
                let r = self.parsed(&found, read, "an unsigned integer (i8)");
                assert(crate::error::seen(r) == old(self).reading(
                    var,
                    Some(found.value@),
                    crate::num::spec_u8(found.value@),
                    "an unsigned integer (i8)"@,
                ));
                r
            },
            Err(e) => {
                Err(e)
            },
        }
    }

    /// Expands the variable that `v` refers to, read as an unsigned integer of 16 bits.
    ///
    /// Fails where `v` refers to no variable, where the lookup does not know
    /// the variable, and where its value does not read as one.
    pub fn expand_u16(&mut self, v: &str) -> (r: Result<u16, Error>)
        ensures
            final(self).prefix() == old(self).prefix(),
            final(self).suffix() == old(self).suffix(),
            match old(self).variable(v@) {
                None => r matches Err(e) && e@ == Self::literal(v@, "an unsigned integer (i16)"@)
                    && final(self).inner() == old(self).inner(),
                Some(var) => (r matches Err(e) && e@ == old(self).missing(var))
                    || exists|value: Seq<char>|
                    crate::error::seen(r) == #[trigger] old(self).reading(
                        var,
                        Some(value),
                        crate::num::spec_u16(value),
                        "an unsigned integer (i16)"@,
                    ),
            },
    {
        let ghost var = old(self).variable(v@)->Some_0;
        match self.require(v, "an unsigned integer (i16)") {
            Ok(found) => {
                let read = crate::num::parse_u16(found.value.as_str());
                let r = self.parsed(&found, read, "an unsigned integer (i16)");
                assert(crate::error::seen(r) == old(self).reading(
                    var,
                    Some(found.value@),
                    crate::num::spec_u16(found.value@),
                    "an unsigned integer (i16)"@,
                ));
                r
            },
            Err(e) => {
                Err(e)
            },
        }
    }

    /// Expands the variable that `v` refers to, read as an unsigned integer of 32 bits.
    ///
    /// Fails where `v` refers to no variable, where the lookup does not know
    /// the variable, and where its value does not read as one.
    pub fn expand_u32(&mut self, v: &str) -> (r: Result<u32, Error>)
        ensures
            final(self).prefix() == old(self).prefix(),
            final(self).suffix() == old(self).suffix(),
            match old(self).variable(v@) {
                None => r matches Err(e) && e@ == Self::literal(v@, "an unsigned integer (i32)"@)
                    && final(self).inner() == old(self).inner(),
                Some(var) => (r matches Err(e) && e@ == old(self).missing(var))
                    || exists|value: Seq<char>|
                    crate::error::seen(r) == #[trigger] old(self).reading(
                        var,
                        Some(value),
                        crate::num::spec_u32(value),
                        "an unsigned integer (i32)"@,
                    ),
            },
    {
        let ghost var = old(self).variable(v@)->Some_0;
        match self.require(v, "an unsigned integer (i32)") {
            Ok(found) => {
                let read = crate::num::parse_u32(found.value.as_str());
                let r = self.parsed(&found, read, "an unsigned integer (i32)");
                assert(crate::error::seen(r) == old(self).reading(
                    var,
                    Some(found.value@),
                    crate::num::spec_u32(found.value@),
                    "an unsigned integer (i32)"@,
                ));
                r
            },
            Err(e) => {
                Err(e)
            },
        }
    }

    /// Expands the variable that `v` refers to, read as an unsigned integer of 64 bits.
    ///
    /// Fails where `v` refers to no variable, where the lookup does not know
    /// the variable, and where its value does not read as one.
    pub fn expand_u64(&mut self, v: &str) -> (r: Result<u64, Error>)
        ensures
            final(self).prefix() == old(self).prefix(),
            final(self).suffix() == old(self).suffix(),
            match old(self).variable(v@) {
                None => r matches Err(e) && e@ == Self::literal(v@, "an unsigned integer (i64)"@)
                    && final(self).inner() == old(self).inner(),
                Some(var) => (r matches Err(e) && e@ == old(self).missing(var))
                    || exists|value: Seq<char>|
                    crate::error::seen(r) == #[trigger] old(self).reading(
                        var,
                        Some(value),
                        crate::num::spec_u64(value),
                        "an unsigned integer (i64)"@,
                    ),
            },
    {
        let ghost var = old(self).variable(v@)->Some_0;
        match self.require(v, "an unsigned integer (i64)") {
            Ok(found) => {
                let read = crate::num::parse_u64(found.value.as_str());
                let r = self.parsed(&found, read, "an unsigned integer (i64)");
                assert(crate::error::seen(r) == old(self).reading(
                    var,
                    Some(found.value@),
                    crate::num::spec_u64(found.value@),
                    "an unsigned integer (i64)"@,
                ));
                r
            },
            Err(e) => {
                Err(e)
            },
        }
    }
}

/// Whether `r` is `s` without the pair of double quotes around it: a new text
/// where there is such a pair, and `s` itself where there is none.
pub open spec fn stripped<'a>(s: Cow<'a, str>, r: Cow<'a, str>) -> bool {
    match crate::text::enclosed(s@, "\""@, "\""@) {
        Some(inner) => r matches Cow::Owned(o) && o@ == inner,
        None => r == s,
    }
}

/// Takes a pair of double quotes from around a value.
pub fn strip_str<'a>(s: Cow<'a, str>) -> (r: Cow<'a, str>)
    ensures
        stripped(s, r),
{
    let inner = match crate::text::between(crate::source::utils::as_str(&s), "\"", "\"") {
        Some(inner) => Some(inner.to_owned()),
        None => None,
    };
    match inner {
        Some(inner) => Cow::Owned(inner),
        None => s,
    }
}

/// Finds the shape of a value, as [`inferred`](crate::source::utils::inferred)
/// says; what has none is a text, and is taken out of its double quotes.
///
/// `as_double` is the bit pattern of the floating point number that `s` reads
/// as, or nothing.
pub fn parse<'a>(s: Cow<'a, str>, as_double: Option<u64>) -> (r: Any<'a>)
    ensures
        match crate::source::utils::inferred(s@, as_double) {
            Some(leaf) => r@ == leaf,
            None => r matches Any::Str(t) && stripped(s, t),
        },
{
    match crate::source::utils::number(crate::source::utils::as_str(&s), as_double) {
        Some(any) => any,
        None => Any::Str(strip_str(s)),
    }
}

} // verus!
