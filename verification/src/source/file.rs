//! A source whose variables are files.
//!
//! A leaf refers to a file where it stands between the two marks of a
//! [`Variable`]; what stands between them is the path. This module decides
//! what the reference means and what the contents of the file are taken to be.
//! It opens no file: whoever does hands the contents over.

use std::borrow::Cow;
use std::path::{Path, PathBuf};
use vstd::prelude::*;
use crate::error::{Error, ErrorView, Unexpected, UnexpectedView};
use crate::leaf::{Held, Leaf};
use crate::source::utils::Variable;
use crate::source::{Any, Found};

verus! {

/// `std::path::PathBuf`, of which nothing is known but that it is a value.
#[verifier::external_type_specification]
#[verifier::external_body]
pub struct ExPathBuf(PathBuf);

/// `std::path::Path`, of which nothing is known but that it is a value.
#[verifier::external_type_specification]
#[verifier::external_body]
pub struct ExPath(Path);

/// `Path::is_absolute`: whether the path needs no directory to start from.
/// The answer depends on the platform, and nothing is claimed of it.
#[verifier::external_body]
fn is_absolute(path: &Path) -> (r: bool) {
    path.is_absolute()
}

/// `Path::join`: the path `path` as seen from `base`. Nothing is claimed of it.
#[verifier::external_body]
fn join(base: &Path, path: &Path) -> (r: PathBuf) {
    base.join(path)
}

/// `PathBuf::as_path`: the path inside the buffer. Nothing is claimed of it.
#[verifier::external_body]
fn as_path(base: &PathBuf) -> (r: &Path) {
    base.as_path()
}

/// `PathBuf::new`: an empty path. Nothing is claimed of it.
#[verifier::external_body]
fn empty_path() -> (r: PathBuf) {
    PathBuf::new()
}

/// A source that reads the values of its variables from files.
///
/// The contents of a file are read as the shape that was requested. Where none
/// was, they are taken to be a boolean, an unsigned, a signed or a floating
/// point number, in this order, a text if they are valid UTF-8, and bytes
/// otherwise. Unlike a [`StringSource`](crate::source::StringSource) this
/// source leaves double quotes where they are.
///
/// Paths in documents are followed wherever they lead: the source is not for
/// documents from strangers.
#[derive(Debug)]
pub struct FileSource {
    base_path: PathBuf,
    variable: Variable,
}

impl FileSource {
    /// The directory that relative paths start from.
    pub closed spec fn base_path(&self) -> PathBuf {
        self.base_path
    }

    /// The mark in front of a path.
    pub closed spec fn prefix(&self) -> Seq<char> {
        self.variable.prefix@
    }

    /// The mark behind a path.
    pub closed spec fn suffix(&self) -> Seq<char> {
        self.variable.suffix@
    }

    /// The path that `text` refers to, if it refers to a file.
    pub open spec fn variable(&self, text: Seq<char>) -> Option<Seq<char>> {
        crate::text::enclosed(text, self.prefix(), self.suffix())
    }

    /// The path that `bytes` refer to, if they refer to a file.
    pub open spec fn variable_bytes(&self, bytes: Seq<u8>) -> Option<Seq<u8>> {
        crate::text::enclosed(
            bytes,
            vstd::utf8::encode_utf8(self.prefix()),
            vstd::utf8::encode_utf8(self.suffix()),
        )
    }

    /// The reference to the file `var`, as a document writes it.
    pub open spec fn reference(&self, var: Seq<char>) -> Seq<char> {
        self.prefix() + var + self.suffix()
    }

    /// The error for a file that could not be read.
    pub open spec fn unread(&self, path: Seq<char>, var: Seq<char>, error: Seq<char>) -> ErrorView {
        ErrorView::Custom(
            "failed to read file `"@ + path + "` from variable `"@ + self.reference(var) + "`: "@
                + error,
        )
    }

    /// The error for a text that refers to no file where it has to.
    pub open spec fn literal(&self, v: Seq<char>, expected: Seq<char>) -> ErrorView {
        ErrorView::InvalidValue {
            unexpected: UnexpectedView::Str(v),
            expected: "expected "@ + expected + " or a file variable `"@ + self.reference("<var>"@)
                + "`"@,
        }
    }

    /// The error for a file whose contents have another shape than the one
    /// requested.
    pub open spec fn mismatched(
        &self,
        var: Seq<char>,
        unexpected: UnexpectedView,
        expected: Seq<char>,
    ) -> ErrorView {
        ErrorView::InvalidValue {
            unexpected,
            expected: "file contents of variable `"@ + self.reference(var) + "` to be "@ + expected,
        }
    }

    /// What comes of reading the leaf `v` as a value of one shape: `found` is
    /// the file that `v` refers to, with its contents, and `read` what the
    /// contents read as.
    pub open spec fn reading<V>(
        &self,
        v: Seq<char>,
        found: Option<Found>,
        read: Option<V>,
        expected: Seq<char>,
    ) -> Result<V, ErrorView> {
        match found {
            None => Err(self.literal(v, expected)),
            Some(f) => match read {
                Some(x) => Ok(x),
                None => Err(self.mismatched(f.var@, UnexpectedView::Str(f.value@), expected)),
            },
        }
    }

    /// Creates a source with the marks `${` and `}`, whose relative paths
    /// start from the working directory.
    pub fn new() -> (r: Self)
        ensures
            r.prefix() == "${"@,
            r.suffix() == "}"@,
    {
        FileSource { base_path: empty_path(), variable: Variable::default() }
    }

    /// Sets the directory that relative paths start from.
    pub fn with_base_path(self, path: PathBuf) -> (r: Self)
        ensures
            r.base_path() == path,
            r.prefix() == self.prefix(),
            r.suffix() == self.suffix(),
    {
        FileSource { base_path: path, variable: self.variable }
    }

    /// Changes the mark in front of a path.
    pub fn with_variable_prefix(self, prefix: &str) -> (r: Self)
        ensures
            r.prefix() == prefix@,
            r.suffix() == self.suffix(),
            r.base_path() == self.base_path(),
    {
        let FileSource { base_path, variable } = self;
        FileSource {
            base_path,
            variable: Variable { prefix: prefix.to_owned(), suffix: variable.suffix },
        }
    }

    /// Changes the mark behind a path.
    pub fn with_variable_suffix(self, suffix: &str) -> (r: Self)
        ensures
            r.prefix() == self.prefix(),
            r.suffix() == suffix@,
            r.base_path() == self.base_path(),
    {
        let FileSource { base_path, variable } = self;
        FileSource {
            base_path,
            variable: Variable { prefix: variable.prefix, suffix: suffix.to_owned() },
        }
    }

    /// The path of the file that `v` refers to, if it refers to one.
    pub fn parse_str<'a>(&self, v: &'a str) -> (r: Option<&'a str>)
        ensures
            crate::text::found(r) == self.variable(v@),
    {
        self.variable.parse_str(v)
    }

    /// The path of the file that the bytes `v` refer to, if they refer to one.
    pub fn parse_bytes<'a>(&self, v: &'a [u8]) -> (r: Option<&'a [u8]>)
        ensures
            crate::text::found_bytes(r) == self.variable_bytes(v@),
    {
        self.variable.parse_bytes(v)
    }

    /// The path to open for `path`: `path` itself where the platform takes it
    /// for absolute, and otherwise a new path that the platform makes of the
    /// base directory and `path`.
    pub fn resolve_path<'a>(&self, path: &'a Path) -> (r: Cow<'a, Path>)
        ensures
            r matches Cow::Borrowed(p) ==> p == path,
    {
        if is_absolute(path) {
            Cow::Borrowed(path)
        } else {
            Cow::Owned(join(as_path(&self.base_path), path))
        }
    }

    /// The error for the file at `path`, named by the variable `var`, that
    /// could not be read; `error` says why.
    pub fn io_error(&self, path: &str, var: &str, error: &str) -> (r: Error)
        ensures
            r@ == self.unread(path@, var@, error@),
    {
        let mut message = "failed to read file `".to_owned();
        message.append(path);
        message.append("` from variable `");
        message.append(self.variable.fmt(var).as_str());
        message.append("`: ");
        message.append(error);
        assert(message@ =~= "failed to read file `"@ + path@ + "` from variable `"@
            + self.reference(var@) + "`: "@ + error@);
        Error::Custom(message)
    }

    /// The error for the text `v`, which refers to no file where only a file
    /// can give what is `expected`.
    pub fn expected_variable(&self, v: &str, expected: &str) -> (r: Error)
        ensures
            r@ == self.literal(v@, expected@),
    {
        let mut message = "expected ".to_owned();
        message.append(expected);
        message.append(" or a file variable `");
        message.append(self.variable.fmt("<var>").as_str());
        message.append("`");
        assert(message@ =~= "expected "@ + expected@ + " or a file variable `"@ + self.reference(
            "<var>"@,
        ) + "`"@);
        Error::InvalidValue { unexpected: Unexpected::Str(v.to_owned()), expected: message }
    }

    /// The error for the file `var`, whose contents are `unexpected` and not
    /// what is `expected`.
    pub fn mismatched_type(&self, var: &str, unexpected: Unexpected, expected: &str) -> (r: Error)
        ensures
            r@ == self.mismatched(var@, unexpected@, expected@),
    {
        let mut message = "file contents of variable `".to_owned();
        message.append(self.variable.fmt(var).as_str());
        message.append("` to be ");
        message.append(expected);
        assert(message@ =~= "file contents of variable `"@ + self.reference(var@) + "` to be "@
            + expected@);
        Error::InvalidValue { unexpected, expected: message }
    }

    /// Concludes the reading of the leaf `v` as a value of one shape.
    ///
    /// `found` is the file that `v` refers to, with its contents, or nothing
    /// where `v` refers to no file; `read` is what the contents read as, or
    /// nothing where they do not read as what is `expected`.
    pub fn parsed<V>(&self, v: &str, found: Option<&Found>, read: Option<V>, expected: &str) -> (r:
        Result<V, Error>)
        ensures
            crate::error::seen(r) == self.reading(
                v@,
                match found {
                    Some(f) => Some(*f),
                    None => None,
                },
                read,
                expected@,
            ),
    {
        match found {
            None => Err(self.expected_variable(v, expected)),
            Some(f) => match read {
                Some(x) => Ok(x),
                None => Err(
                    self.mismatched_type(f.var.as_str(), Unexpected::Str(f.value.clone()), expected),
                ),
            },
        }
    }

    /// Reads the file that `v` refers to as a boolean; `found` is that file with
    /// its contents, or nothing where `v` refers to no file.
    pub fn expand_bool(&self, v: &str, found: Option<&Found>) -> (r: Result<bool, Error>)
        ensures
            crate::error::seen(r) == self.reading(
                v@,
                match found {
                    Some(f) => Some(*f),
                    None => None,
                },
                match found {
                    Some(f) => crate::num::boolean(f.value@),
                    None => None,
                },
                "a boolean"@,
            ),
    {
        let read = match found {
            Some(f) => crate::num::parse_bool(f.value.as_str()),
            None => None,
        };
        self.parsed(v, found, read, "a boolean")
    }

    /// Reads the file that `v` refers to as a signed integer of 8 bits; `found` is that file with
    /// its contents, or nothing where `v` refers to no file.
    pub fn expand_i8(&self, v: &str, found: Option<&Found>) -> (r: Result<i8, Error>)
        ensures
            crate::error::seen(r) == self.reading(
                v@,
                match found {
                    Some(f) => Some(*f),
                    None => None,
                },
                match found {
                    Some(f) => crate::num::spec_i8(f.value@),
                    None => None,
                },
                "a signed integer (i8)"@,
            ),
    {
        let read = match found {
            Some(f) => crate::num::parse_i8(f.value.as_str()),
            None => None,
        };
        self.parsed(v, found, read, "a signed integer (i8)")
    }

    /// Reads the file that `v` refers to as a signed integer of 16 bits; `found` is that file with
    /// its contents, or nothing where `v` refers to no file.
    pub fn expand_i16(&self, v: &str, found: Option<&Found>) -> (r: Result<i16, Error>)
        ensures
            crate::error::seen(r) == self.reading(
                v@,
                match found {
                    Some(f) => Some(*f),
                    None => None,
                },
                match found {
                    Some(f) => crate::num::spec_i16(f.value@),
                    None => None,
                },
                "a signed integer (i16)"@,
            ),
    {
        let read = match found {
            Some(f) => crate::num::parse_i16(f.value.as_str()),
            None => None,
        };
        self.parsed(v, found, read, "a signed integer (i16)")
    }

    /// Reads the file that `v` refers to as a signed integer of 32 bits; `found` is that file with
    /// its contents, or nothing where `v` refers to no file.
    pub fn expand_i32(&self, v: &str, found: Option<&Found>) -> (r: Result<i32, Error>)
        ensures
            crate::error::seen(r) == self.reading(
                v@,
                match found {
                    Some(f) => Some(*f),
                    None => None,
                },
                match found {
                    Some(f) => crate::num::spec_i32(f.value@),
                    None => None,
                },
                "a signed integer (i32)"@,
            ),
    {
        let read = match found {
            Some(f) => crate::num::parse_i32(f.value.as_str()),
            None => None,
        };
        self.parsed(v, found, read, "a signed integer (i32)")
    }

    /// Reads the file that `v` refers to as a signed integer of 64 bits; `found` is that file with
    /// its contents, or nothing where `v` refers to no file.
    pub fn expand_i64(&self, v: &str, found: Option<&Found>) -> (r: Result<i64, Error>)
        ensures
            crate::error::seen(r) == self.reading(
                v@,
                match found {
                    Some(f) => Some(*f),
                    None => None,
                },
                match found {
                    Some(f) => crate::num::spec_i64(f.value@),
                    None => None,
                },
                "a signed integer (i64)"@,
            ),
    {
        let read = match found {
            Some(f) => crate::num::parse_i64(f.value.as_str()),
            None => None,
        };
        self.parsed(v, found, read, "a signed integer (i64)")
    }

    /// Reads the file that `v` refers to as an unsigned integer of 8 bits; `found` is that file with
    /// its contents, or nothing where `v` refers to no file.
    pub fn expand_u8(&self, v: &str, found: Option<&Found>) -> (r: Result<u8, Error>)
        ensures
            crate::error::seen(r) == self.reading(
                v@,
                match found {
                    Some(f) => Some(*f),
                    None => None,
                },
                match found {
                    Some(f) => crate::num::spec_u8(f.value@),
                    None => None,
                },
                "an unsigned integer (i8)"@,
            ),
    {
        let read = match found {
            Some(f) => crate::num::parse_u8(f.value.as_str()),
            None => None,
        };
        self.parsed(v, found, read, "an unsigned integer (i8)")
    }

    /// Reads the file that `v` refers to as an unsigned integer of 16 bits; `found` is that file with
    /// its contents, or nothing where `v` refers to no file.
    pub fn expand_u16(&self, v: &str, found: Option<&Found>) -> (r: Result<u16, Error>)
        ensures
            crate::error::seen(r) == self.reading(
                v@,
                match found {
                    Some(f) => Some(*f),
                    None => None,
                },
                match found {
                    Some(f) => crate::num::spec_u16(f.value@),
                    None => None,
                },
                "an unsigned integer (i16)"@,
            ),
    {
        let read = match found {
            Some(f) => crate::num::parse_u16(f.value.as_str()),
            None => None,
        };
        self.parsed(v, found, read, "an unsigned integer (i16)")
    }

    /// Reads the file that `v` refers to as an unsigned integer of 32 bits; `found` is that file with
    /// its contents, or nothing where `v` refers to no file.
    pub fn expand_u32(&self, v: &str, found: Option<&Found>) -> (r: Result<u32, Error>)
        ensures
            crate::error::seen(r) == self.reading(
                v@,
                match found {
                    Some(f) => Some(*f),
                    None => None,
                },
                match found {
                    Some(f) => crate::num::spec_u32(f.value@),
                    None => None,
                },
                "an unsigned integer (i32)"@,
            ),
    {
        let read = match found {
            Some(f) => crate::num::parse_u32(f.value.as_str()),
            None => None,
        };
        self.parsed(v, found, read, "an unsigned integer (i32)")
    }

    /// Reads the file that `v` refers to as an unsigned integer of 64 bits; `found` is that file with
    /// its contents, or nothing where `v` refers to no file.
    pub fn expand_u64(&self, v: &str, found: Option<&Found>) -> (r: Result<u64, Error>)
        ensures
            crate::error::seen(r) == self.reading(
                v@,
                match found {
                    Some(f) => Some(*f),
                    None => None,
                },
                match found {
                    Some(f) => crate::num::spec_u64(f.value@),
                    None => None,
                },
                "an unsigned integer (i64)"@,
            ),
    {
        let read = match found {
            Some(f) => crate::num::parse_u64(f.value.as_str()),
            None => None,
        };
        self.parsed(v, found, read, "an unsigned integer (i64)")
    }

    /// Expands the text `v` to a text; `found` is the file that `v` refers to,
    /// with its contents, or nothing where `v` refers to no file.
    ///
    /// A text that refers to no file is handed back as it came. The contents
    /// of a file are taken for the text that they are; contents that have the
    /// shape of a boolean or of a number are no text, and are refused.
    /// `as_double` is the bit pattern of the floating point number that the
    /// contents read as, or nothing.
    pub fn expand_str<'a>(
        &self,
        v: Cow<'a, str>,
        found: Option<Found>,
        as_double: Option<u64>,
    ) -> (r: Result<Cow<'a, str>, Error>)
        ensures
            match found {
                None => r == Ok::<Cow<'a, str>, Error>(v),
                Some(f) => match crate::source::utils::inferred(f.value@, as_double) {
                    None => r == Ok::<Cow<'a, str>, Error>(Cow::Owned(f.value)),
                    Some(leaf) => r matches Err(e) && e@ == self.mismatched(
                        f.var@,
                        crate::content::unexpected_of(leaf),
                        "a string"@,
                    ),
                },
            },
    {
        match found {
            None => Ok(v),
            Some(f) => {
                let Found { var, value } = f;
                match crate::source::utils::parse(Cow::Owned(value), as_double) {
                    Any::Str(s) => Ok(s),
                    other => Err(self.mismatched_type(var.as_str(), other.unexpected(), "a string")),
                }
            },
        }
    }

    /// Expands the bytes `v` to bytes; `contents` are the contents of the file
    /// that `v` refers to, or nothing where `v` refers to no file.
    ///
    /// Bytes that refer to no file are handed back as they came; the contents
    /// of a file are handed on as they are.
    pub fn expand_bytes<'a>(&self, v: Cow<'a, [u8]>, contents: Option<Vec<u8>>) -> (r: Cow<'a, [u8]>)
        ensures
            match contents {
                None => r == v,
                Some(c) => r == Cow::<'a, [u8]>::Owned(c),
            },
    {
        match contents {
            None => v,
            Some(c) => Cow::Owned(c),
        }
    }

    /// Expands the text `v` to a value of the shape that the contents of its
    /// file are taken to have; `contents` are those contents, or nothing where
    /// `v` refers to no file.
    ///
    /// A text that refers to no file is handed back as it came. Contents that
    /// are no valid UTF-8 are bytes. `as_double` is the bit pattern of the
    /// floating point number that the contents read as, or nothing.
    pub fn expand_any<'a>(
        &self,
        v: Cow<'a, str>,
        contents: Option<Vec<u8>>,
        as_double: Option<u64>,
    ) -> (r: Any<'a>)
        ensures
            match contents {
                None => r == Any::Str(v),
                Some(c) => if vstd::utf8::valid_utf8(c@) {
                    r@ == match crate::source::utils::inferred(
                        vstd::utf8::decode_utf8(c@),
                        as_double,
                    ) {
                        Some(leaf) => leaf,
                        None => Leaf::Text(vstd::utf8::decode_utf8(c@), Held::Owned),
                    }
                } else {
                    r == Any::<'a>::Bytes(Cow::Owned(c))
                },
            },
    {
        match contents {
            None => Any::Str(v),
            Some(c) => {
                let text = match crate::text::from_utf8(c.as_slice()) {
                    Some(text) => Some(text.to_owned()),
                    None => None,
                };
                match text {
                    Some(text) => {
                        proof {
                            vstd::utf8::encode_utf8_valid_utf8(text@);
                            vstd::utf8::encode_utf8_decode_utf8(text@);
                        }
                        crate::source::utils::parse(Cow::Owned(text), as_double)
                    },
                    None => Any::Bytes(Cow::Owned(c)),
                }
            },
        }
    }
}

impl Default for FileSource {
    fn default() -> (r: Self)
        ensures
            r.prefix() == "${"@,
            r.suffix() == "}"@,
    {
        Self::new()
    }
}

} // verus!
