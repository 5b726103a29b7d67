use std::borrow::Cow;
use std::collections::HashMap;

use serde_vars::source::string::{parse, strip_str};
use serde_vars::source::{Any, Found, MapSource, StringLookup, StringSource};
use serde_vars::{Error, Unexpected};

fn source(entries: &[(&str, &str)]) -> MapSource {
    StringSource::new(entries.iter().map(|(k, v)| (k.to_string(), v.to_string())).collect())
}

fn read_double(text: &str) -> Option<u64> {
    text.parse::<f64>().ok().map(f64::to_bits)
}

fn expand_any<'a>(source: &mut MapSource, v: &'a str) -> Result<Any<'a>, Error> {
    let found = source.find(v)?;
    let as_double = found.as_ref().and_then(|f| read_double(&f.value));
    Ok(source.expand_any(Cow::Borrowed(v), found, as_double))
}

fn expand_str<'a>(source: &mut MapSource, v: &'a str) -> Result<Cow<'a, str>, Error> {
    let found = source.find(v)?;
    let as_double = found.as_ref().and_then(|f| read_double(&f.value));
    source.expand_str(Cow::Borrowed(v), found, as_double)
}

fn invalid(unexpected: Unexpected, expected: &str) -> Error {
    Error::InvalidValue { unexpected, expected: expected.to_owned() }
}

/// A lookup that counts how often it is asked.
#[derive(Default)]
struct Counting(usize);

impl StringLookup for Counting {
    fn lookup(&mut self, v: &str) -> Option<String> {
        self.0 += 1;
        Some(v.to_uppercase())
    }
}

#[test]
fn test_default_marks() {
    let s = source(&[]);
    assert_eq!(s.parse_var("${X}"), Some("X"));
    assert_eq!(s.parse_var("${}"), Some(""));
    assert_eq!(s.parse_var("$X"), None);
    assert_eq!(s.parse_var("X"), None);
    assert_eq!(s.parse_var(" ${X}"), None);
    let s = MapSource::default();
    assert_eq!(s.parse_var("${X}"), Some("X"));
}

#[test]
fn test_custom_marks() {
    let s = source(&[]).with_variable_prefix("$").with_variable_suffix("");
    assert_eq!(s.parse_var("$MY_VAR"), Some("MY_VAR"));
    assert_eq!(s.parse_var("${X}"), Some("{X}"));
    assert_eq!(s.parse_var("MY_VAR"), None);
    let s = source(&[]).with_variable_suffix("]]").with_variable_prefix("[[");
    assert_eq!(s.parse_var("[[a]]"), Some("a"));
    assert_eq!(s.parse_var("${a}"), None);
}

#[test]
fn test_into_inner_gives_the_lookup_back() {
    let map: HashMap<String, String> = [("a".to_owned(), "b".to_owned())].into();
    let s = StringSource::new(map.clone()).with_variable_prefix("<");
    assert_eq!(s.into_inner(), map);
}

#[test]
fn test_map_lookup() {
    let mut map: HashMap<String, String> = [("a".to_owned(), "b".to_owned())].into();
    let before = map.clone();
    assert_eq!(map.lookup("a"), Some("b".to_owned()));
    assert_eq!(map.lookup("b"), None);
    assert_eq!(map.lookup(""), None);
    assert_eq!(map, before);
}

#[test]
fn test_find() {
    let mut s = source(&[("FOO", "bar")]);
    assert_eq!(s.find("plain"), Ok(None));
    assert_eq!(s.find("${FOO}"), Ok(Some(Found { var: "FOO".to_owned(), value: "bar".to_owned() })));
    assert_eq!(
        s.find("${NOPE}"),
        Err(Error::Custom("got variable `${NOPE}`, but it does not exist".to_owned()))
    );
    assert_eq!(s.find_bytes(b"plain"), Ok(None));
    assert_eq!(s.find_bytes(&[0xff, 0xfe]), Ok(None));
    assert_eq!(
        s.find_bytes(b"${FOO}"),
        Ok(Some(Found { var: "FOO".to_owned(), value: "bar".to_owned() }))
    );
    assert_eq!(
        s.find_bytes(b"${NOPE}"),
        Err(Error::Custom("got variable `${NOPE}`, but it does not exist".to_owned()))
    );
}

#[test]
fn test_lookup_is_left_alone_for_plain_text() {
    let mut s = StringSource::new(Counting::default());
    assert_eq!(s.find("plain"), Ok(None));
    assert!(s.expand_u8("plain").is_err());
    assert_eq!(s.find("${x}").unwrap().unwrap().value, "X");
    assert_eq!(s.into_inner().0, 1);
}

#[test]
fn test_require() {
    let mut s = source(&[("FOO", "bar")]);
    assert_eq!(
        s.require("${FOO}", "a boolean"),
        Ok(Found { var: "FOO".to_owned(), value: "bar".to_owned() })
    );
    assert_eq!(
        s.require("plain", "a boolean"),
        Err(invalid(Unexpected::Str("plain".to_owned()), "expected a boolean or a variable"))
    );
    assert_eq!(
        s.require("${NOPE}", "a boolean"),
        Err(Error::Custom("got variable `${NOPE}`, but it does not exist".to_owned()))
    );
}

#[test]
fn test_error_messages_carry_the_marks() {
    let s = source(&[]).with_variable_prefix("<<").with_variable_suffix(">>");
    assert_eq!(
        s.missing_variable("X"),
        Error::Custom("got variable `<<X>>`, but it does not exist".to_owned())
    );
    assert_eq!(
        s.mismatched_type("X", Unexpected::Bool(true), "a string"),
        invalid(Unexpected::Bool(true), "variable `<<X>>` to be a string")
    );
    assert_eq!(
        s.expected_variable("v", "a boolean"),
        invalid(Unexpected::Str("v".to_owned()), "expected a boolean or a variable")
    );
}

#[test]
fn test_parsed_concludes_a_reading() {
    let s = source(&[]);
    let found = Found { var: "X".to_owned(), value: "1.5".to_owned() };
    assert_eq!(s.parsed(&found, Some(7u64), "a floating point"), Ok(7));
    assert_eq!(
        s.parsed::<u64>(&found, None, "a floating point"),
        Err(invalid(Unexpected::Str("1.5".to_owned()), "variable `${X}` to be a floating point"))
    );
}

#[test]
fn test_lookup_of_each_integer() {
    let mut s = source(&[
        ("i8", "-2"),
        ("i16", "-200"),
        ("i32", "-2000"),
        ("i64", "-20000"),
        ("u8", "20"),
        ("u16", "200"),
        ("u32", "2000"),
        ("u64", "20000"),
        ("bool", "true"),
    ]);
    assert_eq!(s.expand_i8("${i8}"), Ok(-2));
    assert_eq!(s.expand_i16("${i16}"), Ok(-200));
    assert_eq!(s.expand_i32("${i32}"), Ok(-2000));
    assert_eq!(s.expand_i64("${i64}"), Ok(-20000));
    assert_eq!(s.expand_u8("${u8}"), Ok(20));
    assert_eq!(s.expand_u16("${u16}"), Ok(200));
    assert_eq!(s.expand_u32("${u32}"), Ok(2000));
    assert_eq!(s.expand_u64("${u64}"), Ok(20000));
    assert_eq!(s.expand_bool("${bool}"), Ok(true));
}

#[test]
fn test_missing_of_each_shape() {
    let mut s = MapSource::default();
    let missing =
        Error::Custom("got variable `${DOES_NOT_EXIST}`, but it does not exist".to_owned());
    let v = "${DOES_NOT_EXIST}";
    assert_eq!(s.expand_bool(v), Err(Error::Custom(missing_text())));
    assert_eq!(s.expand_i8(v).unwrap_err(), missing);
    assert_eq!(s.expand_i16(v).unwrap_err(), missing);
    assert_eq!(s.expand_i32(v).unwrap_err(), missing);
    assert_eq!(s.expand_i64(v).unwrap_err(), missing);
    assert_eq!(s.expand_u8(v).unwrap_err(), missing);
    assert_eq!(s.expand_u16(v).unwrap_err(), missing);
    assert_eq!(s.expand_u32(v).unwrap_err(), missing);
    assert_eq!(s.expand_u64(v).unwrap_err(), missing);
    assert_eq!(expand_str(&mut s, v).unwrap_err(), missing);
    assert_eq!(expand_any(&mut s, v).unwrap_err(), missing);
}

fn missing_text() -> String {
    "got variable `${DOES_NOT_EXIST}`, but it does not exist".to_owned()
}

#[test]
fn test_value_of_another_shape_is_refused() {
    let mut s = source(&[("X", "300"), ("Y", "yes"), ("Z", "-1")]);
    assert_eq!(
        s.expand_u8("${X}"),
        Err(invalid(
            Unexpected::Str("300".to_owned()),
            "variable `${X}` to be an unsigned integer (i8)"
        ))
    );
    assert_eq!(
        s.expand_bool("${Y}"),
        Err(invalid(Unexpected::Str("yes".to_owned()), "variable `${Y}` to be a boolean"))
    );
    assert_eq!(
        s.expand_u64("${Z}"),
        Err(invalid(
            Unexpected::Str("-1".to_owned()),
            "variable `${Z}` to be an unsigned integer (i64)"
        ))
    );
    assert_eq!(
        s.expand_i16("${Y}"),
        Err(invalid(
            Unexpected::Str("yes".to_owned()),
            "variable `${Y}` to be a signed integer (i16)"
        ))
    );
}

#[test]
fn test_literal_where_a_variable_is_due() {
    let mut s = source(&[]);
    let literal = |expected: &str| invalid(Unexpected::Str("12".to_owned()), expected);
    assert_eq!(s.expand_bool("12"), Err(literal("expected a boolean or a variable")));
    assert_eq!(s.expand_i8("12"), Err(literal("expected a signed integer (i8) or a variable")));
    assert_eq!(s.expand_i16("12"), Err(literal("expected a signed integer (i16) or a variable")));
    assert_eq!(s.expand_i32("12"), Err(literal("expected a signed integer (i32) or a variable")));
    assert_eq!(s.expand_i64("12"), Err(literal("expected a signed integer (i64) or a variable")));
    assert_eq!(s.expand_u8("12"), Err(literal("expected an unsigned integer (i8) or a variable")));
    assert_eq!(s.expand_u16("12"), Err(literal("expected an unsigned integer (i16) or a variable")));
    assert_eq!(s.expand_u32("12"), Err(literal("expected an unsigned integer (i32) or a variable")));
    assert_eq!(s.expand_u64("12"), Err(literal("expected an unsigned integer (i64) or a variable")));
}

#[test]
fn test_source_lookup_string() {
    let mut s = source(&[("FOO", "bAr")]);
    assert_eq!(expand_str(&mut s, "${FOO}"), Ok(Cow::Owned("bAr".to_owned())));
}

#[test]
fn test_source_lookup_string_wrapped() {
    let mut s = source(&[("FOO", "\"bAr\"")]);
    assert_eq!(expand_str(&mut s, "${FOO}"), Ok(Cow::Owned("bAr".to_owned())));
}

#[test]
fn test_source_lookup_string_int_wrapped() {
    let mut s = source(&[("FOO", "\"123\"")]);
    assert_eq!(expand_str(&mut s, "${FOO}"), Ok(Cow::Owned("123".to_owned())));
}

#[test]
fn test_string_without_variable_is_handed_back() {
    let mut s = source(&[("FOO", "bar")]);
    let r = expand_str(&mut s, "FOO");
    assert!(matches!(r, Ok(Cow::Borrowed("FOO"))));
    let r = s.expand_str(Cow::Owned("\"quoted\"".to_owned()), None, None);
    assert_eq!(r, Ok(Cow::Owned("\"quoted\"".to_owned())));
    let r = expand_any(&mut s, "123");
    assert_eq!(r, Ok(Any::Str(Cow::Borrowed("123"))));
    let r = s.expand_bytes(Cow::Borrowed(&[1, 2]), None, None);
    assert!(matches!(r, Ok(Cow::Borrowed(&[1, 2]))));
}

#[test]
fn test_source_invalid_string_bool() {
    let mut s = source(&[("MY_VAR", "true")]);
    assert_eq!(
        expand_str(&mut s, "${MY_VAR}"),
        Err(invalid(Unexpected::Bool(true), "variable `${MY_VAR}` to be a string"))
    );
}

#[test]
fn test_source_invalid_string_signed() {
    let mut s = source(&[("MY_VAR", "-123")]);
    assert_eq!(
        expand_str(&mut s, "${MY_VAR}"),
        Err(invalid(Unexpected::Signed(-123), "variable `${MY_VAR}` to be a string"))
    );
}

#[test]
fn test_source_invalid_string_unsigned() {
    let mut s = source(&[("MY_VAR", "123")]);
    assert_eq!(
        expand_str(&mut s, "${MY_VAR}"),
        Err(invalid(Unexpected::Unsigned(123), "variable `${MY_VAR}` to be a string"))
    );
}

#[test]
fn test_source_invalid_string_float() {
    let mut s = source(&[("MY_VAR", "-123.0")]);
    assert_eq!(
        expand_str(&mut s, "${MY_VAR}"),
        Err(invalid(
            Unexpected::Float64((-123.0f64).to_bits()),
            "variable `${MY_VAR}` to be a string"
        ))
    );
}

#[test]
fn test_bytes_are_expanded_as_text() {
    let mut s = source(&[("byte_buf", "aaa"), ("n", "1")]);
    let found = s.find_bytes(b"${byte_buf}").unwrap();
    assert_eq!(
        s.expand_bytes(Cow::Borrowed(b"${byte_buf}"), found, None),
        Ok(Cow::Owned(vec![97, 97, 97]))
    );
    let found = s.find_bytes(b"${n}").unwrap();
    assert_eq!(
        s.expand_bytes(Cow::Borrowed(b"${n}"), found, read_double("1")),
        Err(invalid(Unexpected::Unsigned(1), "variable `${n}` to be a string"))
    );
}

#[test]
fn test_inference_order() {
    let mut s = source(&[
        ("A", "true"),
        ("B", "123"),
        ("C", "-123"),
        ("D", "1.5"),
        ("E", "hello"),
        ("F", "false"),
        ("G", "18446744073709551615"),
        ("H", "18446744073709551616"),
        ("I", "\"true\""),
        ("J", "123 some more"),
        ("K", "+5"),
        ("L", "-0"),
        ("M", ""),
        ("N", "inf"),
    ]);
    assert_eq!(expand_any(&mut s, "${A}"), Ok(Any::Bool(true)));
    assert_eq!(expand_any(&mut s, "${B}"), Ok(Any::U64(123)));
    assert_eq!(expand_any(&mut s, "${C}"), Ok(Any::I64(-123)));
    assert_eq!(expand_any(&mut s, "${D}"), Ok(Any::F64(1.5f64.to_bits())));
    assert_eq!(expand_any(&mut s, "${E}"), Ok(Any::Str(Cow::Owned("hello".to_owned()))));
    assert_eq!(expand_any(&mut s, "${F}"), Ok(Any::Bool(false)));
    assert_eq!(expand_any(&mut s, "${G}"), Ok(Any::U64(u64::MAX)));
    assert_eq!(expand_any(&mut s, "${H}"), Ok(Any::F64(18446744073709551616f64.to_bits())));
    assert_eq!(expand_any(&mut s, "${I}"), Ok(Any::Str(Cow::Owned("true".to_owned()))));
    assert_eq!(expand_any(&mut s, "${J}"), Ok(Any::Str(Cow::Owned("123 some more".to_owned()))));
    assert_eq!(expand_any(&mut s, "${K}"), Ok(Any::U64(5)));
    assert_eq!(expand_any(&mut s, "${L}"), Ok(Any::I64(0)));
    assert_eq!(expand_any(&mut s, "${M}"), Ok(Any::Str(Cow::Owned(String::new()))));
    assert_eq!(expand_any(&mut s, "${N}"), Ok(Any::F64(f64::INFINITY.to_bits())));
}

#[test]
fn test_inference_prefers_the_earlier_shape() {
    // `123` reads as an unsigned, as a signed and as a floating point number.
    assert_eq!(parse(Cow::Borrowed("123"), read_double("123")), Any::U64(123));
    // A reading that is offered for a boolean does not make it a number.
    assert_eq!(parse(Cow::Borrowed("true"), Some(0)), Any::Bool(true));
    assert_eq!(parse(Cow::Borrowed("-1"), read_double("-1")), Any::I64(-1));
    assert_eq!(parse(Cow::Borrowed("-1.0"), read_double("-1.0")), Any::F64((-1.0f64).to_bits()));
    assert_eq!(parse(Cow::Borrowed("x"), None), Any::Str(Cow::Borrowed("x")));
}

#[test]
fn test_strip_str() {
    assert_eq!(strip_str(Cow::Borrowed("\"a\"")), Cow::Borrowed("a"));
    assert!(matches!(strip_str(Cow::Borrowed("\"a\"")), Cow::Owned(_)));
    assert!(matches!(strip_str(Cow::Borrowed("a")), Cow::Borrowed("a")));
    assert!(matches!(strip_str(Cow::Borrowed("\"a")), Cow::Borrowed("\"a")));
    assert!(matches!(strip_str(Cow::Borrowed("a\"")), Cow::Borrowed("a\"")));
    assert!(matches!(strip_str(Cow::Borrowed("\"")), Cow::Borrowed("\"")));
    assert_eq!(strip_str(Cow::Borrowed("\"\"")), Cow::Borrowed(""));
    assert_eq!(strip_str(Cow::Borrowed("\"\"a\"\"")), Cow::Borrowed("\"a\""));
    assert_eq!(strip_str(Cow::Owned("\"a\"".to_owned())), Cow::Borrowed("a"));
}
