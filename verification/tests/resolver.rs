use std::borrow::Cow;

use serde_vars::content::Content;
use serde_vars::de::{
    ask, plan, replay, take, watch, ContentVarDeserializer, Deserializer, Mode, Question, Route,
    Slot, Step, Wrap,
};
use serde_vars::source::{Any, Source};
use serde_vars::value::Raw;
use serde_vars::{Error, Shape, Unexpected, Visit};

/// A source with one answer for each request, which counts how often it is
/// asked and keeps what it was asked with.
#[derive(Default)]
struct Stub {
    asked: Vec<String>,
    fail: bool,
}

impl Stub {
    fn ask<T>(&mut self, what: &str, v: &str, answer: T) -> Result<T, Error> {
        self.asked.push(format!("{what}:{v}"));
        if self.fail {
            Err(Error::Custom(format!("no {v}")))
        } else {
            Ok(answer)
        }
    }
}

impl Source for Stub {
    fn expand_bool(&mut self, v: &str) -> Result<bool, Error> {
        self.ask("bool", v, true)
    }

    fn expand_i8(&mut self, v: &str) -> Result<i8, Error> {
        self.ask("i8", v, -8)
    }

    fn expand_i16(&mut self, v: &str) -> Result<i16, Error> {
        self.ask("i16", v, -16)
    }

    fn expand_i32(&mut self, v: &str) -> Result<i32, Error> {
        self.ask("i32", v, -32)
    }

    fn expand_i64(&mut self, v: &str) -> Result<i64, Error> {
        self.ask("i64", v, -64)
    }

    fn expand_u8(&mut self, v: &str) -> Result<u8, Error> {
        self.ask("u8", v, 8)
    }

    fn expand_u16(&mut self, v: &str) -> Result<u16, Error> {
        self.ask("u16", v, 16)
    }

    fn expand_u32(&mut self, v: &str) -> Result<u32, Error> {
        self.ask("u32", v, 32)
    }

    fn expand_u64(&mut self, v: &str) -> Result<u64, Error> {
        self.ask("u64", v, 64)
    }

    fn expand_f32(&mut self, v: &str) -> Result<u32, Error> {
        self.ask("f32", v, 1.5f32.to_bits())
    }

    fn expand_f64(&mut self, v: &str) -> Result<u64, Error> {
        self.ask("f64", v, 2.5f64.to_bits())
    }

    fn expand_str<'a>(&mut self, v: Cow<'a, str>) -> Result<Cow<'a, str>, Error> {
        let held = if matches!(v, Cow::Borrowed(_)) { "str&" } else { "str" };
        let text = v.to_string();
        if v.starts_with('$') {
            self.ask(held, &text, Cow::Owned("resolved".to_owned()))
        } else {
            self.ask(held, &text, v)
        }
    }

    fn expand_bytes<'a>(&mut self, v: Cow<'a, [u8]>) -> Result<Cow<'a, [u8]>, Error> {
        let held = if matches!(v, Cow::Borrowed(_)) { "bytes&" } else { "bytes" };
        let text = String::from_utf8_lossy(&v).into_owned();
        if v.starts_with(b"$") {
            self.ask(held, &text, Cow::Owned(b"resolved".to_vec()))
        } else {
            self.ask(held, &text, v)
        }
    }

    fn expand_any<'a>(&mut self, v: Cow<'a, str>) -> Result<Any<'a>, Error> {
        let held = if matches!(v, Cow::Borrowed(_)) { "any&" } else { "any" };
        let text = v.to_string();
        let answer = match text.as_str() {
            "${BOOL}" => Any::Bool(true),
            "${UINT}" => Any::U64(123),
            "${INT}" => Any::I64(-123),
            "${FLOAT}" => Any::F64(1.5f64.to_bits()),
            "${STR}" => Any::Str(Cow::Owned("hello".to_owned())),
            "${BYTES}" => Any::Bytes(Cow::Owned(vec![0xff])),
            _ => Any::Str(v),
        };
        self.ask(held, &text, answer)
    }
}

fn resolve<'de>(
    stub: &mut Stub,
    requested: Shape,
    content: Content<'de>,
) -> Result<Visit<'de>, Error> {
    ContentVarDeserializer::new(content, stub).deserialize(requested)
}

const INTEGERS: [Shape; 8] = [
    Shape::I8,
    Shape::I16,
    Shape::I32,
    Shape::I64,
    Shape::U8,
    Shape::U16,
    Shape::U32,
    Shape::U64,
];

const STRUCTURES: [Shape; 12] = [
    Shape::Any,
    Shape::Optional,
    Shape::Unit,
    Shape::UnitStruct,
    Shape::NewtypeStruct,
    Shape::Sequence,
    Shape::Tuple,
    Shape::TupleStruct,
    Shape::Mapping,
    Shape::Struct,
    Shape::Enum,
    Shape::Identifier,
];

#[test]
fn test_typed_substitution_of_each_shape() {
    let cases = [
        (Shape::Bool, "bool", Visit::Bool(true)),
        (Shape::I8, "i8", Visit::I8(-8)),
        (Shape::I16, "i16", Visit::I16(-16)),
        (Shape::I32, "i32", Visit::I32(-32)),
        (Shape::I64, "i64", Visit::I64(-64)),
        (Shape::U8, "u8", Visit::U8(8)),
        (Shape::U16, "u16", Visit::U16(16)),
        (Shape::U32, "u32", Visit::U32(32)),
        (Shape::U64, "u64", Visit::U64(64)),
        (Shape::F32, "f32", Visit::F32(1.5f32.to_bits())),
        (Shape::F64, "f64", Visit::F64(2.5f64.to_bits())),
        (Shape::Char, "str&", Visit::String("resolved".to_owned())),
        (Shape::Str, "str&", Visit::String("resolved".to_owned())),
        (Shape::String, "str&", Visit::String("resolved".to_owned())),
        (Shape::Bytes, "str&", Visit::String("resolved".to_owned())),
        (Shape::ByteBuf, "str&", Visit::String("resolved".to_owned())),
    ];
    for (requested, asked, expected) in cases {
        let mut stub = Stub::default();
        assert_eq!(resolve(&mut stub, requested, Content::Str("${X}")), Ok(expected));
        assert_eq!(stub.asked, vec![format!("{asked}:${{X}}")], "{requested:?}");
    }
}

#[test]
fn test_typed_substitution_hands_owned_text_over_owned() {
    let mut stub = Stub::default();
    let content = Content::String("${X}".to_owned());
    assert_eq!(resolve(&mut stub, Shape::String, content), Ok(Visit::String("resolved".to_owned())));
    assert_eq!(stub.asked, vec!["str:${X}"]);
    let mut stub = Stub::default();
    let content = Content::String("${X}".to_owned());
    assert_eq!(resolve(&mut stub, Shape::U16, content), Ok(Visit::U16(16)));
    assert_eq!(stub.asked, vec!["u16:${X}"]);
}

#[test]
fn test_text_without_variable_keeps_its_borrow() {
    let mut stub = Stub::default();
    assert_eq!(resolve(&mut stub, Shape::Str, Content::Str("plain")), Ok(Visit::BorrowedStr("plain")));
    let owned = Content::String("plain".to_owned());
    assert_eq!(resolve(&mut stub, Shape::String, owned), Ok(Visit::String("plain".to_owned())));
    assert_eq!(stub.asked, vec!["str&:plain", "str:plain"]);
}

#[test]
fn test_bytes_are_expanded_as_bytes() {
    let mut stub = Stub::default();
    assert_eq!(
        resolve(&mut stub, Shape::Bytes, Content::Bytes(b"plain")),
        Ok(Visit::BorrowedBytes(b"plain"))
    );
    assert_eq!(
        resolve(&mut stub, Shape::ByteBuf, Content::ByteBuf(b"plain".to_vec())),
        Ok(Visit::ByteBuf(b"plain".to_vec()))
    );
    assert_eq!(
        resolve(&mut stub, Shape::ByteBuf, Content::ByteBuf(b"${X}".to_vec())),
        Ok(Visit::ByteBuf(b"resolved".to_vec()))
    );
    assert_eq!(stub.asked, vec!["bytes&:plain", "bytes:plain", "bytes:${X}"]);
}

#[test]
fn test_matching_leaf_passes_without_a_word_to_the_source() {
    let mut stub = Stub::default();
    assert_eq!(resolve(&mut stub, Shape::Bool, Content::Bool(false)), Ok(Visit::Bool(false)));
    assert_eq!(resolve(&mut stub, Shape::Char, Content::Char('c')), Ok(Visit::Char('c')));
    assert_eq!(resolve(&mut stub, Shape::F32, Content::F32(9)), Ok(Visit::F32(9)));
    assert_eq!(resolve(&mut stub, Shape::F64, Content::F64(9)), Ok(Visit::F64(9)));
    assert!(stub.asked.is_empty());
}

#[test]
fn test_integers_pass_at_their_own_width() {
    let mut stub = Stub::default();
    for requested in INTEGERS.into_iter().chain([Shape::F32, Shape::F64]) {
        assert_eq!(resolve(&mut stub, requested, Content::U8(1)), Ok(Visit::U8(1)));
        assert_eq!(resolve(&mut stub, requested, Content::U16(2)), Ok(Visit::U16(2)));
        assert_eq!(resolve(&mut stub, requested, Content::U32(3)), Ok(Visit::U32(3)));
        assert_eq!(resolve(&mut stub, requested, Content::U64(4)), Ok(Visit::U64(4)));
        assert_eq!(resolve(&mut stub, requested, Content::I8(-1)), Ok(Visit::I8(-1)));
        assert_eq!(resolve(&mut stub, requested, Content::I16(-2)), Ok(Visit::I16(-2)));
        assert_eq!(resolve(&mut stub, requested, Content::I32(-3)), Ok(Visit::I32(-3)));
        assert_eq!(resolve(&mut stub, requested, Content::I64(-4)), Ok(Visit::I64(-4)));
    }
    assert!(stub.asked.is_empty());
}

#[test]
fn test_float_is_no_integer() {
    let mut stub = Stub::default();
    for requested in INTEGERS {
        assert_eq!(
            resolve(&mut stub, requested, Content::F64(7)),
            Err(Error::InvalidType { unexpected: Unexpected::Float64(7), requested })
        );
    }
    assert!(stub.asked.is_empty());
}

#[test]
fn test_mismatch_names_what_was_found_and_what_was_requested() {
    let mut stub = Stub::default();
    assert_eq!(
        resolve(&mut stub, Shape::String, Content::Bool(true)),
        Err(Error::InvalidType { unexpected: Unexpected::Bool(true), requested: Shape::String })
    );
    assert_eq!(
        resolve(&mut stub, Shape::Str, Content::U32(5)),
        Err(Error::InvalidType { unexpected: Unexpected::Unsigned(5), requested: Shape::Str })
    );
    assert_eq!(
        resolve(&mut stub, Shape::Bool, Content::I8(-5)),
        Err(Error::InvalidType { unexpected: Unexpected::Signed(-5), requested: Shape::Bool })
    );
    assert_eq!(
        resolve(&mut stub, Shape::Char, Content::Bytes(b"c")),
        Err(Error::InvalidType { unexpected: Unexpected::Bytes(b"c".to_vec()), requested: Shape::Char })
    );
    assert_eq!(
        resolve(&mut stub, Shape::Bytes, Content::Char('c')),
        Err(Error::InvalidType { unexpected: Unexpected::Char('c'), requested: Shape::Bytes })
    );
    assert_eq!(
        resolve(&mut stub, Shape::U8, Content::Bytes(b"1")),
        Err(Error::InvalidType { unexpected: Unexpected::Bytes(b"1".to_vec()), requested: Shape::U8 })
    );
    assert!(stub.asked.is_empty());
}

#[test]
fn test_structure_is_never_resolved_from_a_leaf() {
    let mut stub = Stub::default();
    for requested in STRUCTURES {
        assert_eq!(
            resolve(&mut stub, requested, Content::Str("${X}")),
            Err(Error::InvalidType { unexpected: Unexpected::Str("${X}".to_owned()), requested })
        );
    }
    assert!(stub.asked.is_empty());
}

#[test]
fn test_ignored_value_is_dropped_unseen() {
    let mut stub = Stub::default();
    assert_eq!(resolve(&mut stub, Shape::IgnoredAny, Content::Str("${X}")), Ok(Visit::Unit));
    assert_eq!(resolve(&mut stub, Shape::IgnoredAny, Content::U8(1)), Ok(Visit::Unit));
    assert!(stub.asked.is_empty());
}

#[test]
fn test_failure_of_the_source_is_the_failure_of_the_resolution() {
    let shapes = INTEGERS.into_iter().chain([
        Shape::Bool,
        Shape::F32,
        Shape::F64,
        Shape::Char,
        Shape::Str,
        Shape::String,
        Shape::Bytes,
        Shape::ByteBuf,
    ]);
    for requested in shapes {
        let mut stub = Stub { fail: true, ..Stub::default() };
        assert_eq!(
            resolve(&mut stub, requested, Content::Str("${X}")),
            Err(Error::Custom("no ${X}".to_owned())),
            "{requested:?}"
        );
        assert_eq!(stub.asked.len(), 1);
    }
}

#[test]
fn test_named_methods_agree_with_the_dispatch() {
    let mut stub = Stub::default();
    let r = ContentVarDeserializer::new(Content::Str("${X}"), &mut stub).deserialize_u32();
    assert_eq!(r, Ok(Visit::U32(32)));
    let r = ContentVarDeserializer::new(Content::Str("${X}"), &mut stub).deserialize_bool();
    assert_eq!(r, Ok(Visit::Bool(true)));
    let r = ContentVarDeserializer::new(Content::Str("${X}"), &mut stub).deserialize_f64();
    assert_eq!(r, Ok(Visit::F64(2.5f64.to_bits())));
    let r = ContentVarDeserializer::new(Content::Char('x'), &mut stub).deserialize_char();
    assert_eq!(r, Ok(Visit::Char('x')));
    let r = ContentVarDeserializer::new(Content::Str("x"), &mut stub).deserialize_char();
    assert_eq!(r, Ok(Visit::BorrowedStr("x")));
    let r = ContentVarDeserializer::new(Content::Bool(true), &mut stub).deserialize_string();
    assert_eq!(
        r,
        Err(Error::InvalidType { unexpected: Unexpected::Bool(true), requested: Shape::String })
    );
    let r = ContentVarDeserializer::new(Content::Bool(true), &mut stub).invalid_type(Shape::Sequence);
    assert_eq!(
        r,
        Error::InvalidType { unexpected: Unexpected::Bool(true), requested: Shape::Sequence }
    );
}

#[test]
fn test_text_by_name_is_owned() {
    let mut stub = Stub::default();
    let r = ContentVarDeserializer::from_text("300".to_owned(), &mut stub).deserialize_string();
    assert_eq!(r, Ok(Visit::String("300".to_owned())));
    assert_eq!(stub.asked, vec!["str:300"]);
}

#[test]
fn test_bytes_by_name_come_from_any_answer() {
    let mut stub = Stub::default();
    let r = ContentVarDeserializer::from_raw(Raw::Str("${X}"), &mut stub).deserialize_byte_buf();
    assert_eq!(r, Ok(Visit::ByteBuf(b"resolved".to_vec())));
    let r = ContentVarDeserializer::from_raw(Raw::Bytes(b"aaa"), &mut stub).deserialize_bytes();
    assert_eq!(r, Ok(Visit::ByteBuf(b"aaa".to_vec())));
    assert_eq!(stub.asked, vec!["bytes:${X}", "bytes:aaa"]);
}

#[test]
fn test_route_of_each_shape() {
    let mut stub = Stub::default();
    let proxy = Deserializer::new((), &mut stub);
    for requested in INTEGERS.into_iter().chain([Shape::Bool, Shape::F32, Shape::F64, Shape::Char]) {
        assert_eq!(proxy.route(requested), Route::Capture);
    }
    assert_eq!(proxy.route(Shape::Str), Route::Text);
    assert_eq!(proxy.route(Shape::String), Route::Text);
    assert_eq!(proxy.route(Shape::Bytes), Route::RawBytes);
    assert_eq!(proxy.route(Shape::ByteBuf), Route::RawBytes);
    assert_eq!(proxy.route(Shape::Identifier), Route::Forward(Mode::Verbatim));
    for requested in STRUCTURES {
        if requested != Shape::Identifier {
            assert_eq!(proxy.route(requested), Route::Forward(Mode::Substitute));
        }
    }
    assert_eq!(proxy.route(Shape::IgnoredAny), Route::Forward(Mode::Substitute));
    let (de, _) = proxy.into_parts();
    assert_eq!(de, ());
}

#[test]
fn test_inference_is_replayed_in_the_shape_the_source_chose() {
    let cases = [
        ("${BOOL}", Visit::Bool(true)),
        ("${UINT}", Visit::U64(123)),
        ("${INT}", Visit::I64(-123)),
        ("${FLOAT}", Visit::F64(1.5f64.to_bits())),
        ("${STR}", Visit::String("hello".to_owned())),
        ("${BYTES}", Visit::ByteBuf(vec![0xff])),
    ];
    for (text, expected) in cases {
        let mut stub = Stub::default();
        let (delegate, r) = Wrap::new("delegate", &mut stub).visit(Visit::Str(text));
        assert_eq!(delegate, "delegate");
        assert_eq!(r, Ok(expected));
        assert_eq!(stub.asked, vec![format!("any&:{text}")]);
    }
}

#[test]
fn test_dynamic_text_without_variable_comes_back_through_its_own_callback() {
    let mut stub = Stub::default();
    let (_, r) = Wrap::new((), &mut stub).visit(Visit::Str("plain"));
    assert_eq!(r, Ok(Visit::Str("plain")));
    let (_, r) = Wrap::new((), &mut stub).visit(Visit::BorrowedStr("plain"));
    assert_eq!(r, Ok(Visit::BorrowedStr("plain")));
    let (_, r) = Wrap::new((), &mut stub).visit(Visit::String("plain".to_owned()));
    assert_eq!(r, Ok(Visit::String("plain".to_owned())));
    assert_eq!(stub.asked, vec!["any&:plain", "any&:plain", "any:plain"]);
}

#[test]
fn test_dynamic_leaf_that_is_no_text_is_handed_on() {
    let events = || {
        vec![
            Visit::Bool(true),
            Visit::I8(-1),
            Visit::I16(-1),
            Visit::I32(-1),
            Visit::I64(-1),
            Visit::I128(-1),
            Visit::U8(1),
            Visit::U16(1),
            Visit::U32(1),
            Visit::U64(1),
            Visit::U128(1),
            Visit::F32(1),
            Visit::F64(1),
            Visit::Char('$'),
            Visit::Bytes(b"${X}"),
            Visit::BorrowedBytes(b"${X}"),
            Visit::ByteBuf(b"${X}".to_vec()),
            Visit::Absent,
            Visit::Unit,
        ]
    };
    let mut stub = Stub::default();
    for (event, expected) in events().into_iter().zip(events()) {
        let (_, r) = Wrap::new((), &mut stub).visit(event);
        assert_eq!(r, Ok(expected));
    }
    assert!(stub.asked.is_empty());
}

#[test]
fn test_dynamic_failure_is_handed_on() {
    let mut stub = Stub { fail: true, ..Stub::default() };
    let (_, r) = Wrap::new((), &mut stub).visit(Visit::String("${X}".to_owned()));
    assert_eq!(r, Err(Error::Custom("no ${X}".to_owned())));
}

#[test]
fn test_identifier_is_never_substituted() {
    let mut stub = Stub::default();
    let (_, r) = Wrap::with_mode((), &mut stub, Mode::Verbatim).visit(Visit::Str("${UINT}"));
    assert_eq!(r, Ok(Visit::Str("${UINT}")));
    let (_, r) =
        Wrap::with_mode((), &mut stub, Mode::Verbatim).visit(Visit::String("${UINT}".to_owned()));
    assert_eq!(r, Ok(Visit::String("${UINT}".to_owned())));
    assert!(stub.asked.is_empty());
    let (_, r) = Wrap::with_mode((), &mut stub, Mode::Substitute).visit(Visit::Str("${UINT}"));
    assert_eq!(r, Ok(Visit::U64(123)));
}

#[test]
fn test_keys_and_variant_names_stay_outside_the_proxy() {
    let mut stub = Stub::default();
    let wrap = Wrap::new((), &mut stub);
    assert!(!wrap.enters(Slot::Key));
    assert!(!wrap.enters(Slot::Variant));
    assert!(wrap.enters(Slot::Value));
    assert!(wrap.enters(Slot::Payload));
    assert!(wrap.enters(Slot::Element));
    assert!(wrap.enters(Slot::Optional));
    assert!(wrap.enters(Slot::Newtype));
}

#[test]
fn test_plan_names_the_question() {
    let ask = |question| Step::Ask { question, keep: true };
    let text = || Cow::Borrowed("${X}");
    assert_eq!(plan(Content::Str("${X}"), Shape::Bool), ask(Question::Bool(text())));
    assert_eq!(plan(Content::Str("${X}"), Shape::I8), ask(Question::I8(text())));
    assert_eq!(plan(Content::Str("${X}"), Shape::I16), ask(Question::I16(text())));
    assert_eq!(plan(Content::Str("${X}"), Shape::I32), ask(Question::I32(text())));
    assert_eq!(plan(Content::Str("${X}"), Shape::I64), ask(Question::I64(text())));
    assert_eq!(plan(Content::Str("${X}"), Shape::U8), ask(Question::U8(text())));
    assert_eq!(plan(Content::Str("${X}"), Shape::U16), ask(Question::U16(text())));
    assert_eq!(plan(Content::Str("${X}"), Shape::U32), ask(Question::U32(text())));
    assert_eq!(plan(Content::Str("${X}"), Shape::U64), ask(Question::U64(text())));
    assert_eq!(plan(Content::Str("${X}"), Shape::F32), ask(Question::F32(text())));
    assert_eq!(plan(Content::Str("${X}"), Shape::F64), ask(Question::F64(text())));
    assert_eq!(plan(Content::Str("${X}"), Shape::Char), ask(Question::Str(text())));
    assert_eq!(plan(Content::Str("${X}"), Shape::Str), ask(Question::Str(text())));
    assert_eq!(plan(Content::Str("${X}"), Shape::String), ask(Question::Str(text())));
    assert_eq!(plan(Content::Str("${X}"), Shape::Bytes), ask(Question::Str(text())));
    assert_eq!(plan(Content::Str("${X}"), Shape::ByteBuf), ask(Question::Str(text())));
    assert_eq!(
        plan(Content::Bytes(b"${X}"), Shape::Bytes),
        ask(Question::Bytes(Cow::Borrowed(b"${X}")))
    );
}

#[test]
fn test_plan_hands_the_data_over_as_they_are_held() {
    let step = plan(Content::Str("a"), Shape::String);
    assert!(matches!(step, Step::Ask { question: Question::Str(Cow::Borrowed("a")), keep: true }));
    let step = plan(Content::String("a".to_owned()), Shape::String);
    assert!(matches!(step, Step::Ask { question: Question::Str(Cow::Owned(_)), keep: true }));
    let step = plan(Content::Bytes(b"a"), Shape::ByteBuf);
    assert!(matches!(step, Step::Ask { question: Question::Bytes(Cow::Borrowed(b"a")), .. }));
    let step = plan(Content::ByteBuf(b"a".to_vec()), Shape::ByteBuf);
    assert!(matches!(step, Step::Ask { question: Question::Bytes(Cow::Owned(_)), keep: true }));
}

#[test]
fn test_plan_without_a_question() {
    assert_eq!(plan(Content::U8(1), Shape::I64), Step::Hand(Visit::U8(1)));
    assert_eq!(plan(Content::Str("${X}"), Shape::IgnoredAny), Step::Hand(Visit::Unit));
    assert_eq!(
        plan(Content::Bool(true), Shape::String),
        Step::Refuse(Error::InvalidType {
            unexpected: Unexpected::Bool(true),
            requested: Shape::String
        })
    );
    assert_eq!(
        plan(Content::Bytes(b"x"), Shape::Str),
        Step::Refuse(Error::InvalidType {
            unexpected: Unexpected::Bytes(b"x".to_vec()),
            requested: Shape::Str
        })
    );
}

#[test]
fn test_watch_names_the_question() {
    assert_eq!(
        watch(Mode::Substitute, Visit::Str("a")),
        Step::Ask { question: Question::Any(Cow::Borrowed("a")), keep: false }
    );
    assert_eq!(
        watch(Mode::Substitute, Visit::BorrowedStr("a")),
        Step::Ask { question: Question::Any(Cow::Borrowed("a")), keep: true }
    );
    let step = watch(Mode::Substitute, Visit::String("a".to_owned()));
    assert!(matches!(step, Step::Ask { question: Question::Any(Cow::Owned(_)), keep: false }));
    assert_eq!(watch(Mode::Verbatim, Visit::Str("a")), Step::Hand(Visit::Str("a")));
    assert_eq!(watch(Mode::Substitute, Visit::Bytes(b"a")), Step::Hand(Visit::Bytes(b"a")));
    assert_eq!(watch(Mode::Substitute, Visit::U128(9)), Step::Hand(Visit::U128(9)));
}

#[test]
fn test_ask_puts_the_question_to_its_operation() {
    let mut stub = Stub::default();
    let text = || Cow::Borrowed("t");
    assert_eq!(ask(&mut stub, Question::Bool(text())), Ok(Any::Bool(true)));
    assert_eq!(ask(&mut stub, Question::I8(text())), Ok(Any::I8(-8)));
    assert_eq!(ask(&mut stub, Question::I16(text())), Ok(Any::I16(-16)));
    assert_eq!(ask(&mut stub, Question::I32(text())), Ok(Any::I32(-32)));
    assert_eq!(ask(&mut stub, Question::I64(text())), Ok(Any::I64(-64)));
    assert_eq!(ask(&mut stub, Question::U8(text())), Ok(Any::U8(8)));
    assert_eq!(ask(&mut stub, Question::U16(text())), Ok(Any::U16(16)));
    assert_eq!(ask(&mut stub, Question::U32(text())), Ok(Any::U32(32)));
    assert_eq!(ask(&mut stub, Question::U64(text())), Ok(Any::U64(64)));
    assert_eq!(ask(&mut stub, Question::F32(text())), Ok(Any::F32(1.5f32.to_bits())));
    assert_eq!(ask(&mut stub, Question::F64(text())), Ok(Any::F64(2.5f64.to_bits())));
    assert_eq!(ask(&mut stub, Question::Str(text())), Ok(Any::Str(text())));
    assert_eq!(
        ask(&mut stub, Question::Bytes(Cow::Borrowed(b"t"))),
        Ok(Any::Bytes(Cow::Borrowed(b"t")))
    );
    assert_eq!(ask(&mut stub, Question::Any(Cow::Borrowed("${UINT}"))), Ok(Any::U64(123)));
    assert_eq!(
        stub.asked,
        vec![
            "bool:t", "i8:t", "i16:t", "i32:t", "i64:t", "u8:t", "u16:t", "u32:t", "u64:t",
            "f32:t", "f64:t", "str&:t", "bytes&:t", "any&:${UINT}"
        ]
    );
}

#[test]
fn test_replay_hands_the_answer_on() {
    assert_eq!(replay(true, Ok(Any::U16(7))), Ok(Visit::U16(7)));
    assert_eq!(replay(false, Ok(Any::U16(7))), Ok(Visit::U16(7)));
    assert_eq!(replay(true, Ok(Any::Str(Cow::Borrowed("a")))), Ok(Visit::BorrowedStr("a")));
    assert_eq!(replay(false, Ok(Any::Str(Cow::Borrowed("a")))), Ok(Visit::Str("a")));
    assert_eq!(replay(true, Ok(Any::Bytes(Cow::Borrowed(b"a")))), Ok(Visit::BorrowedBytes(b"a")));
    assert_eq!(replay(false, Ok(Any::Bytes(Cow::Borrowed(b"a")))), Ok(Visit::Bytes(b"a")));
    assert_eq!(
        replay(false, Ok(Any::Str(Cow::Owned("a".to_owned())))),
        Ok(Visit::String("a".to_owned()))
    );
    assert_eq!(
        replay(true, Err(Error::Custom("no".to_owned()))),
        Err(Error::Custom("no".to_owned()))
    );
}

#[test]
fn test_take_leaves_the_source_alone_unless_it_asks() {
    let mut stub = Stub::default();
    assert_eq!(take(Step::Hand(Visit::Unit), &mut stub), Ok(Visit::Unit));
    assert_eq!(
        take(Step::Refuse(Error::Custom("no".to_owned())), &mut stub),
        Err(Error::Custom("no".to_owned()))
    );
    assert!(stub.asked.is_empty());
    let step = Step::Ask { question: Question::U8(Cow::Borrowed("${X}")), keep: true };
    assert_eq!(take(step, &mut stub), Ok(Visit::U8(8)));
    assert_eq!(stub.asked, vec!["u8:${X}"]);
}
