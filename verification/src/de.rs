//! The proxy between a decoder and an application.
//!
//! An application asks for a value of some [`Shape`]. [`Deserializer::route`]
//! says what the decoder is to be asked in its place. What the decoder reports
//! is a leaf, and for each leaf a [`Step`] is planned: by [`plan`] where the
//! application named a primitive shape, by [`watch`] where it left the shape to
//! the decoder. The step says whether the leaf is handed on, whether it is
//! refused, or what the source is asked; [`take`] takes the step, and where the
//! source was asked, [`replay`] hands on what it answered.
//!
//! [`ContentVarDeserializer`] and [`Wrap`] bind these to a source for the
//! length of one leaf.

use std::borrow::Cow;
use vstd::prelude::*;
use crate::content::Content;
use crate::error::{Error, ErrorView};
use crate::leaf::{Held, Leaf};
use crate::shape::Shape;
use crate::source::{Any, Source};
use crate::value::Raw;
use crate::visit::Visit;

verus! {

/// The result of a resolution, seen through the views of its two sides.
pub open spec fn outcome<T: View>(r: Result<T, Error>) -> Result<T::V, ErrorView> {
    match r {
        Ok(v) => Ok(v@),
        Err(e) => Err(e@),
    }
}

/// Whether the leaf is an integer of one of the eight widths that a decoder
/// reports.
pub open spec fn is_integer(leaf: Leaf) -> bool {
    leaf is U8 || leaf is U16 || leaf is U32 || leaf is U64 || leaf is I8 || leaf is I16
        || leaf is I32 || leaf is I64
}

/// Whether the leaf is a floating point number.
pub open spec fn is_float(leaf: Leaf) -> bool {
    leaf is F32 || leaf is F64
}

/// Whether the leaf is a boolean or a number of exactly the shape requested.
pub open spec fn fits(leaf: Leaf, requested: Shape) -> bool {
    match requested {
        Shape::Bool => leaf is Bool,
        Shape::I8 => leaf is I8,
        Shape::I16 => leaf is I16,
        Shape::I32 => leaf is I32,
        Shape::I64 => leaf is I64,
        Shape::U8 => leaf is U8,
        Shape::U16 => leaf is U16,
        Shape::U32 => leaf is U32,
        Shape::U64 => leaf is U64,
        Shape::F32 => leaf is F32,
        Shape::F64 => leaf is F64,
        _ => false,
    }
}

/// The leaves that are handed to the application as the decoder reported them,
/// without a word to the source: a leaf of the shape requested, and a number
/// where a number of another width was requested (an integer also where a
/// floating point number was), which the application widens by its own rules.
pub open spec fn passes(requested: Shape, leaf: Leaf) -> bool {
    match requested {
        Shape::Bool => leaf is Bool,
        Shape::I8
        | Shape::I16
        | Shape::I32
        | Shape::I64
        | Shape::U8
        | Shape::U16
        | Shape::U32
        | Shape::U64 => is_integer(leaf),
        Shape::F32 | Shape::F64 => is_float(leaf) || is_integer(leaf),
        Shape::Char => leaf is Char,
        _ => false,
    }
}

/// The leaves for which the source is asked: a text under any primitive
/// request, and bytes where bytes were requested.
pub open spec fn expands(requested: Shape, leaf: Leaf) -> bool {
    match requested {
        Shape::Bytes | Shape::ByteBuf => leaf is Text || leaf is Bytes,
        _ => requested.is_scalar() && leaf is Text,
    }
}

/// The leaves that are refused as being of the wrong shape.
pub open spec fn refuses(requested: Shape, leaf: Leaf) -> bool {
    !(requested is IgnoredAny) && !passes(requested, leaf) && !expands(requested, leaf)
}

/// The error that names what was found and what was requested.
pub open spec fn mismatch(requested: Shape, leaf: Leaf) -> ErrorView {
    ErrorView::InvalidType { unexpected: crate::content::unexpected_of(leaf), requested }
}

/// Whether the source is asked at all.
pub open spec fn asks(requested: Shape, leaf: Leaf) -> bool {
    !(requested is IgnoredAny) && expands(requested, leaf)
}

/// One question to a source: an operation of [`Source`] with its argument.
///
/// For a boolean or a number the source is lent the text; for a text, for
/// bytes and where the shape is left to it, it is given the data as the decoder
/// held them, owned or borrowed.
#[derive(Debug, PartialEq, Eq)]
pub enum Question<'de> {
    Bool(Cow<'de, str>),
    I8(Cow<'de, str>),
    I16(Cow<'de, str>),
    I32(Cow<'de, str>),
    I64(Cow<'de, str>),
    U8(Cow<'de, str>),
    U16(Cow<'de, str>),
    U32(Cow<'de, str>),
    U64(Cow<'de, str>),
    F32(Cow<'de, str>),
    F64(Cow<'de, str>),
    Str(Cow<'de, str>),
    Bytes(Cow<'de, [u8]>),
    Any(Cow<'de, str>),
}

/// The model of a [`Question`].
pub enum QuestionView {
    /// For the boolean or the number of the shape given that the text stands
    /// for.
    Value(Shape, Seq<char>),
    /// For the text that the text stands for.
    Str(Seq<char>, Held),
    /// For the bytes that the bytes stand for.
    Bytes(Seq<u8>, Held),
    /// For whatever the text stands for.
    Any(Seq<char>, Held),
}

/// How a [`Cow`] holds its text.
pub open spec fn held_of(text: Cow<'_, str>) -> Held {
    match text {
        Cow::Borrowed(_) => Held::Input,
        Cow::Owned(_) => Held::Owned,
    }
}

impl<'de> View for Question<'de> {
    type V = QuestionView;

    open spec fn view(&self) -> QuestionView {
        match self {
            Question::Bool(text) => QuestionView::Value(Shape::Bool, text@),
            Question::I8(text) => QuestionView::Value(Shape::I8, text@),
            Question::I16(text) => QuestionView::Value(Shape::I16, text@),
            Question::I32(text) => QuestionView::Value(Shape::I32, text@),
            Question::I64(text) => QuestionView::Value(Shape::I64, text@),
            Question::U8(text) => QuestionView::Value(Shape::U8, text@),
            Question::U16(text) => QuestionView::Value(Shape::U16, text@),
            Question::U32(text) => QuestionView::Value(Shape::U32, text@),
            Question::U64(text) => QuestionView::Value(Shape::U64, text@),
            Question::F32(text) => QuestionView::Value(Shape::F32, text@),
            Question::F64(text) => QuestionView::Value(Shape::F64, text@),
            Question::Str(text) => QuestionView::Str(text@, held_of(*text)),
            Question::Bytes(Cow::Borrowed(bytes)) => QuestionView::Bytes(bytes@, Held::Input),
            Question::Bytes(Cow::Owned(bytes)) => QuestionView::Bytes(bytes@, Held::Owned),
            Question::Any(text) => QuestionView::Any(text@, held_of(*text)),
        }
    }
}

/// What is done with one leaf.
#[derive(Debug, PartialEq, Eq)]
pub enum Step<'de> {
    /// The application is told as much, and the source is left alone.
    Hand(Visit<'de>),
    /// The source is asked, and the application is told what it answers; `keep`
    /// says whether the answer may stay borrowed from the input.
    Ask { question: Question<'de>, keep: bool },
    /// The leaf is refused, and the source is left alone.
    Refuse(Error),
}

/// The model of a [`Step`].
pub enum StepView {
    Hand(Leaf),
    Ask { question: QuestionView, keep: bool },
    Refuse(ErrorView),
}

impl<'de> View for Step<'de> {
    type V = StepView;

    open spec fn view(&self) -> StepView {
        match self {
            Step::Hand(visit) => StepView::Hand(visit@),
            Step::Ask { question, keep } => StepView::Ask { question: question@, keep: *keep },
            Step::Refuse(error) => StepView::Refuse(error@),
        }
    }
}

/// The step for a leaf where the application names the shape.
///
/// A request to ignore the value gives the unit. A leaf that [`passes`] is
/// handed on as it is. For a text under a request for a boolean or a number,
/// the source is asked for a value of exactly that shape. For a text under a
/// request for a character, a text or bytes, the source is asked for the text,
/// and for bytes under a request for bytes, for the bytes; both are handed to
/// it as the decoder held them. Every other leaf is refused with the error that
/// names it and the request.
pub open spec fn planned(requested: Shape, leaf: Leaf) -> StepView {
    if requested is IgnoredAny {
        StepView::Hand(Leaf::Unit)
    } else if passes(requested, leaf) {
        StepView::Hand(leaf)
    } else if !expands(requested, leaf) {
        StepView::Refuse(mismatch(requested, leaf))
    } else {
        match leaf {
            Leaf::Bytes(bytes, held) => StepView::Ask {
                question: QuestionView::Bytes(bytes, held),
                keep: true,
            },
            _ => if requested is Bool || requested.is_integer() || requested.is_float() {
                StepView::Ask { question: QuestionView::Value(requested, leaf->Text_0), keep: true }
            } else {
                StepView::Ask {
                    question: QuestionView::Str(leaf->Text_0, leaf->Text_1),
                    keep: true,
                }
            },
        }
    }
}

/// The step for what the decoder reports of its own accord.
///
/// Everything but a text is handed on as it is, and so is a text in verbatim
/// mode. For a text the source is asked for whatever the text stands for. It is
/// given the text if the decoder gave it away, and is lent it otherwise; the
/// answer may stay borrowed only where the decoder's text was borrowed from
/// the input.
pub open spec fn watched(mode: Mode, event: Leaf) -> StepView {
    if mode is Verbatim || !(event is Text) {
        StepView::Hand(event)
    } else {
        StepView::Ask {
            question: QuestionView::Any(
                event->Text_0,
                if event->Text_1 is Owned {
                    Held::Owned
                } else {
                    Held::Input
                },
            ),
            keep: event->Text_1 is Input,
        }
    }
}

/// The values that answer a question: a boolean or a number of the shape
/// asked for; a text; bytes; or, where the shape was left to the source, a
/// boolean, a number of one of the ten widths, a text or bytes. A text and
/// bytes are owned, or borrowed as the source sees fit.
pub open spec fn suits(question: QuestionView, answer: Leaf) -> bool {
    &&& match question {
        QuestionView::Value(shape, _) => fits(answer, shape),
        QuestionView::Str(_, _) => answer is Text,
        QuestionView::Bytes(_, _) => answer is Bytes,
        QuestionView::Any(_, _) => crate::content::is_primitive(answer) && !(answer is Char),
    }
    &&& !(answer matches Leaf::Text(_, Held::Transient))
    &&& !(answer matches Leaf::Bytes(_, Held::Transient))
}

/// What is handed on when the source has answered: the value the source chose,
/// or its error. A borrow is kept only where `keep` says so.
pub open spec fn replayed(keep: bool, answer: Result<Leaf, ErrorView>) -> Result<
    Leaf,
    ErrorView,
> {
    match answer {
        Ok(leaf) => Ok(
            if keep {
                leaf
            } else {
                leaf.lent()
            },
        ),
        Err(e) => Err(e),
    }
}

/// What a step comes to. Where the source is asked, the outcome is the replay
/// of an answer that suits the question, or of an error.
pub open spec fn concluded(step: StepView, r: Result<Leaf, ErrorView>) -> bool {
    match step {
        StepView::Hand(leaf) => r == Ok::<Leaf, ErrorView>(leaf),
        StepView::Refuse(error) => r == Err::<Leaf, ErrorView>(error),
        StepView::Ask { question, keep } => r matches Ok(v) ==> exists|answer: Leaf| #[trigger]
            suits(question, answer) && v == replayed(keep, Ok(answer))->Ok_0,
    }
}

/// Puts one question to the source.
///
/// The answer is the source's to give. What is known of it is its shape: a
/// value [`suits`] the question.
pub fn ask<'de, S: Source>(source: &mut S, question: Question<'de>) -> (r: Result<Any<'de>, Error>)
    ensures
        r matches Ok(answer) ==> suits(question@, answer@),
{
    match question {
        Question::Bool(text) => match source.expand_bool(crate::source::utils::as_str(&text)) {
            Ok(v) => Ok(Any::Bool(v)),
            Err(e) => Err(e),
        },
        Question::I8(text) => match source.expand_i8(crate::source::utils::as_str(&text)) {
            Ok(v) => Ok(Any::I8(v)),
            Err(e) => Err(e),
        },
        Question::I16(text) => match source.expand_i16(crate::source::utils::as_str(&text)) {
            Ok(v) => Ok(Any::I16(v)),
            Err(e) => Err(e),
        },
        Question::I32(text) => match source.expand_i32(crate::source::utils::as_str(&text)) {
            Ok(v) => Ok(Any::I32(v)),
            Err(e) => Err(e),
        },
        Question::I64(text) => match source.expand_i64(crate::source::utils::as_str(&text)) {
            Ok(v) => Ok(Any::I64(v)),
            Err(e) => Err(e),
        },
        Question::U8(text) => match source.expand_u8(crate::source::utils::as_str(&text)) {
            Ok(v) => Ok(Any::U8(v)),
            Err(e) => Err(e),
        },
        Question::U16(text) => match source.expand_u16(crate::source::utils::as_str(&text)) {
            Ok(v) => Ok(Any::U16(v)),
            Err(e) => Err(e),
        },
        Question::U32(text) => match source.expand_u32(crate::source::utils::as_str(&text)) {
            Ok(v) => Ok(Any::U32(v)),
            Err(e) => Err(e),
        },
        Question::U64(text) => match source.expand_u64(crate::source::utils::as_str(&text)) {
            Ok(v) => Ok(Any::U64(v)),
            Err(e) => Err(e),
        },
        Question::F32(text) => match source.expand_f32(crate::source::utils::as_str(&text)) {
            Ok(v) => Ok(Any::F32(v)),
            Err(e) => Err(e),
        },
        Question::F64(text) => match source.expand_f64(crate::source::utils::as_str(&text)) {
            Ok(v) => Ok(Any::F64(v)),
            Err(e) => Err(e),
        },
        Question::Str(text) => match source.expand_str(text) {
            Ok(v) => Ok(Any::Str(v)),
            Err(e) => Err(e),
        },
        Question::Bytes(bytes) => match source.expand_bytes(bytes) {
            Ok(v) => Ok(Any::Bytes(v)),
            Err(e) => Err(e),
        },
        Question::Any(text) => source.expand_any(text),
    }
}

/// Hands on what a source answered, or its error.
///
/// This is the whole of what the proxy does with an answer: the value goes to
/// the callback of its own shape, unchanged.
pub fn replay<'de>(keep: bool, answer: Result<Any<'de>, Error>) -> (r: Result<Visit<'de>, Error>)
    ensures
        outcome(r) == replayed(keep, outcome(answer)),
        answer matches Err(e) ==> r == Err::<Visit<'de>, Error>(e),
{
    match answer {
        Ok(any) => if keep {
            Ok(any.visit_borrowed())
        } else {
            Ok(any.visit())
        },
        Err(e) => Err(e),
    }
}

/// Takes a step: hands on, refuses, or asks the source and replays its answer.
pub fn take<'de, S: Source>(step: Step<'de>, source: &mut S) -> (r: Result<Visit<'de>, Error>)
    ensures
        concluded(step@, outcome(r)),
        !(step is Ask) ==> *final(source) == *old(source),
        step matches Step::Hand(visit) ==> r == Ok::<Visit<'de>, Error>(visit),
        step matches Step::Refuse(error) ==> r == Err::<Visit<'de>, Error>(error),
{
    match step {
        Step::Hand(visit) => Ok(visit),
        Step::Refuse(error) => Err(error),
        Step::Ask { question, keep } => {
            let answer = ask(source, question);
            let r = replay(keep, answer);
            assert(r matches Ok(v) ==> suits(question@, answer->Ok_0@) && v@ == replayed(
                keep,
                Ok(answer->Ok_0@),
            )->Ok_0);
            r
        },
    }
}

/// The question for the text of a leaf under a request for a boolean or a
/// number.
fn value_of<'de>(requested: Shape, text: Cow<'de, str>) -> (r: Question<'de>)
    requires
        requested is Bool || requested.is_integer() || requested.is_float(),
    ensures
        r@ == QuestionView::Value(requested, text@),
{
    match requested {
        Shape::Bool => Question::Bool(text),
        Shape::I8 => Question::I8(text),
        Shape::I16 => Question::I16(text),
        Shape::I32 => Question::I32(text),
        Shape::I64 => Question::I64(text),
        Shape::U8 => Question::U8(text),
        Shape::U16 => Question::U16(text),
        Shape::U32 => Question::U32(text),
        Shape::U64 => Question::U64(text),
        Shape::F32 => Question::F32(text),
        _ => Question::F64(text),
    }
}

/// The error for a leaf of the wrong shape.
fn refuse<'de>(content: &Content<'_>, requested: Shape) -> (r: Step<'de>)
    ensures
        r@ == StepView::Refuse(mismatch(requested, content@)),
{
    Step::Refuse(Error::InvalidType { unexpected: content.unexpected(), requested })
}

/// An integer of any width is handed on as it is; a text is resolved to
/// the width requested; anything else is refused.
fn deserialize_integer<'de>(content: Content<'de>, requested: Shape) -> (r: Step<'de>)
    requires
        requested.is_integer(),
    ensures
        r@ == planned(requested, content@),
{
    match content {
        Content::U8(v) => Step::Hand(Visit::U8(v)),
        Content::U16(v) => Step::Hand(Visit::U16(v)),
        Content::U32(v) => Step::Hand(Visit::U32(v)),
        Content::U64(v) => Step::Hand(Visit::U64(v)),
        Content::I8(v) => Step::Hand(Visit::I8(v)),
        Content::I16(v) => Step::Hand(Visit::I16(v)),
        Content::I32(v) => Step::Hand(Visit::I32(v)),
        Content::I64(v) => Step::Hand(Visit::I64(v)),
        Content::Str(s) => Step::Ask {
            question: value_of(requested, Cow::Borrowed(s)),
            keep: true,
        },
        Content::String(s) => Step::Ask {
            question: value_of(requested, Cow::Owned(s)),
            keep: true,
        },
        other => refuse(&other, requested),
    }
}

/// A number of either kind and any width is handed on as it is; a text is
/// resolved to the width requested; anything else is refused.
fn deserialize_float<'de>(content: Content<'de>, requested: Shape) -> (r: Step<'de>)
    requires
        requested.is_float(),
    ensures
        r@ == planned(requested, content@),
{
    match content {
        Content::F32(v) => Step::Hand(Visit::F32(v)),
        Content::F64(v) => Step::Hand(Visit::F64(v)),
        Content::U8(v) => Step::Hand(Visit::U8(v)),
        Content::U16(v) => Step::Hand(Visit::U16(v)),
        Content::U32(v) => Step::Hand(Visit::U32(v)),
        Content::U64(v) => Step::Hand(Visit::U64(v)),
        Content::I8(v) => Step::Hand(Visit::I8(v)),
        Content::I16(v) => Step::Hand(Visit::I16(v)),
        Content::I32(v) => Step::Hand(Visit::I32(v)),
        Content::I64(v) => Step::Hand(Visit::I64(v)),
        Content::Str(s) => Step::Ask {
            question: value_of(requested, Cow::Borrowed(s)),
            keep: true,
        },
        Content::String(s) => Step::Ask {
            question: value_of(requested, Cow::Owned(s)),
            keep: true,
        },
        other => refuse(&other, requested),
    }
}

/// A text is expanded as a text: one that the decoder gave away is handed
/// to the source owned, one that it borrowed from its input borrowed.
/// Anything else is refused.
fn text<'de>(content: Content<'de>, requested: Shape) -> (r: Step<'de>)
    requires
        requested is Char || requested is Str || requested is String || requested is Bytes
            || requested is ByteBuf,
        requested is Char ==> !(content@ is Char),
        requested is Bytes || requested is ByteBuf ==> !(content@ is Bytes),
    ensures
        r@ == planned(requested, content@),
{
    match content {
        Content::String(v) => Step::Ask { question: Question::Str(Cow::Owned(v)), keep: true },
        Content::Str(v) => Step::Ask { question: Question::Str(Cow::Borrowed(v)), keep: true },
        other => refuse(&other, requested),
    }
}

/// Bytes are expanded as bytes; a text in their place is what some formats
/// write for the same literal, and is expanded as a text; anything else is
/// refused.
fn bytes<'de>(content: Content<'de>, requested: Shape) -> (r: Step<'de>)
    requires
        requested is Bytes || requested is ByteBuf,
    ensures
        r@ == planned(requested, content@),
{
    match content {
        Content::ByteBuf(v) => Step::Ask {
            question: Question::Bytes(Cow::Owned(v)),
            keep: true,
        },
        Content::Bytes(v) => Step::Ask {
            question: Question::Bytes(Cow::Borrowed(v)),
            keep: true,
        },
        other => text(other, requested),
    }
}

/// Decides what is done with `content` under `requested`: whether it is
/// handed on, and as what; whether it is refused, and with which error; or
/// whether the source is asked, and what.
pub fn plan<'de>(content: Content<'de>, requested: Shape) -> (r: Step<'de>)
    ensures
        r@ == planned(requested, content@),
{
    match requested {
        Shape::IgnoredAny => Step::Hand(Visit::Unit),
        Shape::Bool => match content {
            Content::Bool(v) => Step::Hand(Visit::Bool(v)),
            Content::Str(s) => Step::Ask { question: Question::Bool(Cow::Borrowed(s)), keep: true },
            Content::String(s) => Step::Ask { question: Question::Bool(Cow::Owned(s)), keep: true },
            other => refuse(&other, requested),
        },
        Shape::I8
        | Shape::I16
        | Shape::I32
        | Shape::I64
        | Shape::U8
        | Shape::U16
        | Shape::U32
        | Shape::U64 => deserialize_integer(content, requested),
        Shape::F32 | Shape::F64 => deserialize_float(content, requested),
        Shape::Char => match content {
            Content::Char(v) => Step::Hand(Visit::Char(v)),
            other => text(other, requested),
        },
        Shape::Str | Shape::String => text(content, requested),
        Shape::Bytes | Shape::ByteBuf => bytes(content, requested),
        other => refuse(&content, other),
    }
}

/// Resolves one captured leaf against the primitive shape that the application
/// requested.
pub struct ContentVarDeserializer<'a, 'de, S> {
    pub content: Content<'de>,
    pub source: &'a mut S,
}

impl<'a, 'de, S: Source> ContentVarDeserializer<'a, 'de, S> {
    pub fn new(content: Content<'de>, source: &'a mut S) -> (r: Self)
        ensures
            r.content == content,
            *r.source == *old(source),
            *final(r.source) == *final(source),
    {
        ContentVarDeserializer { content, source }
    }

    /// For a text that the decoder was asked for by name: it is owned, whatever
    /// the decoder could have lent.
    pub fn from_text(text: String, source: &'a mut S) -> (r: Self)
        ensures
            r.content == Content::<'de>::String(text),
            *r.source == *old(source),
            *final(r.source) == *final(source),
    {
        ContentVarDeserializer { content: Content::String(text), source }
    }

    /// For the decoder's answer to a request for bytes, made one owned buffer.
    pub fn from_raw(raw: Raw<'_>, source: &'a mut S) -> (r: Self)
        ensures
            r.content@ == Leaf::Bytes(raw@, Held::Owned),
            *r.source == *old(source),
            *final(r.source) == *final(source),
    {
        let bytes = crate::value::deserialize_byte_buf(raw);
        ContentVarDeserializer { content: Content::ByteBuf(bytes), source }
    }

    /// The error for a leaf of the wrong shape.
    pub fn invalid_type(self, requested: Shape) -> (r: Error)
        ensures
            r@ == mismatch(requested, self.content@),
            *final(self.source) == *old(self.source),
    {
        Error::InvalidType { unexpected: self.content.unexpected(), requested }
    }

    /// Resolves the leaf against `requested`: takes the step that
    /// [`planned`] names. The source is left alone unless it [is asked](asks).
    pub fn deserialize(self, requested: Shape) -> (r: Result<Visit<'de>, Error>)
        ensures
            concluded(planned(requested, self.content@), outcome(r)),
            !asks(requested, self.content@) ==> *final(self.source) == *old(self.source),
    {
        let ContentVarDeserializer { content, source } = self;
        take(plan(content, requested), source)
    }

    /// A boolean is handed on; a text is resolved to a boolean; anything else
    /// is refused.
    pub fn deserialize_bool(self) -> (r: Result<Visit<'de>, Error>)
        ensures
            concluded(planned(Shape::Bool, self.content@), outcome(r)),
            !asks(Shape::Bool, self.content@) ==> *final(self.source) == *old(self.source),
    {
        self.deserialize(Shape::Bool)
    }

    pub fn deserialize_i8(self) -> (r: Result<Visit<'de>, Error>)
        ensures
            concluded(planned(Shape::I8, self.content@), outcome(r)),
            !asks(Shape::I8, self.content@) ==> *final(self.source) == *old(self.source),
    {
        self.deserialize(Shape::I8)
    }

    pub fn deserialize_i16(self) -> (r: Result<Visit<'de>, Error>)
        ensures
            concluded(planned(Shape::I16, self.content@), outcome(r)),
            !asks(Shape::I16, self.content@) ==> *final(self.source) == *old(self.source),
    {
        self.deserialize(Shape::I16)
    }

    pub fn deserialize_i32(self) -> (r: Result<Visit<'de>, Error>)
        ensures
            concluded(planned(Shape::I32, self.content@), outcome(r)),
            !asks(Shape::I32, self.content@) ==> *final(self.source) == *old(self.source),
    {
        self.deserialize(Shape::I32)
    }

    pub fn deserialize_i64(self) -> (r: Result<Visit<'de>, Error>)
        ensures
            concluded(planned(Shape::I64, self.content@), outcome(r)),
            !asks(Shape::I64, self.content@) ==> *final(self.source) == *old(self.source),
    {
        self.deserialize(Shape::I64)
    }

    pub fn deserialize_u8(self) -> (r: Result<Visit<'de>, Error>)
        ensures
            concluded(planned(Shape::U8, self.content@), outcome(r)),
            !asks(Shape::U8, self.content@) ==> *final(self.source) == *old(self.source),
    {
        self.deserialize(Shape::U8)
    }

    pub fn deserialize_u16(self) -> (r: Result<Visit<'de>, Error>)
        ensures
            concluded(planned(Shape::U16, self.content@), outcome(r)),
            !asks(Shape::U16, self.content@) ==> *final(self.source) == *old(self.source),
    {
        self.deserialize(Shape::U16)
    }

    pub fn deserialize_u32(self) -> (r: Result<Visit<'de>, Error>)
        ensures
            concluded(planned(Shape::U32, self.content@), outcome(r)),
            !asks(Shape::U32, self.content@) ==> *final(self.source) == *old(self.source),
    {
        self.deserialize(Shape::U32)
    }

    pub fn deserialize_u64(self) -> (r: Result<Visit<'de>, Error>)
        ensures
            concluded(planned(Shape::U64, self.content@), outcome(r)),
            !asks(Shape::U64, self.content@) ==> *final(self.source) == *old(self.source),
    {
        self.deserialize(Shape::U64)
    }

    pub fn deserialize_f32(self) -> (r: Result<Visit<'de>, Error>)
        ensures
            concluded(planned(Shape::F32, self.content@), outcome(r)),
            !asks(Shape::F32, self.content@) ==> *final(self.source) == *old(self.source),
    {
        self.deserialize(Shape::F32)
    }

    pub fn deserialize_f64(self) -> (r: Result<Visit<'de>, Error>)
        ensures
            concluded(planned(Shape::F64, self.content@), outcome(r)),
            !asks(Shape::F64, self.content@) ==> *final(self.source) == *old(self.source),
    {
        self.deserialize(Shape::F64)
    }

    /// A character is handed on; a text is expanded as a text, of which the
    /// application takes its one character; anything else is refused.
    pub fn deserialize_char(self) -> (r: Result<Visit<'de>, Error>)
        ensures
            concluded(planned(Shape::Char, self.content@), outcome(r)),
            !asks(Shape::Char, self.content@) ==> *final(self.source) == *old(self.source),
    {
        self.deserialize(Shape::Char)
    }

    pub fn deserialize_str(self) -> (r: Result<Visit<'de>, Error>)
        ensures
            concluded(planned(Shape::Str, self.content@), outcome(r)),
            !asks(Shape::Str, self.content@) ==> *final(self.source) == *old(self.source),
    {
        self.deserialize(Shape::Str)
    }

    pub fn deserialize_string(self) -> (r: Result<Visit<'de>, Error>)
        ensures
            concluded(planned(Shape::String, self.content@), outcome(r)),
            !asks(Shape::String, self.content@) ==> *final(self.source) == *old(self.source),
    {
        self.deserialize(Shape::String)
    }

    pub fn deserialize_bytes(self) -> (r: Result<Visit<'de>, Error>)
        ensures
            concluded(planned(Shape::Bytes, self.content@), outcome(r)),
            !asks(Shape::Bytes, self.content@) ==> *final(self.source) == *old(self.source),
    {
        self.deserialize(Shape::Bytes)
    }

    pub fn deserialize_byte_buf(self) -> (r: Result<Visit<'de>, Error>)
        ensures
            concluded(planned(Shape::ByteBuf, self.content@), outcome(r)),
            !asks(Shape::ByteBuf, self.content@) ==> *final(self.source) == *old(self.source),
    {
        self.deserialize(Shape::ByteBuf)
    }

    /// The value is dropped unseen, placeholder or not.
    pub fn deserialize_ignored_any(self) -> (r: Result<Visit<'de>, Error>)
        ensures
            concluded(planned(Shape::IgnoredAny, self.content@), outcome(r)),
            !asks(Shape::IgnoredAny, self.content@) ==> *final(self.source) == *old(self.source),
    {
        self.deserialize(Shape::IgnoredAny)
    }
}

/// Whether the texts that a decoder reports of its own accord are resolved.
#[derive(Clone, Copy, Debug, PartialEq, Eq)]
pub enum Mode {
    /// They are handed to the source.
    Substitute,
    /// They are handed on as they are: the text names a variant or a field.
    Verbatim,
}

/// What the decoder is asked when the application requests a shape.
#[derive(Clone, Copy, Debug, PartialEq, Eq)]
pub enum Route {
    /// Whatever primitive is there, taken by a
    /// [`ContentVisitor`](crate::content::ContentVisitor) and resolved by
    /// [`ContentVarDeserializer::deserialize`].
    Capture,
    /// A text, by name: a format that writes `300` for a number and for a text
    /// alike then answers with the text, which is resolved by
    /// [`ContentVarDeserializer::from_text`].
    Text,
    /// Bytes, by name, resolved by [`ContentVarDeserializer::from_raw`].
    RawBytes,
    /// The request as the application made it, with the application's visitor
    /// inside a [`Wrap`] of the mode given.
    Forward(Mode),
}

/// The route of each shape.
///
/// A boolean, a number and a character are captured, since the leaf may hold a
/// text in their place. A text and bytes are asked for by name. Everything else
/// is structure, which is the decoder's to read: the request is forwarded, and
/// only what the decoder reports inside comes back to the proxy. The name of a
/// variant or of a field is structure too, and is never resolved.
pub open spec fn route_of(requested: Shape) -> Route {
    match requested {
        Shape::Bool
        | Shape::I8
        | Shape::I16
        | Shape::I32
        | Shape::I64
        | Shape::U8
        | Shape::U16
        | Shape::U32
        | Shape::U64
        | Shape::F32
        | Shape::F64
        | Shape::Char => Route::Capture,
        Shape::Str | Shape::String => Route::Text,
        Shape::Bytes | Shape::ByteBuf => Route::RawBytes,
        Shape::Identifier => Route::Forward(Mode::Verbatim),
        _ => Route::Forward(Mode::Substitute),
    }
}

/// A decoder together with the source that resolves what it reports.
///
/// The proxy keeps nothing from one decode call to the next: both parts are
/// borrowed or owned for one call tree, and [`Deserializer::into_parts`]
/// gives them back.
pub struct Deserializer<'a, D, S> {
    pub de: D,
    pub source: &'a mut S,
}

impl<'a, D, S> Deserializer<'a, D, S> {
    pub fn new(de: D, source: &'a mut S) -> (r: Self)
        ensures
            r.de == de,
            *r.source == *old(source),
            *final(r.source) == *final(source),
    {
        Deserializer { de, source }
    }

    /// What the decoder is to be asked for `requested`.
    pub fn route(&self, requested: Shape) -> (r: Route)
        ensures
            r == route_of(requested),
    {
        match requested {
            Shape::Bool
            | Shape::I8
            | Shape::I16
            | Shape::I32
            | Shape::I64
            | Shape::U8
            | Shape::U16
            | Shape::U32
            | Shape::U64
            | Shape::F32
            | Shape::F64
            | Shape::Char => Route::Capture,
            Shape::Str | Shape::String => Route::Text,
            Shape::Bytes | Shape::ByteBuf => Route::RawBytes,
            Shape::Identifier => Route::Forward(Mode::Verbatim),
            _ => Route::Forward(Mode::Substitute),
        }
    }

    /// The decoder and the source, for the one who makes the request.
    pub fn into_parts(self) -> (r: (D, &'a mut S))
        ensures
            r.0 == self.de,
            *r.1 == *old(self.source),
            *final(r.1) == *final(self.source),
    {
        (self.de, self.source)
    }
}

/// The places inside a structure where the decoder hands out a decoder for a
/// nested value.
#[derive(Clone, Copy, Debug, PartialEq, Eq)]
pub enum Slot {
    /// The value of an option that is present.
    Optional,
    /// The value inside a newtype.
    Newtype,
    /// An element of a sequence or of a tuple.
    Element,
    /// The key of a map entry, or the name of a field.
    Key,
    /// The value of a map entry, or of a field.
    Value,
    /// The name of the variant of an enum.
    Variant,
    /// What the variant of an enum holds.
    Payload,
}

/// Whether the nested decoder of a slot is put behind the proxy. Keys and
/// variant names are not: they say where in the structure a value stands, and
/// are read as they are written.
pub open spec fn proxied(slot: Slot) -> bool {
    !(slot is Key || slot is Variant)
}

/// Decides what is done with what the decoder reports: whether it is
/// handed on as it is, or whether the source is asked, and what.
pub fn watch<'de>(mode: Mode, event: Visit<'de>) -> (r: Step<'de>)
    ensures
        r@ == watched(mode, event@),
        mode is Verbatim || !(event@ is Text) ==> r == Step::Hand(event),
{
    match mode {
        Mode::Verbatim => Step::Hand(event),
        Mode::Substitute => match event {
            Visit::Str(v) => Step::Ask { question: Question::Any(Cow::Borrowed(v)), keep: false },
            Visit::BorrowedStr(v) => Step::Ask {
                question: Question::Any(Cow::Borrowed(v)),
                keep: true,
            },
            Visit::String(v) => Step::Ask { question: Question::Any(Cow::Owned(v)), keep: false },
            other => Step::Hand(other),
        },
    }
}

/// Stands between a decoder and something of the application's: a visitor, a
/// seed, or the access to a sequence, a map or an enum.
///
/// Whatever the decoder reports to the delegate passes through
/// [`Wrap::visit`]; whatever nested decoder it hands out is put behind the
/// proxy where [`Wrap::enters`] says so.
pub struct Wrap<'a, T, S> {
    pub delegate: T,
    pub source: &'a mut S,
    pub mode: Mode,
}

impl<'a, T, S> Wrap<'a, T, S> {
    /// A wrap that resolves texts.
    pub fn new(delegate: T, source: &'a mut S) -> (r: Self)
        ensures
            r.delegate == delegate,
            r.mode == Mode::Substitute,
            *r.source == *old(source),
            *final(r.source) == *final(source),
    {
        Wrap { delegate, source, mode: Mode::Substitute }
    }

    /// A wrap of the mode that a [`Route::Forward`] names.
    pub fn with_mode(delegate: T, source: &'a mut S, mode: Mode) -> (r: Self)
        ensures
            r.delegate == delegate,
            r.mode == mode,
            *r.source == *old(source),
            *final(r.source) == *final(source),
    {
        Wrap { delegate, source, mode }
    }

    /// Whether the nested decoder of `slot` is put behind the proxy.
    pub fn enters(&self, slot: Slot) -> (r: bool)
        ensures
            r == proxied(slot),
    {
        match slot {
            Slot::Key | Slot::Variant => false,
            _ => true,
        }
    }
}

impl<'a, T, S: Source> Wrap<'a, T, S> {
    /// Decides what the delegate is told when the decoder reports `event`, and
    /// gives the delegate back: takes the step that [`watched`] names. The
    /// source is left alone unless a text is substituted.
    pub fn visit<'de>(self, event: Visit<'de>) -> (r: (T, Result<Visit<'de>, Error>))
        ensures
            r.0 == self.delegate,
            concluded(watched(self.mode, event@), outcome(r.1)),
            self.mode is Verbatim || !(event@ is Text) ==> r.1 == Ok::<Visit<'de>, Error>(event)
                && *final(self.source) == *old(self.source),
    {
        let Wrap { delegate, source, mode } = self;
        let r = take(watch(mode, event), source);
        (delegate, r)
    }
}

} // verus!
