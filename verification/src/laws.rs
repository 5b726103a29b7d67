//! What holds of the proxy as a whole.
//!
//! The functions of this module compute nothing. Each states a property of the
//! decisions that the other modules make, over the same spec functions that
//! their contracts use, and is proved from the definitions.

use vstd::prelude::*;
use crate::de::{Mode, QuestionView, Route, Slot, StepView};
use crate::error::ErrorView;
use crate::leaf::{Held, Leaf};
use crate::shape::Shape;

verus! {

/// For every request and every leaf there is one way to go: the leaf is handed
/// on, if it passes or is to be ignored; the source is asked, if the leaf is a
/// text, or bytes where bytes were requested; and the leaf is refused
/// otherwise.
pub proof fn law_one_way(requested: Shape, leaf: Leaf)
    ensures
        crate::de::planned(requested, leaf) is Hand <==> requested is IgnoredAny
            || crate::de::passes(requested, leaf),
        crate::de::planned(requested, leaf) is Ask <==> crate::de::asks(requested, leaf),
        crate::de::planned(requested, leaf) is Refuse <==> crate::de::refuses(requested, leaf),
        !(crate::de::passes(requested, leaf) && crate::de::expands(requested, leaf)),
{
}

/// Passthrough, where the application names the shape: a leaf that is neither
/// a text nor bytes never reaches the source. It is handed on exactly as the
/// decoder reported it, or refused for its shape; it is never replaced.
pub proof fn law_passthrough_typed(requested: Shape, leaf: Leaf, r: Result<Leaf, ErrorView>)
    requires
        crate::de::concluded(crate::de::planned(requested, leaf), r),
        !(requested is IgnoredAny),
        !(leaf is Text),
        !(leaf is Bytes),
    ensures
        !crate::de::asks(requested, leaf),
        r == Ok::<Leaf, ErrorView>(leaf) || r == Err::<Leaf, ErrorView>(
            crate::de::mismatch(requested, leaf),
        ),
{
}

/// Passthrough, where the shape is left to the decoder: whatever the decoder
/// reports that is no text is handed on exactly as it was reported.
pub proof fn law_passthrough_dynamic(mode: Mode, event: Leaf, r: Result<Leaf, ErrorView>)
    requires
        crate::de::concluded(crate::de::watched(mode, event), r),
        !(event is Text),
    ensures
        r == Ok::<Leaf, ErrorView>(event),
{
}

/// Passthrough of a text, where the shape is left to the decoder: the source
/// is asked with the text that the decoder reported; and if it answers with
/// what it was given, as it must for a text that holds no variable, the
/// application is told what the decoder reported, through the same callback:
/// lent, borrowed from the input, or given away.
pub proof fn law_passthrough_text(event: Leaf)
    requires
        event is Text,
    ensures
        crate::de::watched(Mode::Substitute, event) matches StepView::Ask {
            question: QuestionView::Any(text, held),
            keep,
        } && text == event->Text_0 && crate::de::suits(
            QuestionView::Any(text, held),
            Leaf::Text(text, held),
        ) && crate::de::replayed(keep, Ok::<Leaf, ErrorView>(Leaf::Text(text, held))) == Ok::<
            Leaf,
            ErrorView,
        >(event),
{
}

/// Passthrough of a text, where the application names a text or bytes: the
/// source is asked with what the decoder reported, held as the decoder held
/// it; and if it answers with what it was given, the application is told
/// exactly that, borrowed if it was borrowed.
pub proof fn law_passthrough_typed_text(requested: Shape, leaf: Leaf)
    requires
        requested is Char || requested is Str || requested is String || requested is Bytes
            || requested is ByteBuf,
        leaf matches Leaf::Text(_, held) && !(held is Transient) || (leaf matches Leaf::Bytes(
            _,
            held,
        ) && !(held is Transient) && (requested is Bytes || requested is ByteBuf)),
    ensures
        crate::de::planned(requested, leaf) matches StepView::Ask { question, keep }
            && crate::de::suits(question, leaf) && crate::de::replayed(
            keep,
            Ok::<Leaf, ErrorView>(leaf),
        ) == Ok::<Leaf, ErrorView>(leaf) && question == (match leaf {
            Leaf::Text(text, held) => QuestionView::Str(text, held),
            Leaf::Bytes(bytes, held) => QuestionView::Bytes(bytes, held),
            _ => arbitrary(),
        }),
{
}

/// Substitution, where the application names a boolean or a number: for a
/// text the source is asked for a value of exactly that shape, with the text;
/// any value of that shape answers the question; and what the source answers
/// with is what the application is told, exactly.
pub proof fn law_typed_substitution(requested: Shape, text: Seq<char>, held: Held, answer: Leaf)
    requires
        crate::de::fits(answer, requested),
    ensures
        crate::de::planned(requested, Leaf::Text(text, held)) == (StepView::Ask {
            question: QuestionView::Value(requested, text),
            keep: true,
        }),
        crate::de::suits(QuestionView::Value(requested, text), answer),
        crate::de::replayed(true, Ok::<Leaf, ErrorView>(answer)) == Ok::<Leaf, ErrorView>(answer),
        crate::de::concluded(
            crate::de::planned(requested, Leaf::Text(text, held)),
            Ok::<Leaf, ErrorView>(answer),
        ),
{
    assert(crate::de::suits(QuestionView::Value(requested, text), answer));
}

/// An error of the source is the error of the resolution, whatever was asked.
pub proof fn law_failure_is_handed_on(keep: bool, e: ErrorView)
    ensures
        crate::de::replayed(keep, Err::<Leaf, ErrorView>(e)) == Err::<Leaf, ErrorView>(e),
{
}

/// Key immunity: the key of a map entry and the name of a variant are read by
/// the decoder alone, while the value of the entry and what the variant holds
/// are put behind the proxy; and where an identifier is requested from the
/// proxy itself, whatever is reported for it is handed on as it is, and the
/// source is not asked.
pub proof fn law_key_immunity(key: Leaf)
    ensures
        !crate::de::proxied(Slot::Key),
        !crate::de::proxied(Slot::Variant),
        crate::de::proxied(Slot::Value),
        crate::de::proxied(Slot::Payload),
        crate::de::route_of(Shape::Identifier) == Route::Forward(Mode::Verbatim),
        crate::de::watched(Mode::Verbatim, key) == StepView::Hand(key),
{
}

/// The order of inference: a value that reads as a boolean is one; failing
/// that, one that reads as an unsigned integer is one, though it may read as
/// a signed or a floating point number as well; failing that, one that reads
/// as a signed integer is one; failing that, one that reads as a floating
/// point number is one; and what reads as none of them has no shape of its
/// own.
pub proof fn law_inference_order(text: Seq<char>, as_double: Option<u64>)
    ensures
        crate::num::boolean(text) matches Some(b) ==> crate::source::utils::inferred(
            text,
            as_double,
        ) == Some(Leaf::Bool(b)),
        crate::num::boolean(text) is None ==> (crate::num::spec_u64(text) matches Some(n)
            ==> crate::source::utils::inferred(text, as_double) == Some(Leaf::U64(n))),
        crate::num::boolean(text) is None && crate::num::spec_u64(text) is None ==> (
        crate::num::spec_i64(text) matches Some(n) ==> crate::source::utils::inferred(
            text,
            as_double,
        ) == Some(Leaf::I64(n))),
        crate::num::boolean(text) is None && crate::num::spec_u64(text) is None
            && crate::num::spec_i64(text) is None ==> crate::source::utils::inferred(
            text,
            as_double,
        ) == match as_double {
            Some(bits) => Some(Leaf::F64(bits)),
            None => None,
        },
{
}

/// A boolean is no number: the two readings never compete.
pub proof fn law_boolean_is_no_integer(text: Seq<char>, min: int, max: int)
    requires
        crate::num::boolean(text) is Some,
    ensures
        crate::num::integer(text, min, max) is None,
{
    reveal_strlit("true");
    reveal_strlit("false");
    let first = text[0];
    assert(first == 't' || first == 'f');
    let digits = if text.len() > 0 && (text[0] == '+' || (min < 0 && text[0] == '-')) {
        text.skip(1)
    } else {
        text
    };
    assert(digits =~= text);
    assert(!crate::num::is_digit(digits[0]));
}

/// A reference names its variable: the text that is written for the variable
/// `var` refers to `var`.
pub proof fn law_reference_names_variable(prefix: Seq<char>, var: Seq<char>, suffix: Seq<char>)
    ensures
        crate::text::enclosed(prefix + var + suffix, prefix, suffix) == Some(var),
{
    let whole = prefix + var + suffix;
    assert(prefix =~= whole.subrange(0, prefix.len() as int));
    let rest = whole.skip(prefix.len() as int);
    assert(rest =~= var + suffix);
    assert(suffix =~= rest.subrange(rest.len() - suffix.len(), rest.len() as int));
    assert(rest.take(rest.len() - suffix.len()) =~= var);
}

} // verus!
