//! Variables in place of values, for data that is decoded field by field.
//!
//! A document may hold a placeholder such as `${PORT}` where a number, a
//! boolean or a text is due. This crate decides, for every primitive leaf a
//! decoder reports, whether the leaf is handed on as it is, replaced by what a
//! [`Source`](source::Source) resolves it to, or refused, and it does so
//! without looking at the format of the document or at the types of the
//! application.
//!
//! The crate holds the decisions only. It never drives a decoder itself: the
//! caller reports what the decoder found and receives what is to be handed to
//! the application. Nor does it touch a floating point number, a file or the
//! environment: numbers of that kind pass through as bit patterns, and what
//! has to be read is read by the caller.
//!
//! - [`de`]: the proxy. What the decoder is asked for each request, and what
//!   becomes of each leaf that it reports.
//! - [`content`], [`visit`], [`leaf`]: a leaf as it comes from the decoder, as
//!   it goes to the application, and as contracts see it.
//! - [`value`]: bytes from decoders that have no byte strings.
//! - [`source`]: the interface to a source, and two sources, one that looks
//!   variables up by name and one that takes them for paths of files.
//! - [`num`], [`text`]: how values and references are written.
//! - [`laws`]: what holds of all of it together.

pub mod content;
pub mod de;
pub mod error;
pub mod laws;
pub mod leaf;
pub mod num;
pub mod shape;
pub mod source;
pub mod text;
pub mod value;
pub mod visit;

pub use self::content::{Content, ContentVisitor};
pub use self::de::{
    ContentVarDeserializer, Deserializer, Mode, Question, Route, Slot, Step, Wrap,
};
pub use self::error::{Error, Unexpected};
pub use self::shape::Shape;
pub use self::source::{MapSource, StringSource};
pub use self::visit::Visit;
