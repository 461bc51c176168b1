//! The decisions of a sector dump.
//!
//! A dump reads a binary sector, optionally converts it into renderable
//! faces, and writes the result as pretty JSON, compact JSON or YAML. This
//! library holds what such a run decides: which input is read
//! ([`Options::input_source`]), which shape the output has
//! ([`Options::shape`], [`Output::select`]), which encoding it is written in
//! ([`Options::encoding`]), under which name each shape is tagged
//! ([`Shape::name`]), and in which order the four stages follow one another
//! and end ([`Pipeline`]).
//!
//! The library opens no file, decodes no byte and writes no text. A driver
//! performs each [`Action`] that the pipeline hands out and reports how it
//! went as an [`Event`].

pub mod options;
pub mod output;
pub mod pipeline;

pub use options::Encoding;
pub use options::InputSource;
pub use options::Options;
pub use output::Output;
pub use output::Shape;
pub use pipeline::Action;
pub use pipeline::ErrorKind;
pub use pipeline::Event;
pub use pipeline::Pipeline;
pub use pipeline::Stage;
