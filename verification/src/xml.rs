//! Writing XML text.

pub mod writer;

pub use self::writer::{EscapedDisplay, WriterView, XmlState, XmlWriter};
