//! Finds text and CDATA nodes of an XML document that hold a control
//! character other than whitespace.
//!
//! The crate is the decision logic of a streaming scan: the character
//! predicate, the classification of a source string, the verdict on an HTTP
//! status, and the step that turns one tokenizer event into an output line
//! and a decision to go on or stop.

pub mod chars;
pub mod source;
pub mod render;
pub mod scan;
pub mod laws;
