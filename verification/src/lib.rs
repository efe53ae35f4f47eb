//! Front end for a pragmatic subset of XML Schema Definition (XSD) documents.
//!
//! The crate consumes a pre-tokenized XML token sequence through a replayable
//! [`token::Stream`], resolves namespace-qualified names, and assembles a
//! typed schema model by recursive descent, one parse routine per XSD
//! production.

pub mod enums;
pub mod errors;
pub mod grammar;
pub mod inline_elements;
pub mod model;
pub mod names;
pub mod parser;
pub mod sequences;
pub mod support;
pub mod text;
pub mod token;
pub mod xs;
