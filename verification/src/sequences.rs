//! Sequence nodes of the declarative metaschema catalogue: fixed-order
//! groupings the XSD metaschema grammar names.

use vstd::prelude::*;

verus! {

#[derive(Debug, PartialEq)]
pub struct SequenceAny {
    pub any: crate::support::Any,
}

#[derive(Debug, PartialEq)]
pub struct AnnotatedOpenContent {
    pub default_open_content: crate::xs::DefaultOpenContent,
    pub annotation: Vec<crate::xs::Annotation>,
}

#[derive(Debug, PartialEq)]
pub struct SequenceSchemaTopAnnotation {
    pub schema_top: crate::xs::SchemaTop,
    pub annotation: Vec<crate::xs::Annotation>,
}

#[derive(Debug, PartialEq)]
pub struct UniquenessSpec {
    pub selector: crate::xs::Selector,
    pub field: Vec<crate::xs::Field>,
}

} // verus!
