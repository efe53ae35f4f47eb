//! Typed, fail-fast parse errors.
//!
//! Every structural violation aborts the whole document parse with one of
//! these values; there is no retry and no partial result. Each error carries
//! the offending tag and, where applicable, the attribute or child name
//! involved.

use vstd::prelude::*;

verus! {

/// The kind of a parse failure, without its payload.
#[derive(Clone, Copy, Debug, PartialEq, Eq, Structural)]
pub enum ErrorKind {
    /// A qualified-name text has more than one colon or an empty segment.
    MalformedName,
    /// A qualified name or attribute uses an undeclared namespace prefix.
    UnknownPrefix,
    /// `xml`/`xmlns` redeclared, or a prefix declared twice inconsistently.
    DuplicateNamespacePrefix,
    /// An attribute not recognized by the current production.
    UnknownAttribute,
    /// A child element not recognized by the current production.
    UnknownElement,
    /// A single-valued attribute given twice in one tag.
    DuplicateAttribute,
    /// A required attribute or child is absent.
    MissingRequiredField,
    /// More than one type-bearing construct where at most one is allowed.
    ConflictingDefinition,
    /// Two same-named top-level type or group definitions in one schema.
    DuplicateTypeOrGroupName,
    /// The token stream violates structural expectations.
    UnexpectedToken,
}

/// A fatal parse failure. The tag fields hold the `(prefix, local)` pair of
/// the enclosing element at the point of failure.
#[derive(Debug, PartialEq, Eq)]
#[allow(inconsistent_fields)]
pub enum ParseError {
    MalformedName { text: String },
    UnknownPrefix { prefix: String },
    DuplicateNamespacePrefix { prefix: String },
    UnknownAttribute { tag: (String, String), attribute: (String, String) },
    UnknownElement { tag: (String, String), element: (String, String) },
    DuplicateAttribute { tag: (String, String), attribute: String },
    MissingRequiredField { tag: (String, String), field: String },
    ConflictingDefinition { tag: (String, String) },
    DuplicateTypeOrGroupName { name: String },
    UnexpectedToken { tag: (String, String) },
}

impl ParseError {
    /// The kind of this failure.
    pub open spec fn kind(&self) -> ErrorKind {
        match self {
            ParseError::MalformedName { .. } => ErrorKind::MalformedName,
            ParseError::UnknownPrefix { .. } => ErrorKind::UnknownPrefix,
            ParseError::DuplicateNamespacePrefix { .. } => ErrorKind::DuplicateNamespacePrefix,
            ParseError::UnknownAttribute { .. } => ErrorKind::UnknownAttribute,
            ParseError::UnknownElement { .. } => ErrorKind::UnknownElement,
            ParseError::DuplicateAttribute { .. } => ErrorKind::DuplicateAttribute,
            ParseError::MissingRequiredField { .. } => ErrorKind::MissingRequiredField,
            ParseError::ConflictingDefinition { .. } => ErrorKind::ConflictingDefinition,
            ParseError::DuplicateTypeOrGroupName { .. } => ErrorKind::DuplicateTypeOrGroupName,
            ParseError::UnexpectedToken { .. } => ErrorKind::UnexpectedToken,
        }
    }

    /// The kind of this failure, for dispatching without the payload.
    pub fn error_kind(&self) -> (k: ErrorKind)
        ensures
            k == self.kind(),
    {
        match self {
            ParseError::MalformedName { .. } => ErrorKind::MalformedName,
            ParseError::UnknownPrefix { .. } => ErrorKind::UnknownPrefix,
            ParseError::DuplicateNamespacePrefix { .. } => ErrorKind::DuplicateNamespacePrefix,
            ParseError::UnknownAttribute { .. } => ErrorKind::UnknownAttribute,
            ParseError::UnknownElement { .. } => ErrorKind::UnknownElement,
            ParseError::DuplicateAttribute { .. } => ErrorKind::DuplicateAttribute,
            ParseError::MissingRequiredField { .. } => ErrorKind::MissingRequiredField,
            ParseError::ConflictingDefinition { .. } => ErrorKind::ConflictingDefinition,
            ParseError::DuplicateTypeOrGroupName { .. } => ErrorKind::DuplicateTypeOrGroupName,
            ParseError::UnexpectedToken { .. } => ErrorKind::UnexpectedToken,
        }
    }
}

} // verus!
