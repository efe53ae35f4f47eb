//! Shared carriers for the declarative metaschema catalogue: wildcard
//! content and homogeneous lists.

use vstd::prelude::*;

use crate::token::Token;

verus! {

/// Unmodeled wildcard content: the raw tokens of a structurally consumed
/// subtree.
#[derive(Debug, PartialEq)]
pub struct Any {
    pub tokens: Vec<Token>,
}

/// A homogeneous list of catalogue items.
#[derive(Debug, PartialEq)]
pub struct List<Item>(pub Vec<Item>);

} // verus!
