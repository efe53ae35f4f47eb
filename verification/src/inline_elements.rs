//! Inline element nodes of the declarative metaschema catalogue: element
//! shapes that occur only nested inside other productions.

use vstd::prelude::*;

use crate::names::QName;

verus! {

#[derive(Debug, PartialEq)]
pub struct AllAllModel {
    pub attrs: Vec<(QName, String)>,
    pub all_model: crate::xs::AllModel,
}

#[derive(Debug, PartialEq)]
pub struct AlternativeAltType {
    pub attrs: Vec<(QName, String)>,
    pub annotation: Option<crate::xs::Annotation>,
    pub type_: Option<crate::enums::Type>,
}

#[derive(Debug, PartialEq)]
pub struct AnyWildcard {
    pub attrs: Vec<(QName, String)>,
    pub annotation: Option<crate::xs::Annotation>,
}

#[derive(Debug, PartialEq)]
pub struct AssertAssertion {
    pub attrs: Vec<(QName, String)>,
    pub annotation: Option<crate::xs::Annotation>,
}

#[derive(Debug, PartialEq)]
pub struct AttributeAttribute {
    pub attrs: Vec<(QName, String)>,
    pub annotation: Option<crate::xs::Annotation>,
    pub simple_type_local_simple_type: Option<SimpleTypeLocalSimpleType>,
}

#[derive(Debug, PartialEq)]
pub struct AttributeGroupAttributeGroupRef {
    pub attrs: Vec<(QName, String)>,
    pub annotation: Option<crate::xs::Annotation>,
}

#[derive(Debug, PartialEq)]
pub struct ChoiceSimpleExplicitGroup {
    pub attrs: Vec<(QName, String)>,
    pub annotation: Option<crate::xs::Annotation>,
    pub nested_particle: Vec<crate::xs::NestedParticle>,
}

#[derive(Debug, PartialEq)]
pub struct ComplexTypeLocalComplexType {
    pub attrs: Vec<(QName, String)>,
    pub annotation: Option<crate::xs::Annotation>,
    pub complex_type_model: crate::xs::ComplexTypeModel,
}

#[derive(Debug, PartialEq)]
pub struct ElementLocalElement {
    pub attrs: Vec<(QName, String)>,
    pub annotation: Option<crate::xs::Annotation>,
    pub type_: Option<crate::enums::Type>,
    pub alternative_alt_type: Vec<AlternativeAltType>,
    pub identity_constraint: Vec<crate::xs::IdentityConstraint>,
}

#[derive(Debug, PartialEq)]
pub struct ExtensionSimpleExtensionType {
    pub attrs: Vec<(QName, String)>,
    pub annotation: Option<crate::xs::Annotation>,
    pub attr_decls: crate::xs::AttrDecls,
    pub assertions: crate::xs::Assertions,
}

#[derive(Debug, PartialEq)]
pub struct ExtensionExtensionType {
    pub attrs: Vec<(QName, String)>,
    pub annotation: Option<crate::xs::Annotation>,
    pub open_content: Option<crate::xs::OpenContent>,
    pub type_def_particle: Option<crate::xs::TypeDefParticle>,
    pub attr_decls: crate::xs::AttrDecls,
    pub assertions: crate::xs::Assertions,
}

#[derive(Debug, PartialEq)]
pub struct GroupGroupRef {
    pub attrs: Vec<(QName, String)>,
    pub annotation: Option<crate::xs::Annotation>,
}

#[derive(Debug, PartialEq)]
pub struct GroupSequenceAnnotation {
    pub attrs: Vec<(QName, String)>,
    pub annotation: Option<crate::xs::Annotation>,
}

#[derive(Debug, PartialEq)]
pub struct RestrictionComplexRestrictionType {
    pub attrs: Vec<(QName, String)>,
    pub annotation: Option<crate::xs::Annotation>,
    pub choice_sequence_open_content_type_def_particle: Option<
        crate::enums::ChoiceSequenceOpenContentTypeDefParticle,
    >,
    pub attr_decls: crate::xs::AttrDecls,
    pub assertions: crate::xs::Assertions,
}

#[derive(Debug, PartialEq)]
pub struct RestrictionSimpleRestrictionType {
    pub attrs: Vec<(QName, String)>,
    pub annotation: Option<crate::xs::Annotation>,
    pub choice_simple_restriction_model: Option<crate::enums::ChoiceSimpleRestrictionModel>,
    pub attr_decls: crate::xs::AttrDecls,
    pub assertions: crate::xs::Assertions,
}

#[derive(Debug, PartialEq)]
pub struct SequenceSimpleExplicitGroup {
    pub attrs: Vec<(QName, String)>,
    pub annotation: Option<crate::xs::Annotation>,
    pub nested_particle: Vec<crate::xs::NestedParticle>,
}

#[derive(Debug, PartialEq)]
pub struct SimpleTypeLocalSimpleType {
    pub attrs: Vec<(QName, String)>,
    pub annotation: Option<crate::xs::Annotation>,
    pub simple_derivation: crate::xs::SimpleDerivation,
}

} // verus!
