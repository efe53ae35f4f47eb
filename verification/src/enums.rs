//! Choice nodes of the declarative metaschema catalogue: each enum stands
//! for one point where the XSD metaschema grammar picks among several
//! productions.

use vstd::prelude::*;

verus! {

#[derive(Debug, PartialEq)]
pub enum ChoiceAllChoiceSequence {
    All(Box<crate::inline_elements::AllAllModel>),
    Choice(Box<crate::inline_elements::ChoiceSimpleExplicitGroup>),
    Sequence(Box<crate::inline_elements::SequenceSimpleExplicitGroup>),
}

#[derive(Debug, PartialEq)]
pub enum ChoiceAnnotationRedefinable {
    Annotation(Box<crate::xs::Annotation>),
    Redefinable(Box<crate::xs::Redefinable>),
}

#[derive(Debug, PartialEq)]
pub enum AnnotationContent {
    Appinfo(Box<crate::xs::Appinfo>),
    Documentation(Box<crate::xs::Documentation>),
}

#[derive(Debug, PartialEq)]
pub enum AttrOrAttrGroup {
    Attribute(Box<crate::inline_elements::AttributeAttribute>),
    AttributeGroup(Box<crate::inline_elements::AttributeGroupAttributeGroupRef>),
}

#[derive(Debug, PartialEq)]
pub enum ChoiceElementAnyGroup {
    Element(Box<crate::inline_elements::ElementLocalElement>),
    Any(Box<crate::xs::Any>),
    Group(Box<crate::inline_elements::GroupSequenceAnnotation>),
}

#[derive(Debug, PartialEq)]
pub enum ChoiceFacetAny {
    Facet(Box<crate::xs::Facet>),
    Any(Box<crate::support::Any>),
}

#[derive(Debug, PartialEq)]
pub enum ContentDef {
    Restriction(Box<crate::inline_elements::RestrictionSimpleRestrictionType>),
    Extension(Box<crate::inline_elements::ExtensionSimpleExtensionType>),
}

#[derive(Debug, PartialEq)]
pub enum ChoiceSequenceOpenContentTypeDefParticle {
    SequenceOpenContentTypeDefParticle {
        open_content: Option<Box<crate::xs::OpenContent>>,
        type_def_particle: Box<crate::xs::TypeDefParticle>,
    },
}

#[derive(Debug, PartialEq)]
pub enum ChoiceSequenceOpenContentTypeDefParticleSimpleRestrictionModel {
    SequenceOpenContentTypeDefParticle {
        open_content: Option<Box<crate::xs::OpenContent>>,
        type_def_particle: Box<crate::xs::TypeDefParticle>,
    },
    SimpleRestrictionModel(Box<crate::xs::SimpleRestrictionModel>),
}

#[derive(Debug, PartialEq)]
pub enum ChoiceSimpleRestrictionModel {
    SimpleRestrictionModel(Box<crate::xs::SimpleRestrictionModel>),
}

#[derive(Debug, PartialEq)]
pub enum Type {
    SimpleType(Box<crate::inline_elements::SimpleTypeLocalSimpleType>),
    ComplexType(Box<crate::inline_elements::ComplexTypeLocalComplexType>),
}

} // verus!
