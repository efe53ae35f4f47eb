//! The declarative catalogue of the XSD metaschema's own vocabulary: one
//! data type per element of the `xs` namespace, mirroring the grammar the
//! recursive-descent engine walks. These types carry no behaviour; they
//! describe the full grammar shape, of which the engine models a pragmatic
//! subset.

use vstd::prelude::*;

use crate::names::QName;

verus! {

#[derive(Debug, PartialEq)]
pub struct All {
    pub attrs: Vec<(QName, String)>,
    pub all_model: AllModel,
}

#[derive(Debug, PartialEq)]
pub struct Annotation {
    pub attrs: Vec<(QName, String)>,
    pub annotation_content: Vec<crate::enums::AnnotationContent>,
}

#[derive(Debug, PartialEq)]
pub struct Any {
    pub attrs: Vec<(QName, String)>,
    pub annotation: Option<Annotation>,
}

#[derive(Debug, PartialEq)]
pub struct AnyAttribute {
    pub attrs: Vec<(QName, String)>,
    pub annotation: Option<Annotation>,
}

#[derive(Debug, PartialEq)]
pub struct Appinfo {
    pub attrs: Vec<(QName, String)>,
    pub sequence_any: Vec<crate::sequences::SequenceAny>,
}

#[derive(Debug, PartialEq)]
pub struct Assertion {
    pub attrs: Vec<(QName, String)>,
    pub annotation: Option<Annotation>,
}

#[derive(Debug, PartialEq)]
pub struct Attribute {
    pub attrs: Vec<(QName, String)>,
    pub annotation: Option<Annotation>,
    pub simple_type_local_simple_type: Option<crate::inline_elements::SimpleTypeLocalSimpleType>,
}

#[derive(Debug, PartialEq)]
pub struct AttributeGroup {
    pub attrs: Vec<(QName, String)>,
    pub annotation: Option<Annotation>,
    pub attr_decls: AttrDecls,
}

#[derive(Debug, PartialEq)]
pub struct Choice {
    pub attrs: Vec<(QName, String)>,
    pub annotation: Option<Annotation>,
    pub nested_particle: Vec<NestedParticle>,
}

#[derive(Debug, PartialEq)]
pub struct ComplexContent {
    pub attrs: Vec<(QName, String)>,
    pub annotation: Option<Annotation>,
    pub content_def: crate::enums::ContentDef,
}

#[derive(Debug, PartialEq)]
pub struct ComplexType {
    pub attrs: Vec<(QName, String)>,
    pub annotation: Option<Annotation>,
    pub complex_type_model: ComplexTypeModel,
}

#[derive(Debug, PartialEq)]
pub struct DefaultOpenContent {
    pub attrs: Vec<(QName, String)>,
    pub annotation: Option<Annotation>,
    pub any_wildcard: crate::inline_elements::AnyWildcard,
}

#[derive(Debug, PartialEq)]
pub struct Documentation {
    pub attrs: Vec<(QName, String)>,
    pub sequence_any: Vec<crate::sequences::SequenceAny>,
}

#[derive(Debug, PartialEq)]
pub struct Element {
    pub attrs: Vec<(QName, String)>,
    pub annotation: Option<Annotation>,
    pub type_: Option<crate::enums::Type>,
    pub alternative_alt_type: Vec<crate::inline_elements::AlternativeAltType>,
    pub identity_constraint: Vec<IdentityConstraint>,
}

#[derive(Debug, PartialEq)]
pub struct Enumeration {
    pub attrs: Vec<(QName, String)>,
    pub annotation: Option<Annotation>,
}

#[derive(Debug, PartialEq)]
pub struct ExplicitTimezone {
    pub attrs: Vec<(QName, String)>,
    pub annotation: Option<Annotation>,
}

#[derive(Debug, PartialEq)]
pub struct Facet {
    pub attrs: Vec<(QName, String)>,
}

#[derive(Debug, PartialEq)]
pub struct Field {
    pub attrs: Vec<(QName, String)>,
    pub annotation: Option<Annotation>,
}

#[derive(Debug, PartialEq)]
pub struct FractionDigits {
    pub attrs: Vec<(QName, String)>,
    pub annotation: Option<Annotation>,
}

#[derive(Debug, PartialEq)]
pub struct Group {
    pub attrs: Vec<(QName, String)>,
    pub annotation: Option<Annotation>,
    pub choice_all_choice_sequence: crate::enums::ChoiceAllChoiceSequence,
}

#[derive(Debug, PartialEq)]
pub struct Import {
    pub attrs: Vec<(QName, String)>,
    pub annotation: Option<Annotation>,
}

#[derive(Debug, PartialEq)]
pub struct Include {
    pub attrs: Vec<(QName, String)>,
    pub annotation: Option<Annotation>,
}

#[derive(Debug, PartialEq)]
pub struct Key {
    pub attrs: Vec<(QName, String)>,
    pub annotation: Option<Annotation>,
    pub uniqueness_spec: Option<crate::sequences::UniquenessSpec>,
}

#[derive(Debug, PartialEq)]
pub struct Keyref {
    pub attrs: Vec<(QName, String)>,
    pub annotation: Option<Annotation>,
    pub uniqueness_spec: Option<crate::sequences::UniquenessSpec>,
}

#[derive(Debug, PartialEq)]
pub struct Length {
    pub attrs: Vec<(QName, String)>,
    pub annotation: Option<Annotation>,
}

#[derive(Debug, PartialEq)]
pub struct List {
    pub attrs: Vec<(QName, String)>,
    pub annotation: Option<Annotation>,
    pub simple_type_local_simple_type: Option<crate::inline_elements::SimpleTypeLocalSimpleType>,
}

#[derive(Debug, PartialEq)]
pub struct MaxExclusive {
    pub attrs: Vec<(QName, String)>,
    pub annotation: Option<Annotation>,
}

#[derive(Debug, PartialEq)]
pub struct MaxInclusive {
    pub attrs: Vec<(QName, String)>,
    pub annotation: Option<Annotation>,
}

#[derive(Debug, PartialEq)]
pub struct MaxLength {
    pub attrs: Vec<(QName, String)>,
    pub annotation: Option<Annotation>,
}

#[derive(Debug, PartialEq)]
pub struct MinExclusive {
    pub attrs: Vec<(QName, String)>,
    pub annotation: Option<Annotation>,
}

#[derive(Debug, PartialEq)]
pub struct MinInclusive {
    pub attrs: Vec<(QName, String)>,
    pub annotation: Option<Annotation>,
}

#[derive(Debug, PartialEq)]
pub struct MinLength {
    pub attrs: Vec<(QName, String)>,
    pub annotation: Option<Annotation>,
}

#[derive(Debug, PartialEq)]
pub struct Notation {
    pub attrs: Vec<(QName, String)>,
    pub annotation: Option<Annotation>,
}

#[derive(Debug, PartialEq)]
pub struct OpenContent {
    pub attrs: Vec<(QName, String)>,
    pub annotation: Option<Annotation>,
    pub any_wildcard: Option<crate::inline_elements::AnyWildcard>,
}

#[derive(Debug, PartialEq)]
pub struct Override {
    pub attrs: Vec<(QName, String)>,
    pub annotation: Option<Annotation>,
    pub schema_top: Vec<SchemaTop>,
}

#[derive(Debug, PartialEq)]
pub struct Pattern {
    pub attrs: Vec<(QName, String)>,
    pub annotation: Option<Annotation>,
}

#[derive(Debug, PartialEq)]
pub struct Redefine {
    pub attrs: Vec<(QName, String)>,
    pub choice_annotation_redefinable: Vec<crate::enums::ChoiceAnnotationRedefinable>,
}

#[derive(Debug, PartialEq)]
pub struct Restriction {
    pub attrs: Vec<(QName, String)>,
    pub annotation: Option<Annotation>,
    pub simple_restriction_model: SimpleRestrictionModel,
}

#[derive(Debug, PartialEq)]
pub struct Schema {
    pub attrs: Vec<(QName, String)>,
    pub composition: Vec<Composition>,
    pub open_content: Option<crate::sequences::AnnotatedOpenContent>,
    pub sequence_schema_top_annotation: Vec<crate::sequences::SequenceSchemaTopAnnotation>,
}

#[derive(Debug, PartialEq)]
pub struct Selector {
    pub attrs: Vec<(QName, String)>,
    pub annotation: Option<Annotation>,
}

#[derive(Debug, PartialEq)]
pub struct Sequence {
    pub attrs: Vec<(QName, String)>,
    pub annotation: Option<Annotation>,
    pub nested_particle: Vec<NestedParticle>,
}

#[derive(Debug, PartialEq)]
pub struct SimpleContent {
    pub attrs: Vec<(QName, String)>,
    pub annotation: Option<Annotation>,
    pub content_def: crate::enums::ContentDef,
}

#[derive(Debug, PartialEq)]
pub struct SimpleType {
    pub attrs: Vec<(QName, String)>,
    pub annotation: Option<Annotation>,
    pub simple_derivation: SimpleDerivation,
}

#[derive(Debug, PartialEq)]
pub struct TotalDigits {
    pub attrs: Vec<(QName, String)>,
    pub annotation: Option<Annotation>,
}

#[derive(Debug, PartialEq)]
pub struct Union {
    pub attrs: Vec<(QName, String)>,
    pub annotation: Option<Annotation>,
    pub simple_type_local_simple_type: Vec<crate::inline_elements::SimpleTypeLocalSimpleType>,
}

#[derive(Debug, PartialEq)]
pub struct Unique {
    pub attrs: Vec<(QName, String)>,
    pub annotation: Option<Annotation>,
    pub uniqueness_spec: Option<crate::sequences::UniquenessSpec>,
}

#[derive(Debug, PartialEq)]
pub struct WhiteSpace {
    pub attrs: Vec<(QName, String)>,
    pub annotation: Option<Annotation>,
}

#[derive(Debug, PartialEq)]
pub struct AllModel {
    pub annotation: Option<Annotation>,
    pub choice_element_any_group: Vec<crate::enums::ChoiceElementAnyGroup>,
}

#[derive(Debug, PartialEq)]
pub struct Assertions {
    pub assert_assertion: Vec<crate::inline_elements::AssertAssertion>,
}

#[derive(Debug, PartialEq)]
pub struct AttrDecls {
    pub attribute: Vec<crate::enums::AttrOrAttrGroup>,
    pub any_attribute: Option<AnyAttribute>,
}

#[derive(Debug, PartialEq)]
pub enum ComplexTypeModel {
    SimpleContent(Box<SimpleContent>),
    ComplexContent(Box<ComplexContent>),
    CompleteContentModel {
        open_content: Option<Box<OpenContent>>,
        type_def_particle: Option<Box<TypeDefParticle>>,
        attr_decls: Box<AttrDecls>,
        assertions: Box<Assertions>,
    },
}

#[derive(Debug, PartialEq)]
pub enum Composition {
    Include(Box<Include>),
    Import(Box<Import>),
    Redefine(Box<Redefine>),
    Override(Box<Override>),
    Annotation(Box<Annotation>),
}

#[derive(Debug, PartialEq)]
pub enum IdentityConstraint {
    Unique(Box<Unique>),
    Key(Box<Key>),
    Keyref(Box<Keyref>),
}

#[derive(Debug, PartialEq)]
pub enum NestedParticle {
    Element(Box<crate::inline_elements::ElementLocalElement>),
    Group(Box<crate::inline_elements::GroupGroupRef>),
    Choice(Box<Choice>),
    Sequence(Box<Sequence>),
    Any(Box<Any>),
}

#[derive(Debug, PartialEq)]
pub enum Particle {
    Element(Box<crate::inline_elements::ElementLocalElement>),
    Group(Box<crate::inline_elements::GroupGroupRef>),
    All(Box<All>),
    Choice(Box<Choice>),
    Sequence(Box<Sequence>),
    Any(Box<Any>),
}

#[derive(Debug, PartialEq)]
pub enum Redefinable {
    SimpleType(Box<SimpleType>),
    ComplexType(Box<ComplexType>),
    Group(Box<Group>),
    AttributeGroup(Box<AttributeGroup>),
}

#[derive(Debug, PartialEq)]
pub enum SchemaTop {
    Redefinable(Box<Redefinable>),
    Element(Box<Element>),
    Attribute(Box<Attribute>),
    Notation(Box<Notation>),
}

#[derive(Debug, PartialEq)]
pub enum SimpleDerivation {
    Restriction(Box<Restriction>),
    List(Box<List>),
    Union(Box<Union>),
}

#[derive(Debug, PartialEq)]
pub struct SimpleRestrictionModel {
    pub simple_type_local_simple_type: Option<crate::inline_elements::SimpleTypeLocalSimpleType>,
    pub choice_facet_any: Vec<crate::enums::ChoiceFacetAny>,
}

#[derive(Debug, PartialEq)]
pub enum TypeDefParticle {
    Group(Box<crate::inline_elements::GroupGroupRef>),
    All(Box<All>),
    Choice(Box<Choice>),
    Sequence(Box<Sequence>),
}

} // verus!
