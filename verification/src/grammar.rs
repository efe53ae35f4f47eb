//! The grammar, stated mathematically.
//!
//! One specification function per XSD production, each mapping the token
//! sequence and a starting position to either the position one past the
//! production's last token together with the produced model value, or the
//! kind of error the parse aborts with. The executable parse routines are
//! verified to return exactly what these functions state.
//!
//! Each function mirrors the two phases every element-bearing production
//! shares: an attribute phase up to the element-end token, then, for an open
//! body, a content phase dispatching child productions until the matching
//! closing tag.

use vstd::prelude::*;

use crate::errors::ErrorKind;
use crate::model::{
    has_key, AttributeV, DocumentV, ElementTypeV, ElementV, SchemaV,
};
use crate::names::{build_table, lookup, split_id_spec};
use crate::token::{ElementEnd, Token};

verus! {

broadcast use vstd::seq::group_seq_axioms;

/// One grammar production, naming the attribute vocabulary in force.
#[derive(Clone, Copy, Debug, PartialEq, Eq, Structural)]
pub enum Prod {
    Schema,
    Element,
    ComplexType,
    SimpleType,
    GroupDef,
    GroupRef,
    AttributeGroupDef,
    AttributeGroupRef,
    Sequence,
    Choice,
    Extension,
    Restriction,
    ComplexContent,
    Union,
    List,
    AttributeDecl,
}

/// The kind of element-end token that closed a production's attribute phase.
pub enum AttrEnd {
    Open,
    Close,
    Empty,
}

/// The kind of an element-end token.
pub open spec fn end_kind(e: ElementEnd) -> AttrEnd {
    match e {
        ElementEnd::Open => AttrEnd::Open,
        ElementEnd::Close(_, _) => AttrEnd::Close,
        ElementEnd::Empty => AttrEnd::Empty,
    }
}

/// What an attribute phase accumulated: the single-valued attributes each
/// production may store, and the `xmlns:*` declarations seen.
pub struct AttrAccV {
    pub name: Option<Seq<char>>,
    pub type_attr: Option<Seq<char>>,
    pub ref_: Option<Seq<char>>,
    pub base: Option<Seq<char>>,
    pub member_types: Option<Seq<char>>,
    pub item_type: Option<Seq<char>>,
    pub default: Option<Seq<char>>,
    pub xmlns: Seq<(Seq<char>, Seq<char>)>,
}

/// The accumulator every attribute phase starts from.
pub open spec fn empty_acc() -> AttrAccV {
    AttrAccV {
        name: None,
        type_attr: None,
        ref_: None,
        base: None,
        member_types: None,
        item_type: None,
        default: None,
        xmlns: Seq::empty(),
    }
}

/// A slot of the accumulator.
pub enum AttrField {
    FName,
    FType,
    FRef,
    FBase,
    FMemberTypes,
    FItemType,
    FDefault,
}

/// How a production treats one attribute key.
pub enum AttrRule {
    Store(AttrField),
    Ignore,
    Xmlns,
    Unknown,
}

/// The per-production attribute table: which `(prefix, local)` keys are
/// stored, which are recognized but not modeled, and which are namespace
/// bookkeeping. `xmlns:*` and `xml:lang` are accepted on every production.
pub open spec fn classify(prod: Prod, p: Seq<char>, l: Seq<char>) -> AttrRule {
    if p == "xmlns"@ {
        AttrRule::Xmlns
    } else if p == "xml"@ && l == "lang"@ {
        AttrRule::Ignore
    } else if p == ""@ {
        match prod {
            Prod::Schema => if l == "elementFormDefault"@ || l == "targetNamespace"@ || l
                == "version"@ {
                AttrRule::Ignore
            } else {
                AttrRule::Unknown
            },
            Prod::Element => if l == "name"@ {
                AttrRule::Store(AttrField::FName)
            } else if l == "type"@ {
                AttrRule::Store(AttrField::FType)
            } else if l == "ref"@ {
                AttrRule::Store(AttrField::FRef)
            } else if l == "minOccurs"@ || l == "maxOccurs"@ || l == "id"@ {
                AttrRule::Ignore
            } else {
                AttrRule::Unknown
            },
            Prod::ComplexType | Prod::SimpleType | Prod::GroupDef | Prod::AttributeGroupDef => if l
                == "name"@ {
                AttrRule::Store(AttrField::FName)
            } else {
                AttrRule::Unknown
            },
            Prod::GroupRef | Prod::AttributeGroupRef => if l == "ref"@ {
                AttrRule::Store(AttrField::FRef)
            } else if l == "minOccurs"@ || l == "maxOccurs"@ {
                AttrRule::Ignore
            } else {
                AttrRule::Unknown
            },
            Prod::Sequence | Prod::Choice => if l == "minOccurs"@ || l == "maxOccurs"@ {
                AttrRule::Ignore
            } else {
                AttrRule::Unknown
            },
            Prod::Extension | Prod::Restriction => if l == "base"@ {
                AttrRule::Store(AttrField::FBase)
            } else {
                AttrRule::Unknown
            },
            Prod::ComplexContent => AttrRule::Unknown,
            Prod::Union => if l == "memberTypes"@ {
                AttrRule::Store(AttrField::FMemberTypes)
            } else {
                AttrRule::Unknown
            },
            Prod::List => if l == "itemType"@ {
                AttrRule::Store(AttrField::FItemType)
            } else {
                AttrRule::Unknown
            },
            Prod::AttributeDecl => if l == "name"@ {
                AttrRule::Store(AttrField::FName)
            } else if l == "type"@ {
                AttrRule::Store(AttrField::FType)
            } else if l == "default"@ {
                AttrRule::Store(AttrField::FDefault)
            } else if l == "ref"@ {
                AttrRule::Store(AttrField::FRef)
            } else if l == "fixed"@ || l == "use"@ {
                AttrRule::Ignore
            } else {
                AttrRule::Unknown
            },
        }
    } else {
        AttrRule::Unknown
    }
}

/// Stores one attribute value. A slot given twice is a duplicate; on an
/// `element`, `type=` and `ref=` exclude each other.
pub open spec fn store_attr(prod: Prod, f: AttrField, acc: AttrAccV, v: Seq<char>) -> Result<
    AttrAccV,
    ErrorKind,
> {
    match f {
        AttrField::FName => if acc.name is Some {
            Err(ErrorKind::DuplicateAttribute)
        } else {
            Ok(AttrAccV { name: Some(v), ..acc })
        },
        AttrField::FType => if acc.type_attr is Some {
            Err(ErrorKind::DuplicateAttribute)
        } else if prod == Prod::Element && acc.ref_ is Some {
            Err(ErrorKind::ConflictingDefinition)
        } else {
            Ok(AttrAccV { type_attr: Some(v), ..acc })
        },
        AttrField::FRef => if acc.ref_ is Some {
            Err(ErrorKind::DuplicateAttribute)
        } else if prod == Prod::Element && acc.type_attr is Some {
            Err(ErrorKind::ConflictingDefinition)
        } else {
            Ok(AttrAccV { ref_: Some(v), ..acc })
        },
        AttrField::FBase => if acc.base is Some {
            Err(ErrorKind::DuplicateAttribute)
        } else {
            Ok(AttrAccV { base: Some(v), ..acc })
        },
        AttrField::FMemberTypes => if acc.member_types is Some {
            Err(ErrorKind::DuplicateAttribute)
        } else {
            Ok(AttrAccV { member_types: Some(v), ..acc })
        },
        AttrField::FItemType => if acc.item_type is Some {
            Err(ErrorKind::DuplicateAttribute)
        } else {
            Ok(AttrAccV { item_type: Some(v), ..acc })
        },
        AttrField::FDefault => if acc.default is Some {
            Err(ErrorKind::DuplicateAttribute)
        } else {
            Ok(AttrAccV { default: Some(v), ..acc })
        },
    }
}

/// The attribute phase: reads tokens until the element-end token, ignoring
/// whitespace and comments, classifying each attribute against the
/// production's table. Yields the position one past the element end, its
/// kind, and the accumulated attributes.
pub open spec fn spec_attr_phase(tokens: Seq<Token>, i: int, prod: Prod, acc: AttrAccV) -> Result<
    (int, AttrEnd, AttrAccV),
    ErrorKind,
>
    decreases tokens.len() - i,
{
    if i >= tokens.len() {
        Err(ErrorKind::UnexpectedToken)
    } else {
        match tokens[i] {
            Token::Whitespace(_) => spec_attr_phase(tokens, i + 1, prod, acc),
            Token::Comment(_) => spec_attr_phase(tokens, i + 1, prod, acc),
            Token::Attribute(p, l, v) => match classify(prod, p@, l@) {
                AttrRule::Ignore => spec_attr_phase(tokens, i + 1, prod, acc),
                AttrRule::Xmlns => spec_attr_phase(
                    tokens,
                    i + 1,
                    prod,
                    AttrAccV { xmlns: acc.xmlns.push((l@, v@)), ..acc },
                ),
                AttrRule::Store(f) => match store_attr(prod, f, acc, v@) {
                    Ok(acc2) => spec_attr_phase(tokens, i + 1, prod, acc2),
                    Err(k) => Err(k),
                },
                AttrRule::Unknown => Err(ErrorKind::UnknownAttribute),
            },
            Token::ElementEnd(e) => Ok((i + 1, end_kind(e), acc)),
            _ => Err(ErrorKind::UnexpectedToken),
        }
    }
}

/// Structural skipping of a subtree whose vocabulary is not modeled: `None`
/// when the tokens run out or a closing tag mismatches the tag it closes;
/// otherwise the position immediately after the token that emptied the
/// stack of open tags.
pub open spec fn spec_skip(
    tokens: Seq<Token>,
    i: int,
    stack: Seq<(Seq<char>, Seq<char>)>,
) -> Option<int>
    decreases tokens.len() - i,
{
    if stack.len() == 0 {
        Some(i)
    } else if i >= tokens.len() {
        None
    } else {
        match tokens[i] {
            Token::ElementStart(p, l) => spec_skip(tokens, i + 1, stack.push((p@, l@))),
            Token::ElementEnd(e) => match e {
                ElementEnd::Empty => spec_skip(tokens, i + 1, stack.drop_last()),
                ElementEnd::Close(p, l) => if stack.last() == (p@, l@) {
                    spec_skip(tokens, i + 1, stack.drop_last())
                } else {
                    None
                },
                ElementEnd::Open => spec_skip(tokens, i + 1, stack),
            },
            _ => spec_skip(tokens, i + 1, stack),
        }
    }
}

/// Skip-block balance: skipping one subtree and then continuing under an
/// outer stack of open tags is the same as skipping under the combined
/// stack. A well-formed subtree composes with its context; the skip routine
/// consumes exactly the subtree and resumes immediately after it.
pub proof fn lemma_skip_composes(
    tokens: Seq<Token>,
    i: int,
    outer: Seq<(Seq<char>, Seq<char>)>,
    inner: Seq<(Seq<char>, Seq<char>)>,
)
    ensures
        spec_skip(tokens, i, outer + inner) == match spec_skip(tokens, i, inner) {
            Some(j) => spec_skip(tokens, j, outer),
            None => None,
        },
    decreases tokens.len() - i, inner.len(),
{
    if inner.len() == 0 {
        assert(outer + inner =~= outer);
    } else if i >= tokens.len() {
    } else {
        assert((outer + inner).len() > 0);
        match tokens[i] {
            Token::ElementStart(p, l) => {
                assert((outer + inner).push((p@, l@)) =~= outer + inner.push((p@, l@)));
                lemma_skip_composes(tokens, i + 1, outer, inner.push((p@, l@)));
            },
            Token::ElementEnd(e) => match e {
                ElementEnd::Empty => {
                    assert((outer + inner).drop_last() =~= outer + inner.drop_last());
                    lemma_skip_composes(tokens, i + 1, outer, inner.drop_last());
                },
                ElementEnd::Close(p, l) => {
                    assert((outer + inner).last() == inner.last());
                    if inner.last() == (p@, l@) {
                        assert((outer + inner).drop_last() =~= outer + inner.drop_last());
                        lemma_skip_composes(tokens, i + 1, outer, inner.drop_last());
                    }
                },
                ElementEnd::Open => {
                    lemma_skip_composes(tokens, i + 1, outer, inner);
                },
            },
            _ => {
                lemma_skip_composes(tokens, i + 1, outer, inner);
            },
        }
    }
}

/// The first position at or after `i` holding a space.
pub open spec fn first_space(s: Seq<char>, i: int) -> Option<int>
    decreases s.len() - i,
{
    if i < 0 || i >= s.len() {
        None
    } else if s[i] == ' ' {
        Some(i)
    } else {
        first_space(s, i + 1)
    }
}

/// The qualified names in a space-separated list, each split; a malformed
/// item is fatal.
pub open spec fn members_spec_at(s: Seq<char>, pos: int) -> Result<
    Seq<(Option<Seq<char>>, Seq<char>)>,
    ErrorKind,
>
    decreases s.len() - pos,
{
    match first_space(s, pos) {
        None => if 0 <= pos <= s.len() {
            match split_id_spec(s.subrange(pos, s.len() as int)) {
                Ok(q) => Ok(seq![q]),
                Err(k) => Err(k),
            }
        } else {
            Err(ErrorKind::UnexpectedToken)
        },
        Some(k) => if 0 <= pos <= k < s.len() {
            match split_id_spec(s.subrange(pos, k)) {
                Ok(q) => match members_spec_at(s, k + 1) {
                    Ok(rest) => Ok(seq![q] + rest),
                    Err(k2) => Err(k2),
                },
                Err(k2) => Err(k2),
            }
        } else {
            Err(ErrorKind::UnexpectedToken)
        },
    }
}

/// The whole member-type list of a `union`.
pub open spec fn members_spec(s: Seq<char>) -> Result<
    Seq<(Option<Seq<char>>, Seq<char>)>,
    ErrorKind,
> {
    members_spec_at(s, 0)
}

/// The fixed namespace identifier every understood schema must bind its own
/// prefix to.
pub open spec fn xsd_uri() -> Seq<char> {
    "http://www.w3.org/2001/XMLSchema"@
}

/// How an element's `type=` attribute text maps to a type: the local names
/// `string` and `date` map to the built-in types, anything else to a custom
/// reference.
pub open spec fn named_type(q: (Option<Seq<char>>, Seq<char>)) -> ElementTypeV {
    if q.1 == "string"@ {
        ElementTypeV::String
    } else if q.1 == "date"@ {
        ElementTypeV::Date
    } else {
        ElementTypeV::Custom(q.0, q.1)
    }
}

/// The whole document: tokens are consumed to the end. At most one XML
/// declaration, whose version must read exactly `1.0`, and at most one
/// top-level element, which must be a `schema`.
pub open spec fn spec_document(tokens: Seq<Token>) -> Result<DocumentV, ErrorKind> {
    spec_document_items(
        tokens,
        0,
        DocumentV { version: None, encoding: None, standalone: None, schema: None },
    )
}

/// The document's item loop.
pub open spec fn spec_document_items(tokens: Seq<Token>, i: int, acc: DocumentV) -> Result<
    DocumentV,
    ErrorKind,
>
    decreases tokens.len() - i,
{
    if i >= tokens.len() {
        Ok(acc)
    } else {
        match tokens[i] {
            Token::Whitespace(_) => spec_document_items(tokens, i + 1, acc),
            Token::Comment(_) => spec_document_items(tokens, i + 1, acc),
            Token::Declaration(v, e, st) => if acc.version is Some {
                Err(ErrorKind::UnexpectedToken)
            } else if v@ != "1.0"@ {
                Err(ErrorKind::UnexpectedToken)
            } else {
                spec_document_items(
                    tokens,
                    i + 1,
                    DocumentV {
                        version: Some(v@),
                        encoding: crate::text::opt_view(e),
                        standalone: crate::text::opt_view(st),
                        ..acc
                    },
                )
            },
            Token::ElementStart(p, l) => if l@ != "schema"@ {
                Err(ErrorKind::UnknownElement)
            } else if acc.schema is Some {
                Err(ErrorKind::UnexpectedToken)
            } else {
                match spec_schema(tokens, i + 1, p@, (p@, l@)) {
                    Ok((j, sv)) => if i + 1 <= j <= tokens.len() {
                        spec_document_items(tokens, j, DocumentV { schema: Some(sv), ..acc })
                    } else {
                        Err(ErrorKind::UnexpectedToken)
                    },
                    Err(k) => Err(k),
                }
            },
            Token::DtdStart(_) => spec_document_items(tokens, i + 1, acc),
            Token::DtdEnd => spec_document_items(tokens, i + 1, acc),
            _ => Err(ErrorKind::UnexpectedToken),
        }
    }
}

/// The `schema` production. Its attribute phase populates the namespace
/// table from `xmlns:*`; the table must bind the element's own prefix to
/// the fixed XSD namespace. The body dispatches the top-level vocabulary.
pub open spec fn spec_schema(
    tokens: Seq<Token>,
    i: int,
    main_ns: Seq<char>,
    tag: (Seq<char>, Seq<char>),
) -> Result<(int, SchemaV), ErrorKind>
    decreases tokens.len() - i,
{
    match spec_attr_phase(tokens, i, Prod::Schema, empty_acc()) {
        Err(k) => Err(k),
        Ok((j, end, acc)) => if !(i < j <= tokens.len()) {
            Err(ErrorKind::UnexpectedToken)
        } else if !(end is Open) {
            Err(ErrorKind::UnexpectedToken)
        } else {
            match build_table(acc.xmlns, Seq::empty()) {
                Err(k) => Err(k),
                Ok(table) => match lookup(table, main_ns) {
                    None => Err(ErrorKind::UnknownPrefix),
                    Some(uri) => if uri != xsd_uri() {
                        Err(ErrorKind::UnexpectedToken)
                    } else {
                        spec_schema_children(
                            tokens,
                            j,
                            main_ns,
                            tag,
                            SchemaV {
                                namespaces: table,
                                elements: Seq::empty(),
                                types: Seq::empty(),
                                groups: Seq::empty(),
                            },
                        )
                    },
                },
            }
        },
    }
}

/// The `schema` body: `element`, `complexType`, `simpleType`, `group`,
/// `attributeGroup` definitions collected into the schema; `annotation` and
/// `import` skipped; duplicate type or group names fatal.
pub open spec fn spec_schema_children(
    tokens: Seq<Token>,
    i: int,
    main_ns: Seq<char>,
    tag: (Seq<char>, Seq<char>),
    acc: SchemaV,
) -> Result<(int, SchemaV), ErrorKind>
    decreases tokens.len() - i,
{
    if i >= tokens.len() {
        Err(ErrorKind::UnexpectedToken)
    } else {
        match tokens[i] {
            Token::Whitespace(_) => spec_schema_children(tokens, i + 1, main_ns, tag, acc),
            Token::Comment(_) => spec_schema_children(tokens, i + 1, main_ns, tag, acc),
            Token::ElementEnd(e) => match e {
                ElementEnd::Close(p, l) => if (p@, l@) == tag {
                    Ok((i + 1, acc))
                } else {
                    Err(ErrorKind::UnexpectedToken)
                },
                _ => Err(ErrorKind::UnexpectedToken),
            },
            Token::ElementStart(p, l) => if p@ != main_ns {
                Err(ErrorKind::UnknownElement)
            } else {
                let ctag = (p@, l@);
                if l@ == "element"@ {
                    match spec_element(tokens, i + 1, main_ns, ctag) {
                        Ok((j, ev)) => if i + 1 <= j <= tokens.len() {
                            spec_schema_children(
                                tokens,
                                j,
                                main_ns,
                                tag,
                                SchemaV { elements: acc.elements.push(ev), ..acc },
                            )
                        } else {
                            Err(ErrorKind::UnexpectedToken)
                        },
                        Err(k) => Err(k),
                    }
                } else if l@ == "annotation"@ {
                    match spec_skip(tokens, i + 1, seq![ctag]) {
                        Some(j) => if i + 1 <= j <= tokens.len() {
                            spec_schema_children(tokens, j, main_ns, tag, acc)
                        } else {
                            Err(ErrorKind::UnexpectedToken)
                        },
                        None => Err(ErrorKind::UnexpectedToken),
                    }
                } else if l@ == "complexType"@ {
                    match spec_complex_type(tokens, i + 1, main_ns, ctag) {
                        Ok((j, nad)) => match nad.0 {
                            None => Err(ErrorKind::MissingRequiredField),
                            Some(nm) => if has_key(acc.types, nm) {
                                Err(ErrorKind::DuplicateTypeOrGroupName)
                            } else if i + 1 <= j <= tokens.len() {
                                spec_schema_children(
                                    tokens,
                                    j,
                                    main_ns,
                                    tag,
                                    SchemaV { types: acc.types.push((nm, (nad.1, nad.2))), ..acc },
                                )
                            } else {
                                Err(ErrorKind::UnexpectedToken)
                            },
                        },
                        Err(k) => Err(k),
                    }
                } else if l@ == "simpleType"@ {
                    match spec_simple_type(tokens, i + 1, main_ns, ctag) {
                        Ok((j, nad)) => match nad.0 {
                            None => Err(ErrorKind::MissingRequiredField),
                            Some(nm) => if has_key(acc.types, nm) {
                                Err(ErrorKind::DuplicateTypeOrGroupName)
                            } else if i + 1 <= j <= tokens.len() {
                                spec_schema_children(
                                    tokens,
                                    j,
                                    main_ns,
                                    tag,
                                    SchemaV { types: acc.types.push((nm, (nad.1, nad.2))), ..acc },
                                )
                            } else {
                                Err(ErrorKind::UnexpectedToken)
                            },
                        },
                        Err(k) => Err(k),
                    }
                } else if l@ == "group"@ {
                    match spec_group_def(tokens, i + 1, main_ns, ctag) {
                        Ok((j, nad)) => if has_key(acc.groups, nad.0) {
                            Err(ErrorKind::DuplicateTypeOrGroupName)
                        } else if i + 1 <= j <= tokens.len() {
                            spec_schema_children(
                                tokens,
                                j,
                                main_ns,
                                tag,
                                SchemaV {
                                    groups: acc.groups.push((nad.0, (nad.1, Some(nad.2)))),
                                    ..acc
                                },
                            )
                        } else {
                            Err(ErrorKind::UnexpectedToken)
                        },
                        Err(k) => Err(k),
                    }
                } else if l@ == "attributeGroup"@ {
                    match spec_attribute_group_def(tokens, i + 1, main_ns, ctag) {
                        Ok((j, na)) => if has_key(acc.groups, na.0) {
                            Err(ErrorKind::DuplicateTypeOrGroupName)
                        } else if i + 1 <= j <= tokens.len() {
                            spec_schema_children(
                                tokens,
                                j,
                                main_ns,
                                tag,
                                SchemaV { groups: acc.groups.push((na.0, (na.1, None))), ..acc },
                            )
                        } else {
                            Err(ErrorKind::UnexpectedToken)
                        },
                        Err(k) => Err(k),
                    }
                } else if l@ == "import"@ {
                    match spec_skip(tokens, i + 1, seq![ctag]) {
                        Some(j) => if i + 1 <= j <= tokens.len() {
                            spec_schema_children(tokens, j, main_ns, tag, acc)
                        } else {
                            Err(ErrorKind::UnexpectedToken)
                        },
                        None => Err(ErrorKind::UnexpectedToken),
                    }
                } else {
                    Err(ErrorKind::UnknownElement)
                }
            },
            _ => Err(ErrorKind::UnexpectedToken),
        }
    }
}

/// The `element` production. A self-closing element needs its name and its
/// type from `type=` or `ref=`; an open element takes its type and
/// attribute list from exactly one inline `complexType`/`simpleType` child.
/// With `ref=`, the name mirrors the reference.
pub open spec fn spec_element(
    tokens: Seq<Token>,
    i: int,
    main_ns: Seq<char>,
    tag: (Seq<char>, Seq<char>),
) -> Result<(int, ElementV), ErrorKind>
    decreases tokens.len() - i,
{
    match spec_attr_phase(tokens, i, Prod::Element, empty_acc()) {
        Err(k) => Err(k),
        Ok((j, end, acc)) => if !(i < j <= tokens.len()) {
            Err(ErrorKind::UnexpectedToken)
        } else {
            let tv = match acc.type_attr {
                None => Ok(None),
                Some(t) => match split_id_spec(t) {
                    Ok(q) => Ok(Some(named_type(q))),
                    Err(k) => Err(k),
                },
            };
            match tv {
                Err(k) => Err(k),
                Ok(typed) => {
                    let type0 = match acc.ref_ {
                        Some(r) => Some(ElementTypeV::Ref(r)),
                        None => typed,
                    };
                    let name0 = match acc.ref_ {
                        Some(r) => Some(r),
                        None => acc.name,
                    };
                    match end {
                        AttrEnd::Empty => match (name0, type0) {
                            (Some(nm), Some(t)) => Ok(
                                (j, ElementV { name: Some(nm), attrs: Seq::empty(), type_: t }),
                            ),
                            _ => Err(ErrorKind::MissingRequiredField),
                        },
                        AttrEnd::Open => if type0 is Some {
                            Err(ErrorKind::ConflictingDefinition)
                        } else {
                            match spec_subelement_children(tokens, j, main_ns, tag, None, None) {
                                Err(k) => Err(k),
                                Ok((j2, sub)) => match (sub.0, sub.1) {
                                    (Some(t), Some(ats)) => match name0 {
                                        Some(nm) => Ok(
                                            (
                                                j2,
                                                ElementV { name: Some(nm), attrs: ats, type_: t },
                                            ),
                                        ),
                                        None => Err(ErrorKind::MissingRequiredField),
                                    },
                                    _ => Err(ErrorKind::MissingRequiredField),
                                },
                            }
                        },
                        AttrEnd::Close => Err(ErrorKind::UnexpectedToken),
                    }
                },
            }
        },
    }
}

/// The body of an open `element` or `attribute`: at most one inline
/// `complexType`/`simpleType` supplies the type and attribute list;
/// `annotation` is skipped and `key` is consumed without being modeled.
pub open spec fn spec_subelement_children(
    tokens: Seq<Token>,
    i: int,
    main_ns: Seq<char>,
    tag: (Seq<char>, Seq<char>),
    ty: Option<ElementTypeV>,
    ats: Option<Seq<AttributeV>>,
) -> Result<(int, (Option<ElementTypeV>, Option<Seq<AttributeV>>)), ErrorKind>
    decreases tokens.len() - i,
{
    if i >= tokens.len() {
        Err(ErrorKind::UnexpectedToken)
    } else {
        match tokens[i] {
            Token::Whitespace(_) => spec_subelement_children(tokens, i + 1, main_ns, tag, ty, ats),
            Token::Comment(_) => spec_subelement_children(tokens, i + 1, main_ns, tag, ty, ats),
            Token::ElementEnd(e) => match e {
                ElementEnd::Close(p, l) => if (p@, l@) == tag {
                    Ok((i + 1, (ty, ats)))
                } else {
                    Err(ErrorKind::UnexpectedToken)
                },
                _ => Err(ErrorKind::UnexpectedToken),
            },
            Token::ElementStart(p, l) => if p@ != main_ns {
                Err(ErrorKind::UnknownElement)
            } else {
                let ctag = (p@, l@);
                if l@ == "complexType"@ {
                    if ty is Some || ats is Some {
                        Err(ErrorKind::ConflictingDefinition)
                    } else {
                        match spec_complex_type(tokens, i + 1, main_ns, ctag) {
                            Ok((j, nad)) => if nad.0 is Some {
                                Err(ErrorKind::ConflictingDefinition)
                            } else if i + 1 <= j <= tokens.len() {
                                spec_subelement_children(
                                    tokens,
                                    j,
                                    main_ns,
                                    tag,
                                    Some(nad.2),
                                    Some(nad.1),
                                )
                            } else {
                                Err(ErrorKind::UnexpectedToken)
                            },
                            Err(k) => Err(k),
                        }
                    }
                } else if l@ == "simpleType"@ {
                    if ty is Some || ats is Some {
                        Err(ErrorKind::ConflictingDefinition)
                    } else {
                        match spec_simple_type(tokens, i + 1, main_ns, ctag) {
                            Ok((j, nad)) => if nad.0 is Some {
                                Err(ErrorKind::ConflictingDefinition)
                            } else if i + 1 <= j <= tokens.len() {
                                spec_subelement_children(
                                    tokens,
                                    j,
                                    main_ns,
                                    tag,
                                    Some(nad.2),
                                    Some(nad.1),
                                )
                            } else {
                                Err(ErrorKind::UnexpectedToken)
                            },
                            Err(k) => Err(k),
                        }
                    }
                } else if l@ == "annotation"@ || l@ == "key"@ {
                    match spec_skip(tokens, i + 1, seq![ctag]) {
                        Some(j) => if i + 1 <= j <= tokens.len() {
                            spec_subelement_children(tokens, j, main_ns, tag, ty, ats)
                        } else {
                            Err(ErrorKind::UnexpectedToken)
                        },
                        None => Err(ErrorKind::UnexpectedToken),
                    }
                } else {
                    Err(ErrorKind::UnknownElement)
                }
            },
            _ => Err(ErrorKind::UnexpectedToken),
        }
    }
}

/// The `complexType` production: an optional `name=`, then a body holding
/// at most one model group among `sequence`, `choice`, `group` reference or
/// `complexContent` (required), plus attribute declarations.
pub open spec fn spec_complex_type(
    tokens: Seq<Token>,
    i: int,
    main_ns: Seq<char>,
    tag: (Seq<char>, Seq<char>),
) -> Result<(int, (Option<Seq<char>>, Seq<AttributeV>, ElementTypeV)), ErrorKind>
    decreases tokens.len() - i,
{
    match spec_attr_phase(tokens, i, Prod::ComplexType, empty_acc()) {
        Err(k) => Err(k),
        Ok((j, end, acc)) => if !(i < j <= tokens.len()) {
            Err(ErrorKind::UnexpectedToken)
        } else if !(end is Open) {
            Err(ErrorKind::UnexpectedToken)
        } else {
            match spec_subtype_children(tokens, j, main_ns, tag, None, Seq::empty()) {
                Err(k) => Err(k),
                Ok((j2, ai)) => match ai.1 {
                    Some(inner) => Ok((j2, (acc.name, ai.0, inner))),
                    None => Err(ErrorKind::MissingRequiredField),
                },
            }
        },
    }
}

/// The body shared by `complexType`, `group`, `attributeGroup` and
/// `extension`: at most one model group child, any number of `attribute`
/// and `attributeGroup` reference children, `annotation` skipped.
pub open spec fn spec_subtype_children(
    tokens: Seq<Token>,
    i: int,
    main_ns: Seq<char>,
    tag: (Seq<char>, Seq<char>),
    inner: Option<ElementTypeV>,
    ats: Seq<AttributeV>,
) -> Result<(int, (Seq<AttributeV>, Option<ElementTypeV>)), ErrorKind>
    decreases tokens.len() - i,
{
    if i >= tokens.len() {
        Err(ErrorKind::UnexpectedToken)
    } else {
        match tokens[i] {
            Token::Whitespace(_) => spec_subtype_children(tokens, i + 1, main_ns, tag, inner, ats),
            Token::Comment(_) => spec_subtype_children(tokens, i + 1, main_ns, tag, inner, ats),
            Token::ElementEnd(e) => match e {
                ElementEnd::Close(p, l) => if (p@, l@) == tag {
                    Ok((i + 1, (ats, inner)))
                } else {
                    Err(ErrorKind::UnexpectedToken)
                },
                _ => Err(ErrorKind::UnexpectedToken),
            },
            Token::ElementStart(p, l) => if p@ != main_ns {
                Err(ErrorKind::UnknownElement)
            } else {
                let ctag = (p@, l@);
                if l@ == "annotation"@ {
                    match spec_skip(tokens, i + 1, seq![ctag]) {
                        Some(j) => if i + 1 <= j <= tokens.len() {
                            spec_subtype_children(tokens, j, main_ns, tag, inner, ats)
                        } else {
                            Err(ErrorKind::UnexpectedToken)
                        },
                        None => Err(ErrorKind::UnexpectedToken),
                    }
                } else if l@ == "sequence"@ {
                    if inner is Some {
                        Err(ErrorKind::ConflictingDefinition)
                    } else {
                        match spec_sequence(tokens, i + 1, main_ns, ctag) {
                            Ok((j, tv)) => if i + 1 <= j <= tokens.len() {
                                spec_subtype_children(tokens, j, main_ns, tag, Some(tv), ats)
                            } else {
                                Err(ErrorKind::UnexpectedToken)
                            },
                            Err(k) => Err(k),
                        }
                    }
                } else if l@ == "choice"@ {
                    if inner is Some {
                        Err(ErrorKind::ConflictingDefinition)
                    } else {
                        match spec_choice(tokens, i + 1, main_ns, ctag) {
                            Ok((j, tv)) => if i + 1 <= j <= tokens.len() {
                                spec_subtype_children(tokens, j, main_ns, tag, Some(tv), ats)
                            } else {
                                Err(ErrorKind::UnexpectedToken)
                            },
                            Err(k) => Err(k),
                        }
                    }
                } else if l@ == "group"@ {
                    if inner is Some {
                        Err(ErrorKind::ConflictingDefinition)
                    } else {
                        match spec_group_ref(tokens, i + 1, ctag) {
                            Ok((j, tv)) => if i + 1 <= j <= tokens.len() {
                                spec_subtype_children(tokens, j, main_ns, tag, Some(tv), ats)
                            } else {
                                Err(ErrorKind::UnexpectedToken)
                            },
                            Err(k) => Err(k),
                        }
                    }
                } else if l@ == "attributeGroup"@ {
                    match spec_attribute_group_ref(tokens, i + 1, ctag) {
                        Ok((j, r)) => if i + 1 <= j <= tokens.len() {
                            spec_subtype_children(
                                tokens,
                                j,
                                main_ns,
                                tag,
                                inner,
                                ats.push(AttributeV::GroupRef(r)),
                            )
                        } else {
                            Err(ErrorKind::UnexpectedToken)
                        },
                        Err(k) => Err(k),
                    }
                } else if l@ == "complexContent"@ {
                    if inner is Some {
                        Err(ErrorKind::ConflictingDefinition)
                    } else {
                        match spec_complex_content(tokens, i + 1, main_ns, ctag) {
                            Ok((j, tv)) => if i + 1 <= j <= tokens.len() {
                                spec_subtype_children(tokens, j, main_ns, tag, Some(tv), ats)
                            } else {
                                Err(ErrorKind::UnexpectedToken)
                            },
                            Err(k) => Err(k),
                        }
                    }
                } else if l@ == "attribute"@ {
                    match spec_attribute(tokens, i + 1, main_ns, ctag) {
                        Ok((j, av)) => if i + 1 <= j <= tokens.len() {
                            spec_subtype_children(tokens, j, main_ns, tag, inner, ats.push(av))
                        } else {
                            Err(ErrorKind::UnexpectedToken)
                        },
                        Err(k) => Err(k),
                    }
                } else {
                    Err(ErrorKind::UnknownElement)
                }
            },
            _ => Err(ErrorKind::UnexpectedToken),
        }
    }
}

/// The member loop shared by `sequence`, `choice` and an open `union`:
/// nested elements, group references, inline types, nested model groups and
/// extensions, in document order.
pub open spec fn spec_elements_children(
    tokens: Seq<Token>,
    i: int,
    main_ns: Seq<char>,
    tag: (Seq<char>, Seq<char>),
    items: Seq<ElementV>,
) -> Result<(int, Seq<ElementV>), ErrorKind>
    decreases tokens.len() - i,
{
    if i >= tokens.len() {
        Err(ErrorKind::UnexpectedToken)
    } else {
        match tokens[i] {
            Token::Whitespace(_) => spec_elements_children(tokens, i + 1, main_ns, tag, items),
            Token::Comment(_) => spec_elements_children(tokens, i + 1, main_ns, tag, items),
            Token::ElementEnd(e) => match e {
                ElementEnd::Close(p, l) => if (p@, l@) == tag {
                    Ok((i + 1, items))
                } else {
                    Err(ErrorKind::UnexpectedToken)
                },
                _ => Err(ErrorKind::UnexpectedToken),
            },
            Token::ElementStart(p, l) => if p@ != main_ns {
                Err(ErrorKind::UnknownElement)
            } else {
                let ctag = (p@, l@);
                if l@ == "element"@ {
                    match spec_element(tokens, i + 1, main_ns, ctag) {
                        Ok((j, ev)) => if i + 1 <= j <= tokens.len() {
                            spec_elements_children(tokens, j, main_ns, tag, items.push(ev))
                        } else {
                            Err(ErrorKind::UnexpectedToken)
                        },
                        Err(k) => Err(k),
                    }
                } else if l@ == "group"@ {
                    match spec_group_ref(tokens, i + 1, ctag) {
                        Ok((j, tv)) => if i + 1 <= j <= tokens.len() {
                            spec_elements_children(
                                tokens,
                                j,
                                main_ns,
                                tag,
                                items.push(ElementV { name: None, attrs: Seq::empty(), type_: tv }),
                            )
                        } else {
                            Err(ErrorKind::UnexpectedToken)
                        },
                        Err(k) => Err(k),
                    }
                } else if l@ == "simpleType"@ {
                    match spec_simple_type(tokens, i + 1, main_ns, ctag) {
                        Ok((j, nad)) => if i + 1 <= j <= tokens.len() {
                            spec_elements_children(
                                tokens,
                                j,
                                main_ns,
                                tag,
                                items.push(ElementV { name: nad.0, attrs: nad.1, type_: nad.2 }),
                            )
                        } else {
                            Err(ErrorKind::UnexpectedToken)
                        },
                        Err(k) => Err(k),
                    }
                } else if l@ == "sequence"@ {
                    match spec_sequence(tokens, i + 1, main_ns, ctag) {
                        Ok((j, tv)) => if i + 1 <= j <= tokens.len() {
                            spec_elements_children(
                                tokens,
                                j,
                                main_ns,
                                tag,
                                items.push(ElementV { name: None, attrs: Seq::empty(), type_: tv }),
                            )
                        } else {
                            Err(ErrorKind::UnexpectedToken)
                        },
                        Err(k) => Err(k),
                    }
                } else if l@ == "choice"@ {
                    match spec_choice(tokens, i + 1, main_ns, ctag) {
                        Ok((j, tv)) => if i + 1 <= j <= tokens.len() {
                            spec_elements_children(
                                tokens,
                                j,
                                main_ns,
                                tag,
                                items.push(ElementV { name: None, attrs: Seq::empty(), type_: tv }),
                            )
                        } else {
                            Err(ErrorKind::UnexpectedToken)
                        },
                        Err(k) => Err(k),
                    }
                } else if l@ == "extension"@ {
                    match spec_extension(tokens, i + 1, main_ns, ctag) {
                        Ok((j, tv)) => if i + 1 <= j <= tokens.len() {
                            spec_elements_children(
                                tokens,
                                j,
                                main_ns,
                                tag,
                                items.push(ElementV { name: None, attrs: Seq::empty(), type_: tv }),
                            )
                        } else {
                            Err(ErrorKind::UnexpectedToken)
                        },
                        Err(k) => Err(k),
                    }
                } else if l@ == "annotation"@ {
                    match spec_skip(tokens, i + 1, seq![ctag]) {
                        Some(j) => if i + 1 <= j <= tokens.len() {
                            spec_elements_children(tokens, j, main_ns, tag, items)
                        } else {
                            Err(ErrorKind::UnexpectedToken)
                        },
                        None => Err(ErrorKind::UnexpectedToken),
                    }
                } else {
                    Err(ErrorKind::UnknownElement)
                }
            },
            _ => Err(ErrorKind::UnexpectedToken),
        }
    }
}

/// The `sequence` production: occurrence attributes are accepted and
/// ignored; the open body's members become the sequence's items.
pub open spec fn spec_sequence(
    tokens: Seq<Token>,
    i: int,
    main_ns: Seq<char>,
    tag: (Seq<char>, Seq<char>),
) -> Result<(int, ElementTypeV), ErrorKind>
    decreases tokens.len() - i,
{
    match spec_attr_phase(tokens, i, Prod::Sequence, empty_acc()) {
        Err(k) => Err(k),
        Ok((j, end, _acc)) => if !(i < j <= tokens.len()) {
            Err(ErrorKind::UnexpectedToken)
        } else if !(end is Open) {
            Err(ErrorKind::UnexpectedToken)
        } else {
            match spec_elements_children(tokens, j, main_ns, tag, Seq::empty()) {
                Ok((j2, items)) => Ok((j2, ElementTypeV::Sequence(items))),
                Err(k) => Err(k),
            }
        },
    }
}

/// The `choice` production, shaped like `sequence`.
pub open spec fn spec_choice(
    tokens: Seq<Token>,
    i: int,
    main_ns: Seq<char>,
    tag: (Seq<char>, Seq<char>),
) -> Result<(int, ElementTypeV), ErrorKind>
    decreases tokens.len() - i,
{
    match spec_attr_phase(tokens, i, Prod::Choice, empty_acc()) {
        Err(k) => Err(k),
        Ok((j, end, _acc)) => if !(i < j <= tokens.len()) {
            Err(ErrorKind::UnexpectedToken)
        } else if !(end is Open) {
            Err(ErrorKind::UnexpectedToken)
        } else {
            match spec_elements_children(tokens, j, main_ns, tag, Seq::empty()) {
                Ok((j2, items)) => Ok((j2, ElementTypeV::Choice(items))),
                Err(k) => Err(k),
            }
        },
    }
}

/// The `extension` production: a required qualified `base=`, then the same
/// body rule as `complexType`, the model group child optional.
pub open spec fn spec_extension(
    tokens: Seq<Token>,
    i: int,
    main_ns: Seq<char>,
    tag: (Seq<char>, Seq<char>),
) -> Result<(int, ElementTypeV), ErrorKind>
    decreases tokens.len() - i,
{
    match spec_attr_phase(tokens, i, Prod::Extension, empty_acc()) {
        Err(k) => Err(k),
        Ok((j, end, acc)) => if !(i < j <= tokens.len()) {
            Err(ErrorKind::UnexpectedToken)
        } else if !(end is Open) {
            Err(ErrorKind::UnexpectedToken)
        } else {
            match spec_subtype_children(tokens, j, main_ns, tag, None, Seq::empty()) {
                Err(k) => Err(k),
                Ok((j2, ai)) => match acc.base {
                    None => Err(ErrorKind::MissingRequiredField),
                    Some(b) => match split_id_spec(b) {
                        Err(k) => Err(k),
                        Ok(q) => Ok(
                            (
                                j2,
                                ElementTypeV::Extension(
                                    q,
                                    ai.0,
                                    match ai.1 {
                                        None => Seq::empty(),
                                        Some(t) => seq![t],
                                    },
                                ),
                            ),
                        ),
                    },
                },
            }
        },
    }
}

/// The `complexContent` production: no attributes of its own; exactly one
/// `restriction` or `extension` child.
pub open spec fn spec_complex_content(
    tokens: Seq<Token>,
    i: int,
    main_ns: Seq<char>,
    tag: (Seq<char>, Seq<char>),
) -> Result<(int, ElementTypeV), ErrorKind>
    decreases tokens.len() - i,
{
    match spec_attr_phase(tokens, i, Prod::ComplexContent, empty_acc()) {
        Err(k) => Err(k),
        Ok((j, end, _acc)) => if !(i < j <= tokens.len()) {
            Err(ErrorKind::UnexpectedToken)
        } else if !(end is Open) {
            Err(ErrorKind::UnexpectedToken)
        } else {
            match spec_complex_content_children(tokens, j, main_ns, tag, None) {
                Err(k) => Err(k),
                Ok((j2, ty)) => match ty {
                    Some(t) => Ok((j2, t)),
                    None => Err(ErrorKind::MissingRequiredField),
                },
            }
        },
    }
}

/// The `complexContent` body loop.
pub open spec fn spec_complex_content_children(
    tokens: Seq<Token>,
    i: int,
    main_ns: Seq<char>,
    tag: (Seq<char>, Seq<char>),
    ty: Option<ElementTypeV>,
) -> Result<(int, Option<ElementTypeV>), ErrorKind>
    decreases tokens.len() - i,
{
    if i >= tokens.len() {
        Err(ErrorKind::UnexpectedToken)
    } else {
        match tokens[i] {
            Token::Whitespace(_) => spec_complex_content_children(tokens, i + 1, main_ns, tag, ty),
            Token::Comment(_) => spec_complex_content_children(tokens, i + 1, main_ns, tag, ty),
            Token::ElementEnd(e) => match e {
                ElementEnd::Close(p, l) => if (p@, l@) == tag {
                    Ok((i + 1, ty))
                } else {
                    Err(ErrorKind::UnexpectedToken)
                },
                _ => Err(ErrorKind::UnexpectedToken),
            },
            Token::ElementStart(p, l) => if p@ != main_ns {
                Err(ErrorKind::UnknownElement)
            } else {
                let ctag = (p@, l@);
                if l@ == "restriction"@ {
                    if ty is Some {
                        Err(ErrorKind::ConflictingDefinition)
                    } else {
                        match spec_restriction(tokens, i + 1, ctag) {
                            Ok((j, tv)) => if i + 1 <= j <= tokens.len() {
                                spec_complex_content_children(tokens, j, main_ns, tag, Some(tv))
                            } else {
                                Err(ErrorKind::UnexpectedToken)
                            },
                            Err(k) => Err(k),
                        }
                    }
                } else if l@ == "extension"@ {
                    if ty is Some {
                        Err(ErrorKind::ConflictingDefinition)
                    } else {
                        match spec_extension(tokens, i + 1, main_ns, ctag) {
                            Ok((j, tv)) => if i + 1 <= j <= tokens.len() {
                                spec_complex_content_children(tokens, j, main_ns, tag, Some(tv))
                            } else {
                                Err(ErrorKind::UnexpectedToken)
                            },
                            Err(k) => Err(k),
                        }
                    }
                } else {
                    Err(ErrorKind::UnknownElement)
                }
            },
            _ => Err(ErrorKind::UnexpectedToken),
        }
    }
}

/// The `attribute` declaration production: a self-closing `ref=` form, a
/// self-closing `name=`/`type=` form with optional default, or an open form
/// whose inline type supplies the attribute's element.
pub open spec fn spec_attribute(
    tokens: Seq<Token>,
    i: int,
    main_ns: Seq<char>,
    tag: (Seq<char>, Seq<char>),
) -> Result<(int, AttributeV), ErrorKind>
    decreases tokens.len() - i,
{
    match spec_attr_phase(tokens, i, Prod::AttributeDecl, empty_acc()) {
        Err(k) => Err(k),
        Ok((j, end, acc)) => if !(i < j <= tokens.len()) {
            Err(ErrorKind::UnexpectedToken)
        } else {
            match end {
                AttrEnd::Empty => match acc.ref_ {
                    Some(r) => if acc.name is Some || acc.type_attr is Some {
                        Err(ErrorKind::ConflictingDefinition)
                    } else {
                        Ok((j, AttributeV::Ref(r)))
                    },
                    None => match (acc.name, acc.type_attr) {
                        (Some(nm), Some(t)) => Ok(
                            (j, AttributeV::SmallDef { name: nm, type_: t, default: acc.default }),
                        ),
                        _ => Err(ErrorKind::MissingRequiredField),
                    },
                },
                AttrEnd::Open => match acc.ref_ {
                    Some(_) => Err(ErrorKind::ConflictingDefinition),
                    None => match acc.name {
                        None => Err(ErrorKind::MissingRequiredField),
                        Some(nm) => if acc.type_attr is Some {
                            Err(ErrorKind::ConflictingDefinition)
                        } else {
                            match spec_subelement_children(tokens, j, main_ns, tag, None, None) {
                                Err(k) => Err(k),
                                Ok((j2, sub)) => match (sub.0, sub.1) {
                                    (Some(t), Some(ats)) => Ok(
                                        (
                                            j2,
                                            AttributeV::LongDef {
                                                name: nm,
                                                default: acc.default,
                                                inner: ElementV {
                                                    name: None,
                                                    attrs: ats,
                                                    type_: t,
                                                },
                                            },
                                        ),
                                    ),
                                    _ => Err(ErrorKind::MissingRequiredField),
                                },
                            }
                        },
                    },
                },
                AttrEnd::Close => Err(ErrorKind::UnexpectedToken),
            }
        },
    }
}

/// The `simpleType` production: an optional `name=`, then exactly one of
/// `restriction`, `union` or `list`, plus attribute declarations.
pub open spec fn spec_simple_type(
    tokens: Seq<Token>,
    i: int,
    main_ns: Seq<char>,
    tag: (Seq<char>, Seq<char>),
) -> Result<(int, (Option<Seq<char>>, Seq<AttributeV>, ElementTypeV)), ErrorKind>
    decreases tokens.len() - i,
{
    match spec_attr_phase(tokens, i, Prod::SimpleType, empty_acc()) {
        Err(k) => Err(k),
        Ok((j, end, acc)) => if !(i < j <= tokens.len()) {
            Err(ErrorKind::UnexpectedToken)
        } else if !(end is Open) {
            Err(ErrorKind::UnexpectedToken)
        } else {
            match spec_simple_type_children(tokens, j, main_ns, tag, None, Seq::empty()) {
                Err(k) => Err(k),
                Ok((j2, ta)) => match ta.0 {
                    Some(t) => Ok((j2, (acc.name, ta.1, t))),
                    None => Err(ErrorKind::MissingRequiredField),
                },
            }
        },
    }
}

/// The `simpleType` body loop.
pub open spec fn spec_simple_type_children(
    tokens: Seq<Token>,
    i: int,
    main_ns: Seq<char>,
    tag: (Seq<char>, Seq<char>),
    ty: Option<ElementTypeV>,
    ats: Seq<AttributeV>,
) -> Result<(int, (Option<ElementTypeV>, Seq<AttributeV>)), ErrorKind>
    decreases tokens.len() - i,
{
    if i >= tokens.len() {
        Err(ErrorKind::UnexpectedToken)
    } else {
        match tokens[i] {
            Token::Whitespace(_) => spec_simple_type_children(tokens, i + 1, main_ns, tag, ty, ats),
            Token::Comment(_) => spec_simple_type_children(tokens, i + 1, main_ns, tag, ty, ats),
            Token::ElementEnd(e) => match e {
                ElementEnd::Close(p, l) => if (p@, l@) == tag {
                    Ok((i + 1, (ty, ats)))
                } else {
                    Err(ErrorKind::UnexpectedToken)
                },
                _ => Err(ErrorKind::UnexpectedToken),
            },
            Token::ElementStart(p, l) => if p@ != main_ns {
                Err(ErrorKind::UnknownElement)
            } else {
                let ctag = (p@, l@);
                if l@ == "restriction"@ {
                    if ty is Some {
                        Err(ErrorKind::ConflictingDefinition)
                    } else {
                        match spec_restriction(tokens, i + 1, ctag) {
                            Ok((j, tv)) => if i + 1 <= j <= tokens.len() {
                                spec_simple_type_children(tokens, j, main_ns, tag, Some(tv), ats)
                            } else {
                                Err(ErrorKind::UnexpectedToken)
                            },
                            Err(k) => Err(k),
                        }
                    }
                } else if l@ == "union"@ {
                    if ty is Some {
                        Err(ErrorKind::ConflictingDefinition)
                    } else {
                        match spec_union(tokens, i + 1, main_ns, ctag) {
                            Ok((j, tv)) => if i + 1 <= j <= tokens.len() {
                                spec_simple_type_children(tokens, j, main_ns, tag, Some(tv), ats)
                            } else {
                                Err(ErrorKind::UnexpectedToken)
                            },
                            Err(k) => Err(k),
                        }
                    }
                } else if l@ == "list"@ {
                    if ty is Some {
                        Err(ErrorKind::ConflictingDefinition)
                    } else {
                        match spec_list(tokens, i + 1, ctag) {
                            Ok((j, tv)) => if i + 1 <= j <= tokens.len() {
                                spec_simple_type_children(tokens, j, main_ns, tag, Some(tv), ats)
                            } else {
                                Err(ErrorKind::UnexpectedToken)
                            },
                            Err(k) => Err(k),
                        }
                    }
                } else if l@ == "attribute"@ {
                    match spec_attribute(tokens, i + 1, main_ns, ctag) {
                        Ok((j, av)) => if i + 1 <= j <= tokens.len() {
                            spec_simple_type_children(tokens, j, main_ns, tag, ty, ats.push(av))
                        } else {
                            Err(ErrorKind::UnexpectedToken)
                        },
                        Err(k) => Err(k),
                    }
                } else if l@ == "annotation"@ {
                    match spec_skip(tokens, i + 1, seq![ctag]) {
                        Some(j) => if i + 1 <= j <= tokens.len() {
                            spec_simple_type_children(tokens, j, main_ns, tag, ty, ats)
                        } else {
                            Err(ErrorKind::UnexpectedToken)
                        },
                        None => Err(ErrorKind::UnexpectedToken),
                    }
                } else {
                    Err(ErrorKind::UnknownElement)
                }
            },
            _ => Err(ErrorKind::UnexpectedToken),
        }
    }
}

/// The `restriction` production: a required qualified `base=`; the content
/// model of a restriction is not modeled, so its body is skipped wholesale
/// and the result is the base as a custom type reference.
pub open spec fn spec_restriction(
    tokens: Seq<Token>,
    i: int,
    tag: (Seq<char>, Seq<char>),
) -> Result<(int, ElementTypeV), ErrorKind>
    decreases tokens.len() - i,
{
    match spec_attr_phase(tokens, i, Prod::Restriction, empty_acc()) {
        Err(k) => Err(k),
        Ok((j, end, acc)) => if !(i < j <= tokens.len()) {
            Err(ErrorKind::UnexpectedToken)
        } else if !(end is Open) {
            Err(ErrorKind::UnexpectedToken)
        } else {
            match spec_skip(tokens, j, seq![tag]) {
                None => Err(ErrorKind::UnexpectedToken),
                Some(j2) => match acc.base {
                    None => Err(ErrorKind::MissingRequiredField),
                    Some(b) => match split_id_spec(b) {
                        Ok(q) => Ok((j2, ElementTypeV::Custom(q.0, q.1))),
                        Err(k) => Err(k),
                    },
                },
            }
        },
    }
}

/// The `union` production: an optional `memberTypes=` list of qualified
/// names and, when the body is open, a sequence of inline definitions; the
/// two forms may combine.
pub open spec fn spec_union(
    tokens: Seq<Token>,
    i: int,
    main_ns: Seq<char>,
    tag: (Seq<char>, Seq<char>),
) -> Result<(int, ElementTypeV), ErrorKind>
    decreases tokens.len() - i,
{
    match spec_attr_phase(tokens, i, Prod::Union, empty_acc()) {
        Err(k) => Err(k),
        Ok((j, end, acc)) => if !(i < j <= tokens.len()) {
            Err(ErrorKind::UnexpectedToken)
        } else {
            let items = match end {
                AttrEnd::Empty => Ok((j, None)),
                AttrEnd::Open => match spec_elements_children(tokens, j, main_ns, tag, Seq::empty()) {
                    Ok((j2, its)) => Ok((j2, Some(its))),
                    Err(k) => Err(k),
                },
                AttrEnd::Close => Err(ErrorKind::UnexpectedToken),
            };
            match items {
                Err(k) => Err(k),
                Ok((j2, its)) => match acc.member_types {
                    None => Ok((j2, ElementTypeV::Union(None, its))),
                    Some(s) => match members_spec(s) {
                        Ok(ms) => Ok((j2, ElementTypeV::Union(Some(ms), its))),
                        Err(k) => Err(k),
                    },
                },
            }
        },
    }
}

/// The `list` production: self-closing only, with a required qualified
/// `itemType=`.
pub open spec fn spec_list(tokens: Seq<Token>, i: int, tag: (Seq<char>, Seq<char>)) -> Result<
    (int, ElementTypeV),
    ErrorKind,
>
    decreases tokens.len() - i,
{
    match spec_attr_phase(tokens, i, Prod::List, empty_acc()) {
        Err(k) => Err(k),
        Ok((j, end, acc)) => if !(i < j <= tokens.len()) {
            Err(ErrorKind::UnexpectedToken)
        } else if !(end is Empty) {
            Err(ErrorKind::UnexpectedToken)
        } else {
            match acc.item_type {
                None => Err(ErrorKind::MissingRequiredField),
                Some(t) => match split_id_spec(t) {
                    Ok(q) => Ok((j, ElementTypeV::List(q))),
                    Err(k) => Err(k),
                },
            }
        },
    }
}

/// A named `group` definition: a required name, then the shared body rule,
/// whose model group child is required.
pub open spec fn spec_group_def(
    tokens: Seq<Token>,
    i: int,
    main_ns: Seq<char>,
    tag: (Seq<char>, Seq<char>),
) -> Result<(int, (Seq<char>, Seq<AttributeV>, ElementTypeV)), ErrorKind>
    decreases tokens.len() - i,
{
    match spec_attr_phase(tokens, i, Prod::GroupDef, empty_acc()) {
        Err(k) => Err(k),
        Ok((j, end, acc)) => if !(i < j <= tokens.len()) {
            Err(ErrorKind::UnexpectedToken)
        } else if !(end is Open) {
            Err(ErrorKind::UnexpectedToken)
        } else {
            match spec_subtype_children(tokens, j, main_ns, tag, None, Seq::empty()) {
                Err(k) => Err(k),
                Ok((j2, ai)) => match acc.name {
                    None => Err(ErrorKind::MissingRequiredField),
                    Some(nm) => match ai.1 {
                        Some(inner) => Ok((j2, (nm, ai.0, inner))),
                        None => Err(ErrorKind::MissingRequiredField),
                    },
                },
            }
        },
    }
}

/// A `group` reference: self-closing only, with a required `ref=`.
pub open spec fn spec_group_ref(tokens: Seq<Token>, i: int, tag: (Seq<char>, Seq<char>)) -> Result<
    (int, ElementTypeV),
    ErrorKind,
>
    decreases tokens.len() - i,
{
    match spec_attr_phase(tokens, i, Prod::GroupRef, empty_acc()) {
        Err(k) => Err(k),
        Ok((j, end, acc)) => if !(i < j <= tokens.len()) {
            Err(ErrorKind::UnexpectedToken)
        } else if !(end is Empty) {
            Err(ErrorKind::UnexpectedToken)
        } else {
            match acc.ref_ {
                None => Err(ErrorKind::MissingRequiredField),
                Some(r) => Ok((j, ElementTypeV::GroupRef(r))),
            }
        },
    }
}

/// A named `attributeGroup` definition: a required name and the shared body
/// rule, which must not contribute a model group.
pub open spec fn spec_attribute_group_def(
    tokens: Seq<Token>,
    i: int,
    main_ns: Seq<char>,
    tag: (Seq<char>, Seq<char>),
) -> Result<(int, (Seq<char>, Seq<AttributeV>)), ErrorKind>
    decreases tokens.len() - i,
{
    match spec_attr_phase(tokens, i, Prod::AttributeGroupDef, empty_acc()) {
        Err(k) => Err(k),
        Ok((j, end, acc)) => if !(i < j <= tokens.len()) {
            Err(ErrorKind::UnexpectedToken)
        } else if !(end is Open) {
            Err(ErrorKind::UnexpectedToken)
        } else {
            match spec_subtype_children(tokens, j, main_ns, tag, None, Seq::empty()) {
                Err(k) => Err(k),
                Ok((j2, ai)) => match acc.name {
                    None => Err(ErrorKind::MissingRequiredField),
                    Some(nm) => if ai.1 is Some {
                        Err(ErrorKind::ConflictingDefinition)
                    } else {
                        Ok((j2, (nm, ai.0)))
                    },
                },
            }
        },
    }
}

/// An `attributeGroup` reference: self-closing only, with a required
/// `ref=`.
pub open spec fn spec_attribute_group_ref(
    tokens: Seq<Token>,
    i: int,
    tag: (Seq<char>, Seq<char>),
) -> Result<(int, Seq<char>), ErrorKind>
    decreases tokens.len() - i,
{
    match spec_attr_phase(tokens, i, Prod::AttributeGroupRef, empty_acc()) {
        Err(k) => Err(k),
        Ok((j, end, acc)) => if !(i < j <= tokens.len()) {
            Err(ErrorKind::UnexpectedToken)
        } else if !(end is Empty) {
            Err(ErrorKind::UnexpectedToken)
        } else {
            match acc.ref_ {
                None => Err(ErrorKind::MissingRequiredField),
                Some(r) => Ok((j, r)),
            }
        },
    }
}


/// Idempotent parsing: the model is a function of the token sequence
/// alone, so parsing the same document twice from identical input yields
/// structurally equal results.
pub proof fn lemma_parse_deterministic(tokens: Seq<Token>, d1: DocumentV, d2: DocumentV)
    requires
        spec_document(tokens) == Ok::<DocumentV, ErrorKind>(d1),
        spec_document(tokens) == Ok::<DocumentV, ErrorKind>(d2),
    ensures
        d1 == d2,
{
}

} // verus!
