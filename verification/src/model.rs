//! The schema model: the value tree a successful parse produces.
//!
//! The model is built in one bottom-up pass while consuming the token
//! stream; after the top-level parse returns it is immutable. Each node is
//! exclusively owned by its parent container. Beside each executable type
//! stands its mathematical view, over `Seq<char>` and `Seq`, which the
//! parser contracts are stated in.

use vstd::prelude::*;

use crate::text::opt_view;

verus! {

broadcast use vstd::seq::group_seq_axioms, vstd::std_specs::vec::group_vec_axioms;

/// The root of a parse: the XML declaration's fields and at most one schema.
#[derive(Debug, PartialEq, Eq)]
pub struct Document {
    pub version: Option<String>,
    pub encoding: Option<String>,
    pub standalone: Option<String>,
    pub schema: Option<Schema>,
}

/// One parsed `schema` element: declared namespaces, top-level elements, and
/// named type and group definitions. Names of types and of groups are unique
/// within one schema; a second definition of the same name is a fatal
/// structural error, never a silent overwrite.
#[derive(Debug, PartialEq, Eq)]
pub struct Schema {
    pub namespaces: Vec<(String, String)>,
    pub elements: Vec<Element>,
    pub types: Vec<(String, (Vec<Attribute>, ElementType))>,
    pub groups: Vec<(String, (Vec<Attribute>, Option<ElementType>))>,
}

/// One element declaration. Anonymous when nested as a group, sequence or
/// choice member without its own name.
#[derive(Debug, PartialEq, Eq)]
pub struct Element {
    pub name: Option<String>,
    pub attrs: Vec<Attribute>,
    pub type_: ElementType,
}

/// The type of an element: exactly one variant is active. `Extension` is
/// self-referential through its inner type and carries heap indirection; all
/// other variants are stored inline.
#[derive(Debug, PartialEq, Eq)]
pub enum ElementType {
    String,
    Date,
    Sequence(Vec<Element>),
    Ref(String),
    Custom(Option<String>, String),
    Extension((Option<String>, String), Vec<Attribute>, Option<Box<ElementType>>),
    GroupRef(String),
    Choice(Vec<Element>),
    Union(Option<Vec<(Option<String>, String)>>, Option<Vec<Element>>),
    List((Option<String>, String)),
}

/// One attribute declaration inside a type definition.
#[derive(Debug, PartialEq, Eq)]
pub enum Attribute {
    SmallDef { name: String, type_: String, default: Option<String> },
    LongDef { name: String, default: Option<String>, inner: Element },
    Ref(String),
    GroupRef(String),
}

/// The view of a `Document`.
#[verifier::ext_equal]
pub struct DocumentV {
    pub version: Option<Seq<char>>,
    pub encoding: Option<Seq<char>>,
    pub standalone: Option<Seq<char>>,
    pub schema: Option<SchemaV>,
}

/// The view of a `Schema`.
#[verifier::ext_equal]
pub struct SchemaV {
    pub namespaces: Seq<(Seq<char>, Seq<char>)>,
    pub elements: Seq<ElementV>,
    pub types: Seq<(Seq<char>, (Seq<AttributeV>, ElementTypeV))>,
    pub groups: Seq<(Seq<char>, (Seq<AttributeV>, Option<ElementTypeV>))>,
}

/// The view of an `Element`.
#[verifier::ext_equal]
pub struct ElementV {
    pub name: Option<Seq<char>>,
    pub attrs: Seq<AttributeV>,
    pub type_: ElementTypeV,
}

/// The view of an `ElementType`. The `Extension` variant's inner type is a
/// sequence that is either empty (no inner type) or a singleton, standing
/// for the executable type's optional boxed inner type.
#[verifier::ext_equal]
pub enum ElementTypeV {
    String,
    Date,
    Sequence(Seq<ElementV>),
    Ref(Seq<char>),
    Custom(Option<Seq<char>>, Seq<char>),
    Extension((Option<Seq<char>>, Seq<char>), Seq<AttributeV>, Seq<ElementTypeV>),
    GroupRef(Seq<char>),
    Choice(Seq<ElementV>),
    Union(Option<Seq<(Option<Seq<char>>, Seq<char>)>>, Option<Seq<ElementV>>),
    List((Option<Seq<char>>, Seq<char>)),
}

/// The view of an `Attribute`.
#[verifier::ext_equal]
pub enum AttributeV {
    SmallDef { name: Seq<char>, type_: Seq<char>, default: Option<Seq<char>> },
    LongDef { name: Seq<char>, default: Option<Seq<char>>, inner: ElementV },
    Ref(Seq<char>),
    GroupRef(Seq<char>),
}

/// The view of an optional-prefix name pair.
pub open spec fn view_qpair(p: (Option<String>, String)) -> (Option<Seq<char>>, Seq<char>) {
    (opt_view(p.0), p.1@)
}

/// The views of a list of optional-prefix name pairs.
pub open spec fn view_qpairs(v: Seq<(Option<String>, String)>) -> Seq<
    (Option<Seq<char>>, Seq<char>),
> {
    v.map_values(|p: (Option<String>, String)| view_qpair(p))
}

/// The view of an element declaration.
pub open spec fn view_element(e: Element) -> ElementV
    decreases e,
{
    ElementV { name: opt_view(e.name), attrs: view_attrs(e.attrs@), type_: view_element_type(e.type_) }
}

/// The views of a list of element declarations.
pub open spec fn view_elements(s: Seq<Element>) -> Seq<ElementV>
    decreases s,
{
    if s.len() == 0 {
        Seq::empty()
    } else {
        seq![view_element(s[0])] + view_elements(s.drop_first())
    }
}

/// The view of an element type.
pub open spec fn view_element_type(t: ElementType) -> ElementTypeV
    decreases t,
{
    match t {
        ElementType::String => ElementTypeV::String,
        ElementType::Date => ElementTypeV::Date,
        ElementType::Sequence(items) => ElementTypeV::Sequence(view_elements(items@)),
        ElementType::Ref(r) => ElementTypeV::Ref(r@),
        ElementType::Custom(p, l) => ElementTypeV::Custom(opt_view(p), l@),
        ElementType::Extension(base, attrs, inner) => ElementTypeV::Extension(
            view_qpair(base),
            view_attrs(attrs@),
            match inner {
                None => Seq::empty(),
                Some(b) => seq![view_element_type(*b)],
            },
        ),
        ElementType::GroupRef(r) => ElementTypeV::GroupRef(r@),
        ElementType::Choice(items) => ElementTypeV::Choice(view_elements(items@)),
        ElementType::Union(members, items) => ElementTypeV::Union(
            match members {
                None => None,
                Some(ms) => Some(view_qpairs(ms@)),
            },
            match items {
                None => None,
                Some(es) => Some(view_elements(es@)),
            },
        ),
        ElementType::List(q) => ElementTypeV::List(view_qpair(q)),
    }
}

/// The view of an attribute declaration.
pub open spec fn view_attr(a: Attribute) -> AttributeV
    decreases a,
{
    match a {
        Attribute::SmallDef { name, type_, default } => AttributeV::SmallDef {
            name: name@,
            type_: type_@,
            default: opt_view(default),
        },
        Attribute::LongDef { name, default, inner } => AttributeV::LongDef {
            name: name@,
            default: opt_view(default),
            inner: view_element(inner),
        },
        Attribute::Ref(r) => AttributeV::Ref(r@),
        Attribute::GroupRef(r) => AttributeV::GroupRef(r@),
    }
}

/// The views of a list of attribute declarations.
pub open spec fn view_attrs(s: Seq<Attribute>) -> Seq<AttributeV>
    decreases s,
{
    if s.len() == 0 {
        Seq::empty()
    } else {
        seq![view_attr(s[0])] + view_attrs(s.drop_first())
    }
}

/// The views of a schema's named type definitions.
pub open spec fn view_types(s: Seq<(String, (Vec<Attribute>, ElementType))>) -> Seq<
    (Seq<char>, (Seq<AttributeV>, ElementTypeV)),
>
    decreases s,
{
    if s.len() == 0 {
        Seq::empty()
    } else {
        seq![(s[0].0@, (view_attrs(s[0].1.0@), view_element_type(s[0].1.1)))] + view_types(
            s.drop_first(),
        )
    }
}

/// The views of a schema's named group definitions.
pub open spec fn view_groups(s: Seq<(String, (Vec<Attribute>, Option<ElementType>))>) -> Seq<
    (Seq<char>, (Seq<AttributeV>, Option<ElementTypeV>)),
>
    decreases s,
{
    if s.len() == 0 {
        Seq::empty()
    } else {
        seq![
            (
                s[0].0@,
                (
                    view_attrs(s[0].1.0@),
                    match s[0].1.1 {
                        None => None,
                        Some(t) => Some(view_element_type(t)),
                    },
                ),
            ),
        ] + view_groups(s.drop_first())
    }
}

/// The view of a schema.
pub open spec fn view_schema(s: Schema) -> SchemaV {
    SchemaV {
        namespaces: crate::text::view_pairs(s.namespaces@),
        elements: view_elements(s.elements@),
        types: view_types(s.types@),
        groups: view_groups(s.groups@),
    }
}

/// The view of a document.
pub open spec fn view_document(d: Document) -> DocumentV {
    DocumentV {
        version: opt_view(d.version),
        encoding: opt_view(d.encoding),
        standalone: opt_view(d.standalone),
        schema: match d.schema {
            None => None,
            Some(s) => Some(view_schema(s)),
        },
    }
}

/// Appending one element commutes with taking views of an element list.
pub proof fn lemma_view_elements_snoc(s: Seq<Element>, e: Element)
    ensures
        view_elements(s.push(e)) == view_elements(s).push(view_element(e)),
    decreases s.len(),
{
    if s.len() == 0 {
        reveal_with_fuel(view_elements, 2);
        assert(s.push(e).drop_first() =~= Seq::<Element>::empty());
        assert(s.push(e)[0] == e);
        assert(view_elements(s.push(e)) =~= view_elements(s).push(view_element(e)));
    } else {
        lemma_view_elements_snoc(s.drop_first(), e);
        assert(s.push(e).drop_first() =~= s.drop_first().push(e));
        assert(s.push(e)[0] == s[0]);
        assert(seq![view_element(s[0])] + view_elements(s.drop_first()).push(view_element(e)) =~= (
        seq![view_element(s[0])] + view_elements(s.drop_first())).push(view_element(e)));
        assert(view_elements(s.push(e)) =~= view_elements(s).push(view_element(e)));
    }
}

/// Appending one attribute commutes with taking views of an attribute list.
pub proof fn lemma_view_attrs_snoc(s: Seq<Attribute>, a: Attribute)
    ensures
        view_attrs(s.push(a)) == view_attrs(s).push(view_attr(a)),
    decreases s.len(),
{
    if s.len() == 0 {
        reveal_with_fuel(view_attrs, 2);
        assert(s.push(a).drop_first() =~= Seq::<Attribute>::empty());
        assert(s.push(a)[0] == a);
        assert(view_attrs(s.push(a)) =~= view_attrs(s).push(view_attr(a)));
    } else {
        lemma_view_attrs_snoc(s.drop_first(), a);
        assert(s.push(a).drop_first() =~= s.drop_first().push(a));
        assert(s.push(a)[0] == s[0]);
        assert(seq![view_attr(s[0])] + view_attrs(s.drop_first()).push(view_attr(a)) =~= (
        seq![view_attr(s[0])] + view_attrs(s.drop_first())).push(view_attr(a)));
        assert(view_attrs(s.push(a)) =~= view_attrs(s).push(view_attr(a)));
    }
}

/// Appending one named type commutes with taking views of the type list.
pub proof fn lemma_view_types_snoc(s: Seq<(String, (Vec<Attribute>, ElementType))>, x: (String, (Vec<Attribute>, ElementType)))
    ensures
        view_types(s.push(x)) == view_types(s).push(
            (x.0@, (view_attrs(x.1.0@), view_element_type(x.1.1))),
        ),
    decreases s.len(),
{
    if s.len() == 0 {
        reveal_with_fuel(view_types, 2);
        assert(s.push(x).drop_first() =~= Seq::<(String, (Vec<Attribute>, ElementType))>::empty());
        assert(s.push(x)[0] == x);
        assert(view_types(s.push(x)) =~= view_types(s).push(
            (x.0@, (view_attrs(x.1.0@), view_element_type(x.1.1))),
        ));
    } else {
        lemma_view_types_snoc(s.drop_first(), x);
        assert(s.push(x).drop_first() =~= s.drop_first().push(x));
        assert(s.push(x)[0] == s[0]);
        let hd = (s[0].0@, (view_attrs(s[0].1.0@), view_element_type(s[0].1.1)));
        let xv = (x.0@, (view_attrs(x.1.0@), view_element_type(x.1.1)));
        assert(seq![hd] + view_types(s.drop_first()).push(xv) =~= (seq![hd] + view_types(
            s.drop_first(),
        )).push(xv));
        assert(view_types(s.push(x)) =~= view_types(s).push(xv));
    }
}

/// Appending one named group commutes with taking views of the group list.
pub proof fn lemma_view_groups_snoc(s: Seq<(String, (Vec<Attribute>, Option<ElementType>))>, x: (String, (Vec<Attribute>, Option<ElementType>)))
    ensures
        view_groups(s.push(x)) == view_groups(s).push(
            (
                x.0@,
                (
                    view_attrs(x.1.0@),
                    match x.1.1 {
                        None => None,
                        Some(t) => Some(view_element_type(t)),
                    },
                ),
            ),
        ),
    decreases s.len(),
{
    if s.len() == 0 {
        reveal_with_fuel(view_groups, 2);
        assert(s.push(x).drop_first() =~= Seq::<
            (String, (Vec<Attribute>, Option<ElementType>)),
        >::empty());
        assert(s.push(x)[0] == x);
        assert(view_groups(s.push(x)) =~= view_groups(s).push(
            (
                x.0@,
                (
                    view_attrs(x.1.0@),
                    match x.1.1 {
                        None => None,
                        Some(t) => Some(view_element_type(t)),
                    },
                ),
            ),
        ));
    } else {
        lemma_view_groups_snoc(s.drop_first(), x);
        assert(s.push(x).drop_first() =~= s.drop_first().push(x));
        assert(s.push(x)[0] == s[0]);
        let hd = (
            s[0].0@,
            (
                view_attrs(s[0].1.0@),
                match s[0].1.1 {
                    None => None,
                    Some(t) => Some(view_element_type(t)),
                },
            ),
        );
        let xv = (
            x.0@,
            (
                view_attrs(x.1.0@),
                match x.1.1 {
                    None => None,
                    Some(t) => Some(view_element_type(t)),
                },
            ),
        );
        assert(seq![hd] + view_groups(s.drop_first()).push(xv) =~= (seq![hd] + view_groups(
            s.drop_first(),
        )).push(xv));
        assert(view_groups(s.push(x)) =~= view_groups(s).push(xv));
    }
}

/// The view of a type list keeps its length and its keys, position by
/// position.
pub proof fn lemma_view_types_keys(s: Seq<(String, (Vec<Attribute>, ElementType))>)
    ensures
        view_types(s).len() == s.len(),
        forall|k: int| 0 <= k < s.len() ==> #[trigger] view_types(s)[k].0 == s[k].0@,
    decreases s.len(),
{
    if s.len() > 0 {
        lemma_view_types_keys(s.drop_first());
        assert forall|k: int| 0 <= k < s.len() implies #[trigger] view_types(s)[k].0 == s[k].0@ by {
            if k > 0 {
                assert(view_types(s)[k] == view_types(s.drop_first())[k - 1]);
                assert(s.drop_first()[k - 1] == s[k]);
            }
        }
    }
}

/// The view of a group list keeps its length and its keys, position by
/// position.
pub proof fn lemma_view_groups_keys(s: Seq<(String, (Vec<Attribute>, Option<ElementType>))>)
    ensures
        view_groups(s).len() == s.len(),
        forall|k: int| 0 <= k < s.len() ==> #[trigger] view_groups(s)[k].0 == s[k].0@,
    decreases s.len(),
{
    if s.len() > 0 {
        lemma_view_groups_keys(s.drop_first());
        assert forall|k: int| 0 <= k < s.len() implies #[trigger] view_groups(s)[k].0 == s[k].0@
            by {
            if k > 0 {
                assert(view_groups(s)[k] == view_groups(s.drop_first())[k - 1]);
                assert(s.drop_first()[k - 1] == s[k]);
            }
        }
    }
}

/// The view of an optional element type.
pub open spec fn view_opt_type(t: Option<ElementType>) -> Option<ElementTypeV> {
    match t {
        None => None,
        Some(x) => Some(view_element_type(x)),
    }
}

/// The view of an optional attribute list.
pub open spec fn view_opt_attrs(a: Option<Vec<Attribute>>) -> Option<Seq<AttributeV>> {
    match a {
        None => None,
        Some(v) => Some(view_attrs(v@)),
    }
}

/// Whether a key occurs in an association list.
pub open spec fn has_key<T>(entries: Seq<(Seq<char>, T)>, key: Seq<char>) -> bool {
    exists|k: int| 0 <= k < entries.len() && entries[k].0 == key
}

/// Whether the keys of an association list are pairwise distinct.
pub open spec fn unique_keys<T>(entries: Seq<(Seq<char>, T)>) -> bool {
    forall|i: int, j: int| 0 <= i < j < entries.len() ==> entries[i].0 != entries[j].0
}

/// Appending an entry whose key is absent keeps the keys distinct.
pub proof fn lemma_unique_push<T>(entries: Seq<(Seq<char>, T)>, x: (Seq<char>, T))
    requires
        unique_keys(entries),
        !has_key(entries, x.0),
    ensures
        unique_keys(entries.push(x)),
{
    assert forall|i: int, j: int| 0 <= i < j < entries.push(x).len() implies entries.push(x)[i].0
        != entries.push(x)[j].0 by {
        if j == entries.len() {
            assert(entries.push(x)[i] == entries[i]);
            assert(entries[i].0 != x.0);
        } else {
            assert(entries.push(x)[i] == entries[i]);
            assert(entries.push(x)[j] == entries[j]);
        }
    }
}

} // verus!
