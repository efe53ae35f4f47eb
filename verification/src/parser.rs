//! The grammar engine: one parse routine per XSD production, each verified
//! to return exactly what the corresponding specification function in
//! [`crate::grammar`] states.
//!
//! Every routine shares one exclusively borrowed [`Stream`]; a routine
//! consumes exactly its own production's tokens and returns the cursor
//! positioned immediately after them. Every structural violation aborts the
//! whole parse with a typed [`ParseError`]; there is no retry and no
//! partial result.

use vstd::prelude::*;

use crate::errors::ParseError;
use crate::grammar::{
    classify, empty_acc, end_kind, first_space, members_spec, members_spec_at, spec_attr_phase,
    spec_attribute, spec_attribute_group_def, spec_attribute_group_ref, spec_choice,
    spec_complex_content, spec_complex_content_children, spec_complex_type, spec_document_items,
    spec_element, spec_elements_children, spec_extension, spec_group_def, spec_group_ref,
    spec_list, spec_restriction, spec_schema, spec_schema_children, spec_sequence,
    spec_simple_type, spec_simple_type_children, spec_skip, spec_subelement_children,
    spec_subtype_children, spec_union, store_attr, xsd_uri, AttrAccV, AttrField, AttrRule, Prod,
};
use crate::model::{
    has_key, lemma_view_attrs_snoc, lemma_view_elements_snoc, lemma_view_groups_keys,
    lemma_view_groups_snoc, lemma_view_types_keys, lemma_view_types_snoc, view_attrs,
    view_document, view_element, view_element_type, view_elements, view_groups, view_opt_attrs,
    view_opt_type, view_qpair, view_qpairs, view_schema, view_types, Attribute, Document, Element,
    ElementType, Schema, SchemaV,
};
use crate::names::{build_table, split_id};
use crate::text::{str_eq, view_pairs};
use crate::token::{ElementEnd, Stream, Token};

verus! {

broadcast use vstd::seq::group_seq_axioms, vstd::std_specs::vec::group_vec_axioms;

/// An owned copy of a borrowed tag pair, for error payloads.
fn tag_owned(tag: (&str, &str)) -> (r: (String, String))
    ensures
        r.0@ == tag.0@,
        r.1@ == tag.1@,
{
    (tag.0.to_owned(), tag.1.to_owned())
}

/// What an attribute phase accumulated: the single-valued attributes each
/// production may store, and the `xmlns:*` declarations seen.
pub struct AttrAcc {
    pub name: Option<String>,
    pub type_attr: Option<String>,
    pub ref_: Option<String>,
    pub base: Option<String>,
    pub member_types: Option<String>,
    pub item_type: Option<String>,
    pub default: Option<String>,
    pub xmlns: Vec<(String, String)>,
}

impl View for AttrAcc {
    type V = AttrAccV;

    open spec fn view(&self) -> AttrAccV {
        AttrAccV {
            name: crate::text::opt_view(self.name),
            type_attr: crate::text::opt_view(self.type_attr),
            ref_: crate::text::opt_view(self.ref_),
            base: crate::text::opt_view(self.base),
            member_types: crate::text::opt_view(self.member_types),
            item_type: crate::text::opt_view(self.item_type),
            default: crate::text::opt_view(self.default),
            xmlns: view_pairs(self.xmlns@),
        }
    }
}

/// The per-production attribute table, decided executably.
fn classify_attr(prod: Prod, p: &str, l: &str) -> (r: AttrRule)
    ensures
        r == classify(prod, p@, l@),
{
    if str_eq(p, "xmlns") {
        AttrRule::Xmlns
    } else if str_eq(p, "xml") && str_eq(l, "lang") {
        AttrRule::Ignore
    } else if str_eq(p, "") {
        match prod {
            Prod::Schema => if str_eq(l, "elementFormDefault") || str_eq(l, "targetNamespace")
                || str_eq(l, "version") {
                AttrRule::Ignore
            } else {
                AttrRule::Unknown
            },
            Prod::Element => if str_eq(l, "name") {
                AttrRule::Store(AttrField::FName)
            } else if str_eq(l, "type") {
                AttrRule::Store(AttrField::FType)
            } else if str_eq(l, "ref") {
                AttrRule::Store(AttrField::FRef)
            } else if str_eq(l, "minOccurs") || str_eq(l, "maxOccurs") || str_eq(l, "id") {
                AttrRule::Ignore
            } else {
                AttrRule::Unknown
            },
            Prod::ComplexType | Prod::SimpleType | Prod::GroupDef | Prod::AttributeGroupDef => if str_eq(
                l,
                "name",
            ) {
                AttrRule::Store(AttrField::FName)
            } else {
                AttrRule::Unknown
            },
            Prod::GroupRef | Prod::AttributeGroupRef => if str_eq(l, "ref") {
                AttrRule::Store(AttrField::FRef)
            } else if str_eq(l, "minOccurs") || str_eq(l, "maxOccurs") {
                AttrRule::Ignore
            } else {
                AttrRule::Unknown
            },
            Prod::Sequence | Prod::Choice => if str_eq(l, "minOccurs") || str_eq(l, "maxOccurs") {
                AttrRule::Ignore
            } else {
                AttrRule::Unknown
            },
            Prod::Extension | Prod::Restriction => if str_eq(l, "base") {
                AttrRule::Store(AttrField::FBase)
            } else {
                AttrRule::Unknown
            },
            Prod::ComplexContent => AttrRule::Unknown,
            Prod::Union => if str_eq(l, "memberTypes") {
                AttrRule::Store(AttrField::FMemberTypes)
            } else {
                AttrRule::Unknown
            },
            Prod::List => if str_eq(l, "itemType") {
                AttrRule::Store(AttrField::FItemType)
            } else {
                AttrRule::Unknown
            },
            Prod::AttributeDecl => if str_eq(l, "name") {
                AttrRule::Store(AttrField::FName)
            } else if str_eq(l, "type") {
                AttrRule::Store(AttrField::FType)
            } else if str_eq(l, "default") {
                AttrRule::Store(AttrField::FDefault)
            } else if str_eq(l, "ref") {
                AttrRule::Store(AttrField::FRef)
            } else if str_eq(l, "fixed") || str_eq(l, "use") {
                AttrRule::Ignore
            } else {
                AttrRule::Unknown
            },
        }
    } else {
        AttrRule::Unknown
    }
}

/// Stores one attribute value into its slot, or reports the duplicate or
/// conflict.
fn apply_store(prod: Prod, f: AttrField, acc: AttrAcc, v: String, attr_local: &str, tag: (
    &str,
    &str,
)) -> (r: Result<AttrAcc, ParseError>)
    ensures
        match store_attr(prod, f, acc@, v@) {
            Ok(a2) => r is Ok && r->Ok_0@ == a2,
            Err(k) => r is Err && r->Err_0.kind() == k,
        },
{
    let ghost accv = acc@;
    let ghost vv = v@;
    let mut acc = acc;
    match f {
        AttrField::FName => {
            if acc.name.is_some() {
                return Err(ParseError::DuplicateAttribute {
                    tag: tag_owned(tag),
                    attribute: attr_local.to_owned(),
                });
            }
            acc.name = Some(v);
            proof {
                assert(acc@ =~= AttrAccV { name: Some(vv), ..accv });
            }
            Ok(acc)
        },
        AttrField::FType => {
            if acc.type_attr.is_some() {
                return Err(ParseError::DuplicateAttribute {
                    tag: tag_owned(tag),
                    attribute: attr_local.to_owned(),
                });
            }
            if prod == Prod::Element && acc.ref_.is_some() {
                return Err(ParseError::ConflictingDefinition { tag: tag_owned(tag) });
            }
            acc.type_attr = Some(v);
            proof {
                assert(acc@ =~= AttrAccV { type_attr: Some(vv), ..accv });
            }
            Ok(acc)
        },
        AttrField::FRef => {
            if acc.ref_.is_some() {
                return Err(ParseError::DuplicateAttribute {
                    tag: tag_owned(tag),
                    attribute: attr_local.to_owned(),
                });
            }
            if prod == Prod::Element && acc.type_attr.is_some() {
                return Err(ParseError::ConflictingDefinition { tag: tag_owned(tag) });
            }
            acc.ref_ = Some(v);
            proof {
                assert(acc@ =~= AttrAccV { ref_: Some(vv), ..accv });
            }
            Ok(acc)
        },
        AttrField::FBase => {
            if acc.base.is_some() {
                return Err(ParseError::DuplicateAttribute {
                    tag: tag_owned(tag),
                    attribute: attr_local.to_owned(),
                });
            }
            acc.base = Some(v);
            proof {
                assert(acc@ =~= AttrAccV { base: Some(vv), ..accv });
            }
            Ok(acc)
        },
        AttrField::FMemberTypes => {
            if acc.member_types.is_some() {
                return Err(ParseError::DuplicateAttribute {
                    tag: tag_owned(tag),
                    attribute: attr_local.to_owned(),
                });
            }
            acc.member_types = Some(v);
            proof {
                assert(acc@ =~= AttrAccV { member_types: Some(vv), ..accv });
            }
            Ok(acc)
        },
        AttrField::FItemType => {
            if acc.item_type.is_some() {
                return Err(ParseError::DuplicateAttribute {
                    tag: tag_owned(tag),
                    attribute: attr_local.to_owned(),
                });
            }
            acc.item_type = Some(v);
            proof {
                assert(acc@ =~= AttrAccV { item_type: Some(vv), ..accv });
            }
            Ok(acc)
        },
        AttrField::FDefault => {
            if acc.default.is_some() {
                return Err(ParseError::DuplicateAttribute {
                    tag: tag_owned(tag),
                    attribute: attr_local.to_owned(),
                });
            }
            acc.default = Some(v);
            proof {
                assert(acc@ =~= AttrAccV { default: Some(vv), ..accv });
            }
            Ok(acc)
        },
    }
}

/// The attribute phase shared by every production: reads tokens up to and
/// including the element-end token, dispatching each attribute through the
/// production's table.
pub fn parse_attributes(stream: &mut Stream, prod: Prod, closing_tag: (&str, &str)) -> (r: Result<
    (ElementEnd, AttrAcc),
    ParseError,
>)
    requires
        old(stream).wf(),
    ensures
        final(stream).wf(),
        final(stream).tokens() == old(stream).tokens(),
        final(stream).pos() >= old(stream).pos(),
        match spec_attr_phase(old(stream).tokens(), old(stream).pos(), prod, empty_acc()) {
            Ok(res) => {
                &&& r is Ok
                &&& final(stream).pos() == res.0
                &&& old(stream).pos() < res.0 <= old(stream).tokens().len()
                &&& end_kind(r->Ok_0.0) == res.1
                &&& r->Ok_0.1@ == res.2
            },
            Err(k) => r is Err && r->Err_0.kind() == k,
        },
{
    let ghost toks = old(stream).tokens();
    let ghost p0 = old(stream).pos();
    let mut acc = AttrAcc {
        name: None,
        type_attr: None,
        ref_: None,
        base: None,
        member_types: None,
        item_type: None,
        default: None,
        xmlns: Vec::new(),
    };
    proof {
        assert(acc@.xmlns =~= empty_acc().xmlns);
        assert(acc@ =~= empty_acc());
    }
    loop
        invariant
            stream.wf(),
            toks == old(stream).tokens(),
            p0 == old(stream).pos(),
            stream.tokens() == toks,
            p0 <= stream.pos() <= toks.len(),
            spec_attr_phase(toks, stream.pos(), prod, acc@) == spec_attr_phase(
                toks,
                p0,
                prod,
                empty_acc(),
            ),
        decreases toks.len() - stream.pos(),
    {
        let ghost pos_it = stream.pos();
        match stream.next() {
            None => {
                return Err(ParseError::UnexpectedToken { tag: tag_owned(closing_tag) });
            },
            Some(tok) => {
                match tok {
                    Token::Whitespace(_) => {},
                    Token::Comment(_) => {},
                    Token::Attribute(p, l, v) => {
                        match classify_attr(prod, p.as_str(), l.as_str()) {
                            AttrRule::Ignore => {},
                            AttrRule::Xmlns => {
                                let ghost accv = acc@;
                                let ghost lv = l@;
                                let ghost vv = v@;
                                let ghost xpre = acc.xmlns@;
                                acc.xmlns.push((l, v));
                                proof {
                                    assert(view_pairs(acc.xmlns@) =~= view_pairs(xpre).push(
                                        (lv, vv),
                                    ));
                                    assert(acc@ =~= AttrAccV {
                                        xmlns: accv.xmlns.push((lv, vv)),
                                        ..accv
                                    });
                                }
                            },
                            AttrRule::Store(f) => {
                                match apply_store(prod, f, acc, v, l.as_str(), closing_tag) {
                                    Ok(acc2) => {
                                        acc = acc2;
                                    },
                                    Err(e) => {
                                        return Err(e);
                                    },
                                }
                            },
                            AttrRule::Unknown => {
                                return Err(ParseError::UnknownAttribute {
                                    tag: tag_owned(closing_tag),
                                    attribute: (p, l),
                                });
                            },
                        }
                    },
                    Token::ElementEnd(e) => {
                        return Ok((e, acc));
                    },
                    _ => {
                        return Err(ParseError::UnexpectedToken { tag: tag_owned(closing_tag) });
                    },
                }
            },
        }
    }
}

/// Structurally consumes an unmodeled subtree: a stack of open tags is
/// seeded with the current closing tag; element starts push, element ends
/// pop, a mismatched closing tag is a fatal integrity error. Terminates,
/// whatever the vocabulary, when the stack empties, with the cursor
/// immediately after the subtree's closing tag.
pub fn eat_block(stream: &mut Stream, closing_tag: (&str, &str)) -> (r: Result<(), ParseError>)
    requires
        old(stream).wf(),
    ensures
        final(stream).wf(),
        final(stream).tokens() == old(stream).tokens(),
        final(stream).pos() >= old(stream).pos(),
        match spec_skip(
            old(stream).tokens(),
            old(stream).pos(),
            seq![(closing_tag.0@, closing_tag.1@)],
        ) {
            Some(j) => r is Ok && final(stream).pos() == j,
            None => r is Err && r->Err_0.kind() == crate::errors::ErrorKind::UnexpectedToken,
        },
{
    let ghost toks = old(stream).tokens();
    let ghost p0 = old(stream).pos();
    let mut stack: Vec<(String, String)> = Vec::new();
    stack.push((closing_tag.0.to_owned(), closing_tag.1.to_owned()));
    proof {
        assert(view_pairs(stack@) =~= seq![(closing_tag.0@, closing_tag.1@)]);
    }
    while stack.len() > 0
        invariant
            stream.wf(),
            toks == old(stream).tokens(),
            p0 == old(stream).pos(),
            stream.tokens() == toks,
            p0 <= stream.pos() <= toks.len(),
            spec_skip(toks, stream.pos(), view_pairs(stack@)) == spec_skip(
                toks,
                p0,
                seq![(closing_tag.0@, closing_tag.1@)],
            ),
        decreases toks.len() - stream.pos(),
    {
        let ghost pos_it = stream.pos();
        let ghost stk = view_pairs(stack@);
        match stream.next() {
            None => {
                return Err(ParseError::UnexpectedToken { tag: tag_owned(closing_tag) });
            },
            Some(tok) => {
                match tok {
                    Token::ElementStart(p, l) => {
                        let ghost pv = p@;
                        let ghost lv = l@;
                        stack.push((p, l));
                        proof {
                            assert(view_pairs(stack@) =~= stk.push((pv, lv)));
                        }
                    },
                    Token::ElementEnd(e) => {
                        match e {
                            ElementEnd::Empty => {
                                let _ = stack.pop();
                                proof {
                                    assert(view_pairs(stack@) =~= stk.drop_last());
                                }
                            },
                            ElementEnd::Close(p, l) => {
                                let top = match stack.pop() {
                                    Some(t) => t,
                                    None => {
                                        return Err(ParseError::UnexpectedToken {
                                            tag: tag_owned(closing_tag),
                                        });
                                    },
                                };
                                proof {
                                    assert(stk.last() == (top.0@, top.1@));
                                    assert(view_pairs(stack@) =~= stk.drop_last());
                                }
                                if !(str_eq(top.0.as_str(), p.as_str()) && str_eq(
                                    top.1.as_str(),
                                    l.as_str(),
                                )) {
                                    return Err(ParseError::UnexpectedToken {
                                        tag: tag_owned(closing_tag),
                                    });
                                }
                            },
                            ElementEnd::Open => {},
                        }
                    },
                    _ => {},
                }
            },
        }
    }
    proof {
        assert(view_pairs(stack@).len() == 0);
    }
    Ok(())
}

/// An `annotation` body carries documentation, not schema structure: it is
/// consumed structurally without interpretation.
pub fn parse_annotation(stream: &mut Stream, main_namespace: &str, closing_tag: (&str, &str)) -> (r:
    Result<(), ParseError>)
    requires
        old(stream).wf(),
    ensures
        final(stream).wf(),
        final(stream).tokens() == old(stream).tokens(),
        final(stream).pos() >= old(stream).pos(),
        match spec_skip(
            old(stream).tokens(),
            old(stream).pos(),
            seq![(closing_tag.0@, closing_tag.1@)],
        ) {
            Some(j) => r is Ok && final(stream).pos() == j,
            None => r is Err && r->Err_0.kind() == crate::errors::ErrorKind::UnexpectedToken,
        },
{
    let _ = main_namespace;
    eat_block(stream, closing_tag)
}

/// Builds a schema's namespace table from its `xmlns:*` declarations,
/// rejecting reserved or inconsistently repeated prefixes.
fn build_ns_table(input: Vec<(String, String)>) -> (r: Result<Vec<(String, String)>, ParseError>)
    ensures
        match build_table(view_pairs(input@), Seq::empty()) {
            Ok(t) => r is Ok && view_pairs(r->Ok_0@) == t,
            Err(k) => r is Err && r->Err_0.kind() == k,
        },
{
    let mut table: Vec<(String, String)> = Vec::new();
    proof {
        assert(view_pairs(table@) =~= Seq::<(Seq<char>, Seq<char>)>::empty());
        assert(view_pairs(input@).skip(0) =~= view_pairs(input@));
    }
    let mut i: usize = 0;
    while i < input.len()
        invariant
            0 <= i <= input@.len(),
            build_table(view_pairs(input@).skip(i as int), view_pairs(table@)) == build_table(
                view_pairs(input@),
                Seq::empty(),
            ),
        decreases input@.len() - i,
    {
        proof {
            let ghost pair = (input@[i as int].0@, input@[i as int].1@);
            assert(view_pairs(input@).skip(i as int)[0] == pair);
            assert(view_pairs(input@).skip(i as int).drop_first() =~= view_pairs(input@).skip(
                i as int + 1,
            ));
        }
        let p = &input[i].0;
        let u = &input[i].1;
        if str_eq(p.as_str(), "xml") || str_eq(p.as_str(), "xmlns") {
            return Err(ParseError::DuplicateNamespacePrefix { prefix: p.clone() });
        }
        match crate::names::table_lookup(&table, p.as_str()) {
            Some(ix) => {
                if !str_eq(table[ix].1.as_str(), u.as_str()) {
                    return Err(ParseError::DuplicateNamespacePrefix { prefix: p.clone() });
                }
            },
            None => {
                let ghost tpre = table@;
                table.push((p.clone(), u.clone()));
                proof {
                    assert(view_pairs(table@) =~= view_pairs(tpre).push(
                        (input@[i as int].0@, input@[i as int].1@),
                    ));
                }
            },
        }
        i = i + 1;
    }
    proof {
        assert(view_pairs(input@).skip(i as int).len() == 0);
    }
    Ok(table)
}

proof fn lemma_first_space_found(s: Seq<char>, a: int, k: int)
    requires
        0 <= a <= k < s.len(),
        forall|j: int| a <= j < k ==> s[j] != ' ',
        s[k] == ' ',
    ensures
        first_space(s, a) == Some(k),
    decreases k - a,
{
    if a < k {
        lemma_first_space_found(s, a + 1, k);
    }
}

proof fn lemma_first_space_none(s: Seq<char>, a: int)
    requires
        0 <= a,
        forall|j: int| a <= j < s.len() ==> s[j] != ' ',
    ensures
        first_space(s, a) is None,
    decreases s.len() - a,
{
    if a < s.len() {
        lemma_first_space_none(s, a + 1);
    }
}

/// The first space at or after `from`, as an index into the characters of
/// `s`.
fn find_space(s: &str, from: usize) -> (r: Option<usize>)
    requires
        from <= s@.len(),
    ensures
        match r {
            Some(k) => from <= k < s@.len() && first_space(s@, from as int) == Some(k as int),
            None => first_space(s@, from as int) is None,
        },
{
    let n = s.unicode_len();
    let mut i: usize = from;
    while i < n
        invariant
            from <= i <= n,
            n == s@.len(),
            forall|j: int| from <= j < i ==> s@[j] != ' ',
        decreases n - i,
    {
        if s.get_char(i) == ' ' {
            proof {
                lemma_first_space_found(s@, from as int, i as int);
            }
            return Some(i);
        }
        i = i + 1;
    }
    proof {
        lemma_first_space_none(s@, from as int);
    }
    None
}

/// Splits a `memberTypes=` value: a space-separated list of qualified
/// names, each split into its optional prefix and local part.
fn parse_member_list(s: &str) -> (r: Result<Vec<(Option<String>, String)>, ParseError>)
    ensures
        match members_spec(s@) {
            Ok(ms) => r is Ok && view_qpairs(r->Ok_0@) == ms,
            Err(k) => r is Err && r->Err_0.kind() == k,
        },
{
    let n = s.unicode_len();
    let mut out: Vec<(Option<String>, String)> = Vec::new();
    let mut pos: usize = 0;
    proof {
        assert(view_qpairs(out@) =~= Seq::<(Option<Seq<char>>, Seq<char>)>::empty());
    }
    loop
        invariant
            0 <= pos <= n,
            n == s@.len(),
            members_spec_at(s@, 0) == (match members_spec_at(s@, pos as int) {
                Ok(rest) => Ok::<_, crate::errors::ErrorKind>(view_qpairs(out@) + rest),
                Err(k) => Err(k),
            }),
        decreases n - pos,
    {
        let ghost outv = view_qpairs(out@);
        match find_space(s, pos) {
            None => {
                let part = s.substring_char(pos, n);
                let q = split_id(part)?;
                let ghost qv = view_qpair(q);
                out.push(q);
                proof {
                    assert(view_qpairs(out@) =~= outv.push(qv));
                    assert(outv + seq![qv] =~= view_qpairs(out@));
                }
                return Ok(out);
            },
            Some(k) => {
                let part = s.substring_char(pos, k);
                let q = split_id(part)?;
                let ghost qv = view_qpair(q);
                out.push(q);
                proof {
                    assert(view_qpairs(out@) =~= outv.push(qv));
                    assert(outv + seq![qv] =~= outv.push(qv));
                    assert(outv + (seq![qv] + members_rest(s@, k as int + 1)) =~= (outv + seq![qv])
                        + members_rest(s@, k as int + 1));
                }
                pos = k + 1;
            },
        }
    }
}

/// The tail of a member list from a position, where it is well formed.
pub open spec fn members_rest(s: Seq<char>, pos: int) -> Seq<(Option<Seq<char>>, Seq<char>)> {
    match members_spec_at(s, pos) {
        Ok(rest) => rest,
        Err(_) => Seq::empty(),
    }
}


/// Whether a schema already defines a type of this name.
fn types_has_key(v: &Vec<(String, (Vec<Attribute>, ElementType))>, key: &str) -> (r: bool)
    ensures
        r == has_key(view_types(v@), key@),
{
    proof {
        lemma_view_types_keys(v@);
    }
    let mut i: usize = 0;
    while i < v.len()
        invariant
            0 <= i <= v@.len(),
            forall|j: int| 0 <= j < i ==> v@[j].0@ != key@,
        decreases v@.len() - i,
    {
        if str_eq(v[i].0.as_str(), key) {
            proof {
                lemma_view_types_keys(v@);
                assert(view_types(v@)[i as int].0 == key@);
            }
            return true;
        }
        i = i + 1;
    }
    proof {
        lemma_view_types_keys(v@);
        assert forall|k: int| 0 <= k < view_types(v@).len() implies view_types(v@)[k].0 != key@ by {
            assert(view_types(v@)[k].0 == v@[k].0@);
        }
    }
    false
}

/// Whether a schema already defines a group of this name.
fn groups_has_key(v: &Vec<(String, (Vec<Attribute>, Option<ElementType>))>, key: &str) -> (r: bool)
    ensures
        r == has_key(view_groups(v@), key@),
{
    proof {
        lemma_view_groups_keys(v@);
    }
    let mut i: usize = 0;
    while i < v.len()
        invariant
            0 <= i <= v@.len(),
            forall|j: int| 0 <= j < i ==> v@[j].0@ != key@,
        decreases v@.len() - i,
    {
        if str_eq(v[i].0.as_str(), key) {
            proof {
                lemma_view_groups_keys(v@);
                assert(view_groups(v@)[i as int].0 == key@);
            }
            return true;
        }
        i = i + 1;
    }
    proof {
        lemma_view_groups_keys(v@);
        assert forall|k: int| 0 <= k < view_groups(v@).len() implies view_groups(v@)[k].0 != key@
            by {
            assert(view_groups(v@)[k].0 == v@[k].0@);
        }
    }
    false
}

/// A `group` reference: self-closing, with a required `ref=`.
pub fn parse_group_ref(stream: &mut Stream, main_namespace: &str, closing_tag: (&str, &str)) -> (r:
    Result<ElementType, ParseError>)
    requires
        old(stream).wf(),
    ensures
        final(stream).wf(),
        final(stream).tokens() == old(stream).tokens(),
        final(stream).pos() >= old(stream).pos(),
        r is Ok ==> final(stream).pos() > old(stream).pos(),
        match spec_group_ref(
            old(stream).tokens(),
            old(stream).pos(),
            (closing_tag.0@, closing_tag.1@),
        ) {
            Ok(res) => r is Ok && final(stream).pos() == res.0 && view_element_type(r->Ok_0)
                == res.1,
            Err(k) => r is Err && r->Err_0.kind() == k,
        },
{
    let _ = main_namespace;
    let (end, acc) = parse_attributes(stream, Prod::GroupRef, closing_tag)?;
    match end {
        ElementEnd::Empty => {},
        _ => {
            return Err(ParseError::UnexpectedToken { tag: tag_owned(closing_tag) });
        },
    }
    match acc.ref_ {
        None => Err(ParseError::MissingRequiredField {
            tag: tag_owned(closing_tag),
            field: String::from_str("ref"),
        }),
        Some(r) => Ok(ElementType::GroupRef(r)),
    }
}

/// An `attributeGroup` reference: self-closing, with a required `ref=`.
pub fn parse_attribute_group_ref(stream: &mut Stream, main_namespace: &str, closing_tag: (
    &str,
    &str,
)) -> (r: Result<String, ParseError>)
    requires
        old(stream).wf(),
    ensures
        final(stream).wf(),
        final(stream).tokens() == old(stream).tokens(),
        final(stream).pos() >= old(stream).pos(),
        r is Ok ==> final(stream).pos() > old(stream).pos(),
        match spec_attribute_group_ref(
            old(stream).tokens(),
            old(stream).pos(),
            (closing_tag.0@, closing_tag.1@),
        ) {
            Ok(res) => r is Ok && final(stream).pos() == res.0 && r->Ok_0@ == res.1,
            Err(k) => r is Err && r->Err_0.kind() == k,
        },
{
    let _ = main_namespace;
    let (end, acc) = parse_attributes(stream, Prod::AttributeGroupRef, closing_tag)?;
    match end {
        ElementEnd::Empty => {},
        _ => {
            return Err(ParseError::UnexpectedToken { tag: tag_owned(closing_tag) });
        },
    }
    match acc.ref_ {
        None => Err(ParseError::MissingRequiredField {
            tag: tag_owned(closing_tag),
            field: String::from_str("ref"),
        }),
        Some(r) => Ok(r),
    }
}

/// The `list` production: self-closing, with a required qualified
/// `itemType=`.
pub fn parse_list(stream: &mut Stream, main_namespace: &str, closing_tag: (&str, &str)) -> (r:
    Result<ElementType, ParseError>)
    requires
        old(stream).wf(),
    ensures
        final(stream).wf(),
        final(stream).tokens() == old(stream).tokens(),
        final(stream).pos() >= old(stream).pos(),
        r is Ok ==> final(stream).pos() > old(stream).pos(),
        match spec_list(old(stream).tokens(), old(stream).pos(), (closing_tag.0@, closing_tag.1@)) {
            Ok(res) => r is Ok && final(stream).pos() == res.0 && view_element_type(r->Ok_0)
                == res.1,
            Err(k) => r is Err && r->Err_0.kind() == k,
        },
{
    let _ = main_namespace;
    let (end, acc) = parse_attributes(stream, Prod::List, closing_tag)?;
    match end {
        ElementEnd::Empty => {},
        _ => {
            return Err(ParseError::UnexpectedToken { tag: tag_owned(closing_tag) });
        },
    }
    match acc.item_type {
        None => Err(ParseError::MissingRequiredField {
            tag: tag_owned(closing_tag),
            field: String::from_str("itemType"),
        }),
        Some(t) => {
            let q = split_id(t.as_str())?;
            Ok(ElementType::List(q))
        },
    }
}

/// The `restriction` production: a required qualified `base=`; its content
/// model is not modeled, so the body is skipped wholesale.
pub fn parse_restriction(stream: &mut Stream, main_namespace: &str, closing_tag: (&str, &str)) -> (r:
    Result<ElementType, ParseError>)
    requires
        old(stream).wf(),
    ensures
        final(stream).wf(),
        final(stream).tokens() == old(stream).tokens(),
        final(stream).pos() >= old(stream).pos(),
        r is Ok ==> final(stream).pos() > old(stream).pos(),
        match spec_restriction(old(stream).tokens(), old(stream).pos(), (closing_tag.0@, closing_tag.1@)) {
            Ok(res) => r is Ok && final(stream).pos() == res.0 && view_element_type(r->Ok_0)
                == res.1,
            Err(k) => r is Err && r->Err_0.kind() == k,
        },
{
    let _ = main_namespace;
    let (end, acc) = parse_attributes(stream, Prod::Restriction, closing_tag)?;
    match end {
        ElementEnd::Open => {},
        _ => {
            return Err(ParseError::UnexpectedToken { tag: tag_owned(closing_tag) });
        },
    }
    eat_block(stream, closing_tag)?;
    match acc.base {
        None => Err(ParseError::MissingRequiredField {
            tag: tag_owned(closing_tag),
            field: String::from_str("base"),
        }),
        Some(b) => {
            let q = split_id(b.as_str())?;
            Ok(ElementType::Custom(q.0, q.1))
        },
    }
}

/// The member loop shared by `sequence`, `choice` and an open `union`.
pub fn parse_elements(stream: &mut Stream, main_namespace: &str, closing_tag: (&str, &str)) -> (r:
    Result<Vec<Element>, ParseError>)
    requires
        old(stream).wf(),
    ensures
        final(stream).wf(),
        final(stream).tokens() == old(stream).tokens(),
        final(stream).pos() >= old(stream).pos(),
        r is Ok ==> final(stream).pos() > old(stream).pos(),
        match spec_elements_children(old(stream).tokens(), old(stream).pos(), main_namespace@, (closing_tag.0@, closing_tag.1@), Seq::empty()) {
            Ok(res) => r is Ok && final(stream).pos() == res.0 && view_elements(r->Ok_0@) == res.1,
            Err(k) => r is Err && r->Err_0.kind() == k,
        },
    decreases old(stream).tokens().len() - old(stream).pos(),
{
    let ghost toks = old(stream).tokens();
    let ghost p0 = old(stream).pos();
    let ghost mv = main_namespace@;
    let ghost tagv = (closing_tag.0@, closing_tag.1@);
    let mut items: Vec<Element> = Vec::new();
    proof {
        assert(view_elements(items@) =~= Seq::<crate::model::ElementV>::empty());
    }
    loop
        invariant
            stream.wf(),
            toks == old(stream).tokens(),
            p0 == old(stream).pos(),
            mv == main_namespace@,
            tagv == (closing_tag.0@, closing_tag.1@),
            stream.tokens() == toks,
            p0 <= stream.pos() <= toks.len(),
            spec_elements_children(toks, stream.pos(), mv, tagv, view_elements(items@))
                == spec_elements_children(toks, p0, mv, tagv, Seq::empty()),
        decreases toks.len() - stream.pos(),
    {
        let ghost pos_it = stream.pos();
        match stream.next() {
            None => {
                return Err(ParseError::UnexpectedToken { tag: tag_owned(closing_tag) });
            },
            Some(tok) => match tok {
                Token::Whitespace(_) => {},
                Token::Comment(_) => {},
                Token::ElementEnd(e) => match e {
                    ElementEnd::Close(p, l) => {
                        if str_eq(p.as_str(), closing_tag.0) && str_eq(l.as_str(), closing_tag.1) {
                            return Ok(items);
                        } else {
                            return Err(ParseError::UnexpectedToken { tag: tag_owned(closing_tag) });
                        }
                    },
                    _ => {
                        return Err(ParseError::UnexpectedToken { tag: tag_owned(closing_tag) });
                    },
                },
                Token::ElementStart(p, l) => {
                    if !str_eq(p.as_str(), main_namespace) {
                        return Err(ParseError::UnknownElement {
                            tag: tag_owned(closing_tag),
                            element: (p, l),
                        });
                    }
                    if str_eq(l.as_str(), "element") {
                        let ev = parse_element(stream, main_namespace, (p.as_str(), l.as_str()))?;
                        let ghost eg = ev;
                        let ghost ipre = items@;
                        items.push(ev);
                        proof {
                            lemma_view_elements_snoc(ipre, eg);
                        }
                    } else if str_eq(l.as_str(), "group") {
                        let tv = parse_group_ref(stream, main_namespace, (p.as_str(), l.as_str()))?;
                        let ev = Element { name: None, attrs: Vec::new(), type_: tv };
                        let ghost eg = ev;
                        let ghost ipre = items@;
                        items.push(ev);
                        proof {
                            lemma_view_elements_snoc(ipre, eg);
                            assert(view_attrs(eg.attrs@) =~= Seq::<crate::model::AttributeV>::empty());
                        }
                    } else if str_eq(l.as_str(), "simpleType") {
                        let nad = parse_simple_type(stream, main_namespace, (p.as_str(), l.as_str()))?;
                        let ev = Element { name: nad.0, attrs: nad.1, type_: nad.2 };
                        let ghost eg = ev;
                        let ghost ipre = items@;
                        items.push(ev);
                        proof {
                            lemma_view_elements_snoc(ipre, eg);
                        }
                    } else if str_eq(l.as_str(), "sequence") {
                        let tv = parse_sequence(stream, main_namespace, (p.as_str(), l.as_str()))?;
                        let ev = Element { name: None, attrs: Vec::new(), type_: tv };
                        let ghost eg = ev;
                        let ghost ipre = items@;
                        items.push(ev);
                        proof {
                            lemma_view_elements_snoc(ipre, eg);
                            assert(view_attrs(eg.attrs@) =~= Seq::<crate::model::AttributeV>::empty());
                        }
                    } else if str_eq(l.as_str(), "choice") {
                        let tv = parse_choice(stream, main_namespace, (p.as_str(), l.as_str()))?;
                        let ev = Element { name: None, attrs: Vec::new(), type_: tv };
                        let ghost eg = ev;
                        let ghost ipre = items@;
                        items.push(ev);
                        proof {
                            lemma_view_elements_snoc(ipre, eg);
                            assert(view_attrs(eg.attrs@) =~= Seq::<crate::model::AttributeV>::empty());
                        }
                    } else if str_eq(l.as_str(), "extension") {
                        let tv = parse_extension(stream, main_namespace, (p.as_str(), l.as_str()))?;
                        let ev = Element { name: None, attrs: Vec::new(), type_: tv };
                        let ghost eg = ev;
                        let ghost ipre = items@;
                        items.push(ev);
                        proof {
                            lemma_view_elements_snoc(ipre, eg);
                            assert(view_attrs(eg.attrs@) =~= Seq::<crate::model::AttributeV>::empty());
                        }
                    } else if str_eq(l.as_str(), "annotation") {
                        parse_annotation(stream, main_namespace, (p.as_str(), l.as_str()))?;
                    } else {
                        return Err(ParseError::UnknownElement {
                            tag: tag_owned(closing_tag),
                            element: (p, l),
                        });
                    }
                },
                _ => {
                    return Err(ParseError::UnexpectedToken { tag: tag_owned(closing_tag) });
                },
            },
        }
    }
}

/// The `sequence` production.
pub fn parse_sequence(stream: &mut Stream, main_namespace: &str, closing_tag: (&str, &str)) -> (r:
    Result<ElementType, ParseError>)
    requires
        old(stream).wf(),
    ensures
        final(stream).wf(),
        final(stream).tokens() == old(stream).tokens(),
        final(stream).pos() >= old(stream).pos(),
        r is Ok ==> final(stream).pos() > old(stream).pos(),
        match spec_sequence(old(stream).tokens(), old(stream).pos(), main_namespace@, (closing_tag.0@, closing_tag.1@)) {
            Ok(res) => r is Ok && final(stream).pos() == res.0 && view_element_type(r->Ok_0) == res.1,
            Err(k) => r is Err && r->Err_0.kind() == k,
        },
    decreases old(stream).tokens().len() - old(stream).pos(),
{
    let (end, _acc) = parse_attributes(stream, Prod::Sequence, closing_tag)?;
    match end {
        ElementEnd::Open => {},
        _ => {
            return Err(ParseError::UnexpectedToken { tag: tag_owned(closing_tag) });
        },
    }
    let items = parse_elements(stream, main_namespace, closing_tag)?;
    Ok(ElementType::Sequence(items))
}

/// The `choice` production.
pub fn parse_choice(stream: &mut Stream, main_namespace: &str, closing_tag: (&str, &str)) -> (r:
    Result<ElementType, ParseError>)
    requires
        old(stream).wf(),
    ensures
        final(stream).wf(),
        final(stream).tokens() == old(stream).tokens(),
        final(stream).pos() >= old(stream).pos(),
        r is Ok ==> final(stream).pos() > old(stream).pos(),
        match spec_choice(old(stream).tokens(), old(stream).pos(), main_namespace@, (closing_tag.0@, closing_tag.1@)) {
            Ok(res) => r is Ok && final(stream).pos() == res.0 && view_element_type(r->Ok_0) == res.1,
            Err(k) => r is Err && r->Err_0.kind() == k,
        },
    decreases old(stream).tokens().len() - old(stream).pos(),
{
    let (end, _acc) = parse_attributes(stream, Prod::Choice, closing_tag)?;
    match end {
        ElementEnd::Open => {},
        _ => {
            return Err(ParseError::UnexpectedToken { tag: tag_owned(closing_tag) });
        },
    }
    let items = parse_elements(stream, main_namespace, closing_tag)?;
    Ok(ElementType::Choice(items))
}

/// The `extension` production: a required qualified `base=` and the shared
/// body rule, its model group child optional.
pub fn parse_extension(stream: &mut Stream, main_namespace: &str, closing_tag: (&str, &str)) -> (r:
    Result<ElementType, ParseError>)
    requires
        old(stream).wf(),
    ensures
        final(stream).wf(),
        final(stream).tokens() == old(stream).tokens(),
        final(stream).pos() >= old(stream).pos(),
        r is Ok ==> final(stream).pos() > old(stream).pos(),
        match spec_extension(old(stream).tokens(), old(stream).pos(), main_namespace@, (closing_tag.0@, closing_tag.1@)) {
            Ok(res) => r is Ok && final(stream).pos() == res.0 && view_element_type(r->Ok_0) == res.1,
            Err(k) => r is Err && r->Err_0.kind() == k,
        },
    decreases old(stream).tokens().len() - old(stream).pos(),
{
    let (end, acc) = parse_attributes(stream, Prod::Extension, closing_tag)?;
    match end {
        ElementEnd::Open => {},
        _ => {
            return Err(ParseError::UnexpectedToken { tag: tag_owned(closing_tag) });
        },
    }
    let sub = parse_subtype(stream, main_namespace, closing_tag)?;
    match acc.base {
        None => Err(ParseError::MissingRequiredField {
            tag: tag_owned(closing_tag),
            field: String::from_str("base"),
        }),
        Some(b) => {
            let q = split_id(b.as_str())?;
            let inner = match sub.1 {
                None => None,
                Some(t) => Some(Box::new(t)),
            };
            Ok(ElementType::Extension(q, sub.0, inner))
        },
    }
}

/// The `complexContent` production: no attributes of its own and exactly
/// one `restriction` or `extension` child.
pub fn parse_complex_content(stream: &mut Stream, main_namespace: &str, closing_tag: (&str, &str)) -> (r:
    Result<ElementType, ParseError>)
    requires
        old(stream).wf(),
    ensures
        final(stream).wf(),
        final(stream).tokens() == old(stream).tokens(),
        final(stream).pos() >= old(stream).pos(),
        r is Ok ==> final(stream).pos() > old(stream).pos(),
        match spec_complex_content(old(stream).tokens(), old(stream).pos(), main_namespace@, (closing_tag.0@, closing_tag.1@)) {
            Ok(res) => r is Ok && final(stream).pos() == res.0 && view_element_type(r->Ok_0) == res.1,
            Err(k) => r is Err && r->Err_0.kind() == k,
        },
    decreases old(stream).tokens().len() - old(stream).pos(),
{
    let ghost toks = old(stream).tokens();
    let ghost p0 = old(stream).pos();
    let ghost mv = main_namespace@;
    let ghost tagv = (closing_tag.0@, closing_tag.1@);
    let (end, _acc) = parse_attributes(stream, Prod::ComplexContent, closing_tag)?;
    match end {
        ElementEnd::Open => {},
        _ => {
            return Err(ParseError::UnexpectedToken { tag: tag_owned(closing_tag) });
        },
    }
    let mut ty: Option<ElementType> = None;
    loop
        invariant
            stream.wf(),
            toks == old(stream).tokens(),
            p0 == old(stream).pos(),
            mv == main_namespace@,
            tagv == (closing_tag.0@, closing_tag.1@),
            stream.tokens() == toks,
            p0 < stream.pos() <= toks.len(),
            spec_complex_content(toks, p0, mv, tagv) == (match spec_complex_content_children(
                toks,
                stream.pos(),
                mv,
                tagv,
                view_opt_type(ty),
            ) {
                Err(k) => Err(k),
                Ok(res2) => match res2.1 {
                    Some(t) => Ok((res2.0, t)),
                    None => Err(crate::errors::ErrorKind::MissingRequiredField),
                },
            }),
        decreases toks.len() - stream.pos(),
    {
        let ghost pos_it = stream.pos();
        match stream.next() {
            None => {
                return Err(ParseError::UnexpectedToken { tag: tag_owned(closing_tag) });
            },
            Some(tok) => match tok {
                Token::Whitespace(_) => {},
                Token::Comment(_) => {},
                Token::ElementEnd(e) => match e {
                    ElementEnd::Close(p, l) => {
                        if str_eq(p.as_str(), closing_tag.0) && str_eq(l.as_str(), closing_tag.1) {
                            match ty {
                                Some(t) => {
                                    return Ok(t);
                                },
                                None => {
                                    return Err(ParseError::MissingRequiredField {
                                        tag: tag_owned(closing_tag),
                                        field: String::from_str("content"),
                                    });
                                },
                            }
                        } else {
                            return Err(ParseError::UnexpectedToken { tag: tag_owned(closing_tag) });
                        }
                    },
                    _ => {
                        return Err(ParseError::UnexpectedToken { tag: tag_owned(closing_tag) });
                    },
                },
                Token::ElementStart(p, l) => {
                    if !str_eq(p.as_str(), main_namespace) {
                        return Err(ParseError::UnknownElement {
                            tag: tag_owned(closing_tag),
                            element: (p, l),
                        });
                    }
                    if str_eq(l.as_str(), "restriction") {
                        if ty.is_some() {
                            return Err(ParseError::ConflictingDefinition {
                                tag: tag_owned(closing_tag),
                            });
                        }
                        let tv = parse_restriction(stream, main_namespace, (p.as_str(), l.as_str()))?;
                        ty = Some(tv);
                    } else if str_eq(l.as_str(), "extension") {
                        if ty.is_some() {
                            return Err(ParseError::ConflictingDefinition {
                                tag: tag_owned(closing_tag),
                            });
                        }
                        let tv = parse_extension(stream, main_namespace, (p.as_str(), l.as_str()))?;
                        ty = Some(tv);
                    } else {
                        return Err(ParseError::UnknownElement {
                            tag: tag_owned(closing_tag),
                            element: (p, l),
                        });
                    }
                },
                _ => {
                    return Err(ParseError::UnexpectedToken { tag: tag_owned(closing_tag) });
                },
            },
        }
    }
}

/// The `attribute` declaration production.
pub fn parse_attribute(stream: &mut Stream, main_namespace: &str, closing_tag: (&str, &str)) -> (r:
    Result<Attribute, ParseError>)
    requires
        old(stream).wf(),
    ensures
        final(stream).wf(),
        final(stream).tokens() == old(stream).tokens(),
        final(stream).pos() >= old(stream).pos(),
        r is Ok ==> final(stream).pos() > old(stream).pos(),
        match spec_attribute(old(stream).tokens(), old(stream).pos(), main_namespace@, (closing_tag.0@, closing_tag.1@)) {
            Ok(res) => r is Ok && final(stream).pos() == res.0 && crate::model::view_attr(r->Ok_0) == res.1,
            Err(k) => r is Err && r->Err_0.kind() == k,
        },
    decreases old(stream).tokens().len() - old(stream).pos(),
{
    let (end, acc) = parse_attributes(stream, Prod::AttributeDecl, closing_tag)?;
    match end {
        ElementEnd::Empty => {
            match acc.ref_ {
                Some(r) => {
                    if acc.name.is_some() || acc.type_attr.is_some() {
                        return Err(ParseError::ConflictingDefinition { tag: tag_owned(closing_tag) });
                    }
                    Ok(Attribute::Ref(r))
                },
                None => {
                    match (acc.name, acc.type_attr) {
                        (Some(nm), Some(t)) => Ok(Attribute::SmallDef {
                            name: nm,
                            type_: t,
                            default: acc.default,
                        }),
                        _ => Err(ParseError::MissingRequiredField {
                            tag: tag_owned(closing_tag),
                            field: String::from_str("name"),
                        }),
                    }
                },
            }
        },
        ElementEnd::Open => {
            match acc.ref_ {
                Some(_) => Err(ParseError::ConflictingDefinition { tag: tag_owned(closing_tag) }),
                None => match acc.name {
                    None => Err(ParseError::MissingRequiredField {
                        tag: tag_owned(closing_tag),
                        field: String::from_str("name"),
                    }),
                    Some(nm) => {
                        if acc.type_attr.is_some() {
                            return Err(ParseError::ConflictingDefinition {
                                tag: tag_owned(closing_tag),
                            });
                        }
                        let sub = parse_subelement(stream, main_namespace, closing_tag)?;
                        match (sub.0, sub.1) {
                            (Some(t), Some(ats)) => Ok(Attribute::LongDef {
                                name: nm,
                                default: acc.default,
                                inner: Element { name: None, attrs: ats, type_: t },
                            }),
                            _ => Err(ParseError::MissingRequiredField {
                                tag: tag_owned(closing_tag),
                                field: String::from_str("type"),
                            }),
                        }
                    },
                },
            }
        },
        ElementEnd::Close(_, _) => Err(ParseError::UnexpectedToken { tag: tag_owned(closing_tag) }),
    }
}

/// The body of an open `element` or `attribute`: at most one inline type
/// definition supplies the type and attribute list.
pub fn parse_subelement(stream: &mut Stream, main_namespace: &str, closing_tag: (&str, &str)) -> (r:
    Result<(Option<ElementType>, Option<Vec<Attribute>>), ParseError>)
    requires
        old(stream).wf(),
    ensures
        final(stream).wf(),
        final(stream).tokens() == old(stream).tokens(),
        final(stream).pos() >= old(stream).pos(),
        r is Ok ==> final(stream).pos() > old(stream).pos(),
        match spec_subelement_children(old(stream).tokens(), old(stream).pos(), main_namespace@, (closing_tag.0@, closing_tag.1@), None, None) {
            Ok(res) => r is Ok && final(stream).pos() == res.0 && view_opt_type(r->Ok_0.0) == res.1.0
                && view_opt_attrs(r->Ok_0.1) == res.1.1,
            Err(k) => r is Err && r->Err_0.kind() == k,
        },
    decreases old(stream).tokens().len() - old(stream).pos(),
{
    let ghost toks = old(stream).tokens();
    let ghost p0 = old(stream).pos();
    let ghost mv = main_namespace@;
    let ghost tagv = (closing_tag.0@, closing_tag.1@);
    let mut ty: Option<ElementType> = None;
    let mut ats: Option<Vec<Attribute>> = None;
    loop
        invariant
            stream.wf(),
            toks == old(stream).tokens(),
            p0 == old(stream).pos(),
            mv == main_namespace@,
            tagv == (closing_tag.0@, closing_tag.1@),
            stream.tokens() == toks,
            p0 <= stream.pos() <= toks.len(),
            spec_subelement_children(toks, stream.pos(), mv, tagv, view_opt_type(ty), view_opt_attrs(ats))
                == spec_subelement_children(toks, p0, mv, tagv, None, None),
        decreases toks.len() - stream.pos(),
    {
        let ghost pos_it = stream.pos();
        match stream.next() {
            None => {
                return Err(ParseError::UnexpectedToken { tag: tag_owned(closing_tag) });
            },
            Some(tok) => match tok {
                Token::Whitespace(_) => {},
                Token::Comment(_) => {},
                Token::ElementEnd(e) => match e {
                    ElementEnd::Close(p, l) => {
                        if str_eq(p.as_str(), closing_tag.0) && str_eq(l.as_str(), closing_tag.1) {
                            return Ok((ty, ats));
                        } else {
                            return Err(ParseError::UnexpectedToken { tag: tag_owned(closing_tag) });
                        }
                    },
                    _ => {
                        return Err(ParseError::UnexpectedToken { tag: tag_owned(closing_tag) });
                    },
                },
                Token::ElementStart(p, l) => {
                    if !str_eq(p.as_str(), main_namespace) {
                        return Err(ParseError::UnknownElement {
                            tag: tag_owned(closing_tag),
                            element: (p, l),
                        });
                    }
                    if str_eq(l.as_str(), "complexType") {
                        if ty.is_some() || ats.is_some() {
                            return Err(ParseError::ConflictingDefinition {
                                tag: tag_owned(closing_tag),
                            });
                        }
                        let nad = parse_complex_type(stream, main_namespace, (p.as_str(), l.as_str()))?;
                        if nad.0.is_some() {
                            return Err(ParseError::ConflictingDefinition {
                                tag: tag_owned(closing_tag),
                            });
                        }
                        ty = Some(nad.2);
                        ats = Some(nad.1);
                    } else if str_eq(l.as_str(), "simpleType") {
                        if ty.is_some() || ats.is_some() {
                            return Err(ParseError::ConflictingDefinition {
                                tag: tag_owned(closing_tag),
                            });
                        }
                        let nad = parse_simple_type(stream, main_namespace, (p.as_str(), l.as_str()))?;
                        if nad.0.is_some() {
                            return Err(ParseError::ConflictingDefinition {
                                tag: tag_owned(closing_tag),
                            });
                        }
                        ty = Some(nad.2);
                        ats = Some(nad.1);
                    } else if str_eq(l.as_str(), "annotation") || str_eq(l.as_str(), "key") {
                        eat_block(stream, (p.as_str(), l.as_str()))?;
                    } else {
                        return Err(ParseError::UnknownElement {
                            tag: tag_owned(closing_tag),
                            element: (p, l),
                        });
                    }
                },
                _ => {
                    return Err(ParseError::UnexpectedToken { tag: tag_owned(closing_tag) });
                },
            },
        }
    }
}

/// The body shared by `complexType`, `group`, `attributeGroup` and
/// `extension`: at most one model group child plus attribute declarations.
pub fn parse_subtype(stream: &mut Stream, main_namespace: &str, closing_tag: (&str, &str)) -> (r:
    Result<(Vec<Attribute>, Option<ElementType>), ParseError>)
    requires
        old(stream).wf(),
    ensures
        final(stream).wf(),
        final(stream).tokens() == old(stream).tokens(),
        final(stream).pos() >= old(stream).pos(),
        r is Ok ==> final(stream).pos() > old(stream).pos(),
        match spec_subtype_children(old(stream).tokens(), old(stream).pos(), main_namespace@, (closing_tag.0@, closing_tag.1@), None, Seq::empty()) {
            Ok(res) => r is Ok && final(stream).pos() == res.0 && view_attrs(r->Ok_0.0@) == res.1.0
                && view_opt_type(r->Ok_0.1) == res.1.1,
            Err(k) => r is Err && r->Err_0.kind() == k,
        },
    decreases old(stream).tokens().len() - old(stream).pos(),
{
    let ghost toks = old(stream).tokens();
    let ghost p0 = old(stream).pos();
    let ghost mv = main_namespace@;
    let ghost tagv = (closing_tag.0@, closing_tag.1@);
    let mut inner: Option<ElementType> = None;
    let mut attributes: Vec<Attribute> = Vec::new();
    proof {
        assert(view_attrs(attributes@) =~= Seq::<crate::model::AttributeV>::empty());
    }
    loop
        invariant
            stream.wf(),
            toks == old(stream).tokens(),
            p0 == old(stream).pos(),
            mv == main_namespace@,
            tagv == (closing_tag.0@, closing_tag.1@),
            stream.tokens() == toks,
            p0 <= stream.pos() <= toks.len(),
            spec_subtype_children(toks, stream.pos(), mv, tagv, view_opt_type(inner), view_attrs(attributes@))
                == spec_subtype_children(toks, p0, mv, tagv, None, Seq::empty()),
        decreases toks.len() - stream.pos(),
    {
        let ghost pos_it = stream.pos();
        match stream.next() {
            None => {
                return Err(ParseError::UnexpectedToken { tag: tag_owned(closing_tag) });
            },
            Some(tok) => match tok {
                Token::Whitespace(_) => {},
                Token::Comment(_) => {},
                Token::ElementEnd(e) => match e {
                    ElementEnd::Close(p, l) => {
                        if str_eq(p.as_str(), closing_tag.0) && str_eq(l.as_str(), closing_tag.1) {
                            return Ok((attributes, inner));
                        } else {
                            return Err(ParseError::UnexpectedToken { tag: tag_owned(closing_tag) });
                        }
                    },
                    _ => {
                        return Err(ParseError::UnexpectedToken { tag: tag_owned(closing_tag) });
                    },
                },
                Token::ElementStart(p, l) => {
                    if !str_eq(p.as_str(), main_namespace) {
                        return Err(ParseError::UnknownElement {
                            tag: tag_owned(closing_tag),
                            element: (p, l),
                        });
                    }
                    if str_eq(l.as_str(), "annotation") {
                        parse_annotation(stream, main_namespace, (p.as_str(), l.as_str()))?;
                    } else if str_eq(l.as_str(), "sequence") {
                        if inner.is_some() {
                            return Err(ParseError::ConflictingDefinition {
                                tag: tag_owned(closing_tag),
                            });
                        }
                        let tv = parse_sequence(stream, main_namespace, (p.as_str(), l.as_str()))?;
                        inner = Some(tv);
                    } else if str_eq(l.as_str(), "choice") {
                        if inner.is_some() {
                            return Err(ParseError::ConflictingDefinition {
                                tag: tag_owned(closing_tag),
                            });
                        }
                        let tv = parse_choice(stream, main_namespace, (p.as_str(), l.as_str()))?;
                        inner = Some(tv);
                    } else if str_eq(l.as_str(), "group") {
                        if inner.is_some() {
                            return Err(ParseError::ConflictingDefinition {
                                tag: tag_owned(closing_tag),
                            });
                        }
                        let tv = parse_group_ref(stream, main_namespace, (p.as_str(), l.as_str()))?;
                        inner = Some(tv);
                    } else if str_eq(l.as_str(), "attributeGroup") {
                        let rf = parse_attribute_group_ref(stream, main_namespace, (p.as_str(), l.as_str()))?;
                        let av = Attribute::GroupRef(rf);
                        let ghost ag = av;
                        let ghost apre = attributes@;
                        attributes.push(av);
                        proof {
                            lemma_view_attrs_snoc(apre, ag);
                        }
                    } else if str_eq(l.as_str(), "complexContent") {
                        if inner.is_some() {
                            return Err(ParseError::ConflictingDefinition {
                                tag: tag_owned(closing_tag),
                            });
                        }
                        let tv = parse_complex_content(stream, main_namespace, (p.as_str(), l.as_str()))?;
                        inner = Some(tv);
                    } else if str_eq(l.as_str(), "attribute") {
                        let av = parse_attribute(stream, main_namespace, (p.as_str(), l.as_str()))?;
                        let ghost ag = av;
                        let ghost apre = attributes@;
                        attributes.push(av);
                        proof {
                            lemma_view_attrs_snoc(apre, ag);
                        }
                    } else {
                        return Err(ParseError::UnknownElement {
                            tag: tag_owned(closing_tag),
                            element: (p, l),
                        });
                    }
                },
                _ => {
                    return Err(ParseError::UnexpectedToken { tag: tag_owned(closing_tag) });
                },
            },
        }
    }
}

/// The `complexType` production: an optional `name=` and the shared body
/// rule, whose model group child is required.
pub fn parse_complex_type(stream: &mut Stream, main_namespace: &str, closing_tag: (&str, &str)) -> (r:
    Result<(Option<String>, Vec<Attribute>, ElementType), ParseError>)
    requires
        old(stream).wf(),
    ensures
        final(stream).wf(),
        final(stream).tokens() == old(stream).tokens(),
        final(stream).pos() >= old(stream).pos(),
        r is Ok ==> final(stream).pos() > old(stream).pos(),
        match spec_complex_type(old(stream).tokens(), old(stream).pos(), main_namespace@, (closing_tag.0@, closing_tag.1@)) {
            Ok(res) => r is Ok && final(stream).pos() == res.0
                && crate::text::opt_view(r->Ok_0.0) == res.1.0
                && view_attrs(r->Ok_0.1@) == res.1.1
                && view_element_type(r->Ok_0.2) == res.1.2,
            Err(k) => r is Err && r->Err_0.kind() == k,
        },
    decreases old(stream).tokens().len() - old(stream).pos(),
{
    let (end, acc) = parse_attributes(stream, Prod::ComplexType, closing_tag)?;
    match end {
        ElementEnd::Open => {},
        _ => {
            return Err(ParseError::UnexpectedToken { tag: tag_owned(closing_tag) });
        },
    }
    let sub = parse_subtype(stream, main_namespace, closing_tag)?;
    match sub.1 {
        Some(t) => Ok((acc.name, sub.0, t)),
        None => Err(ParseError::MissingRequiredField {
            tag: tag_owned(closing_tag),
            field: String::from_str("content"),
        }),
    }
}

/// The `simpleType` production: an optional `name=`, exactly one of
/// `restriction`, `union` or `list`, plus attribute declarations.
pub fn parse_simple_type(stream: &mut Stream, main_namespace: &str, closing_tag: (&str, &str)) -> (r:
    Result<(Option<String>, Vec<Attribute>, ElementType), ParseError>)
    requires
        old(stream).wf(),
    ensures
        final(stream).wf(),
        final(stream).tokens() == old(stream).tokens(),
        final(stream).pos() >= old(stream).pos(),
        r is Ok ==> final(stream).pos() > old(stream).pos(),
        match spec_simple_type(old(stream).tokens(), old(stream).pos(), main_namespace@, (closing_tag.0@, closing_tag.1@)) {
            Ok(res) => r is Ok && final(stream).pos() == res.0
                && crate::text::opt_view(r->Ok_0.0) == res.1.0
                && view_attrs(r->Ok_0.1@) == res.1.1
                && view_element_type(r->Ok_0.2) == res.1.2,
            Err(k) => r is Err && r->Err_0.kind() == k,
        },
    decreases old(stream).tokens().len() - old(stream).pos(),
{
    let ghost toks = old(stream).tokens();
    let ghost p0 = old(stream).pos();
    let ghost mv = main_namespace@;
    let ghost tagv = (closing_tag.0@, closing_tag.1@);
    let (end, acc) = parse_attributes(stream, Prod::SimpleType, closing_tag)?;
    match end {
        ElementEnd::Open => {},
        _ => {
            return Err(ParseError::UnexpectedToken { tag: tag_owned(closing_tag) });
        },
    }
    let name_attr: Option<String> = acc.name;
    let mut ty: Option<ElementType> = None;
    let mut attributes: Vec<Attribute> = Vec::new();
    proof {
        assert(view_attrs(attributes@) =~= Seq::<crate::model::AttributeV>::empty());
    }
    loop
        invariant
            stream.wf(),
            toks == old(stream).tokens(),
            p0 == old(stream).pos(),
            mv == main_namespace@,
            tagv == (closing_tag.0@, closing_tag.1@),
            stream.tokens() == toks,
            p0 < stream.pos() <= toks.len(),
            spec_simple_type(toks, p0, mv, tagv) == (match spec_simple_type_children(
                toks,
                stream.pos(),
                mv,
                tagv,
                view_opt_type(ty),
                view_attrs(attributes@),
            ) {
                Err(k) => Err(k),
                Ok(res2) => match res2.1.0 {
                    Some(t) => Ok((res2.0, (crate::text::opt_view(name_attr), res2.1.1, t))),
                    None => Err(crate::errors::ErrorKind::MissingRequiredField),
                },
            }),
        decreases toks.len() - stream.pos(),
    {
        let ghost pos_it = stream.pos();
        match stream.next() {
            None => {
                return Err(ParseError::UnexpectedToken { tag: tag_owned(closing_tag) });
            },
            Some(tok) => match tok {
                Token::Whitespace(_) => {},
                Token::Comment(_) => {},
                Token::ElementEnd(e) => match e {
                    ElementEnd::Close(p, l) => {
                        if str_eq(p.as_str(), closing_tag.0) && str_eq(l.as_str(), closing_tag.1) {
                            match ty {
                                Some(t) => {
                                    return Ok((name_attr, attributes, t));
                                },
                                None => {
                                    return Err(ParseError::MissingRequiredField {
                                        tag: tag_owned(closing_tag),
                                        field: String::from_str("content"),
                                    });
                                },
                            }
                        } else {
                            return Err(ParseError::UnexpectedToken { tag: tag_owned(closing_tag) });
                        }
                    },
                    _ => {
                        return Err(ParseError::UnexpectedToken { tag: tag_owned(closing_tag) });
                    },
                },
                Token::ElementStart(p, l) => {
                    if !str_eq(p.as_str(), main_namespace) {
                        return Err(ParseError::UnknownElement {
                            tag: tag_owned(closing_tag),
                            element: (p, l),
                        });
                    }
                    if str_eq(l.as_str(), "restriction") {
                        if ty.is_some() {
                            return Err(ParseError::ConflictingDefinition {
                                tag: tag_owned(closing_tag),
                            });
                        }
                        let tv = parse_restriction(stream, main_namespace, (p.as_str(), l.as_str()))?;
                        ty = Some(tv);
                    } else if str_eq(l.as_str(), "union") {
                        if ty.is_some() {
                            return Err(ParseError::ConflictingDefinition {
                                tag: tag_owned(closing_tag),
                            });
                        }
                        let tv = parse_union(stream, main_namespace, (p.as_str(), l.as_str()))?;
                        ty = Some(tv);
                    } else if str_eq(l.as_str(), "list") {
                        if ty.is_some() {
                            return Err(ParseError::ConflictingDefinition {
                                tag: tag_owned(closing_tag),
                            });
                        }
                        let tv = parse_list(stream, main_namespace, (p.as_str(), l.as_str()))?;
                        ty = Some(tv);
                    } else if str_eq(l.as_str(), "attribute") {
                        let av = parse_attribute(stream, main_namespace, (p.as_str(), l.as_str()))?;
                        let ghost ag = av;
                        let ghost apre = attributes@;
                        attributes.push(av);
                        proof {
                            lemma_view_attrs_snoc(apre, ag);
                        }
                    } else if str_eq(l.as_str(), "annotation") {
                        parse_annotation(stream, main_namespace, (p.as_str(), l.as_str()))?;
                    } else {
                        return Err(ParseError::UnknownElement {
                            tag: tag_owned(closing_tag),
                            element: (p, l),
                        });
                    }
                },
                _ => {
                    return Err(ParseError::UnexpectedToken { tag: tag_owned(closing_tag) });
                },
            },
        }
    }
}

/// The `union` production: an optional `memberTypes=` list and, for an open
/// body, inline member definitions; the two forms may combine.
pub fn parse_union(stream: &mut Stream, main_namespace: &str, closing_tag: (&str, &str)) -> (r:
    Result<ElementType, ParseError>)
    requires
        old(stream).wf(),
    ensures
        final(stream).wf(),
        final(stream).tokens() == old(stream).tokens(),
        final(stream).pos() >= old(stream).pos(),
        r is Ok ==> final(stream).pos() > old(stream).pos(),
        match spec_union(old(stream).tokens(), old(stream).pos(), main_namespace@, (closing_tag.0@, closing_tag.1@)) {
            Ok(res) => r is Ok && final(stream).pos() == res.0 && view_element_type(r->Ok_0) == res.1,
            Err(k) => r is Err && r->Err_0.kind() == k,
        },
    decreases old(stream).tokens().len() - old(stream).pos(),
{
    let (end, acc) = parse_attributes(stream, Prod::Union, closing_tag)?;
    let items: Option<Vec<Element>> = match end {
        ElementEnd::Empty => None,
        ElementEnd::Open => {
            let its = parse_elements(stream, main_namespace, closing_tag)?;
            Some(its)
        },
        ElementEnd::Close(_, _) => {
            return Err(ParseError::UnexpectedToken { tag: tag_owned(closing_tag) });
        },
    };
    match acc.member_types {
        None => Ok(ElementType::Union(None, items)),
        Some(s) => {
            let ms = parse_member_list(s.as_str())?;
            Ok(ElementType::Union(Some(ms), items))
        },
    }
}

/// The `element` production. A self-closing element needs its name and its
/// type from `type=` or `ref=`; an open element takes both from exactly one
/// inline type child. With `ref=`, the name mirrors the reference.
pub fn parse_element(stream: &mut Stream, main_namespace: &str, closing_tag: (&str, &str)) -> (r:
    Result<Element, ParseError>)
    requires
        old(stream).wf(),
    ensures
        final(stream).wf(),
        final(stream).tokens() == old(stream).tokens(),
        final(stream).pos() >= old(stream).pos(),
        r is Ok ==> final(stream).pos() > old(stream).pos(),
        match spec_element(old(stream).tokens(), old(stream).pos(), main_namespace@, (closing_tag.0@, closing_tag.1@)) {
            Ok(res) => r is Ok && final(stream).pos() == res.0 && view_element(r->Ok_0) == res.1,
            Err(k) => r is Err && r->Err_0.kind() == k,
        },
    decreases old(stream).tokens().len() - old(stream).pos(),
{
    let (end, acc) = parse_attributes(stream, Prod::Element, closing_tag)?;
    let typed: Option<ElementType> = match acc.type_attr {
        None => None,
        Some(t) => {
            let q = split_id(t.as_str())?;
            if str_eq(q.1.as_str(), "string") {
                Some(ElementType::String)
            } else if str_eq(q.1.as_str(), "date") {
                Some(ElementType::Date)
            } else {
                Some(ElementType::Custom(q.0, q.1))
            }
        },
    };
    let type0: Option<ElementType>;
    let name0: Option<String>;
    match acc.ref_ {
        Some(rf) => {
            type0 = Some(ElementType::Ref(rf.clone()));
            name0 = Some(rf);
        },
        None => {
            type0 = typed;
            name0 = acc.name;
        },
    }
    match end {
        ElementEnd::Empty => {
            match (name0, type0) {
                (Some(nm), Some(t)) => Ok(Element { name: Some(nm), attrs: Vec::new(), type_: t }),
                _ => Err(ParseError::MissingRequiredField {
                    tag: tag_owned(closing_tag),
                    field: String::from_str("name"),
                }),
            }
        },
        ElementEnd::Open => {
            if type0.is_some() {
                return Err(ParseError::ConflictingDefinition { tag: tag_owned(closing_tag) });
            }
            let sub = parse_subelement(stream, main_namespace, closing_tag)?;
            match (sub.0, sub.1) {
                (Some(t), Some(ats)) => match name0 {
                    Some(nm) => Ok(Element { name: Some(nm), attrs: ats, type_: t }),
                    None => Err(ParseError::MissingRequiredField {
                        tag: tag_owned(closing_tag),
                        field: String::from_str("name"),
                    }),
                },
                _ => Err(ParseError::MissingRequiredField {
                    tag: tag_owned(closing_tag),
                    field: String::from_str("type"),
                }),
            }
        },
        ElementEnd::Close(_, _) => Err(ParseError::UnexpectedToken { tag: tag_owned(closing_tag) }),
    }
}


/// A named `group` definition: a required name and the shared body rule,
/// whose model group child is required.
pub fn parse_group_def(stream: &mut Stream, main_namespace: &str, closing_tag: (&str, &str)) -> (r:
    Result<(String, Vec<Attribute>, ElementType), ParseError>)
    requires
        old(stream).wf(),
    ensures
        final(stream).wf(),
        final(stream).tokens() == old(stream).tokens(),
        final(stream).pos() >= old(stream).pos(),
        r is Ok ==> final(stream).pos() > old(stream).pos(),
        match spec_group_def(old(stream).tokens(), old(stream).pos(), main_namespace@, (closing_tag.0@, closing_tag.1@)) {
            Ok(res) => r is Ok && final(stream).pos() == res.0 && r->Ok_0.0@ == res.1.0
                && view_attrs(r->Ok_0.1@) == res.1.1 && view_element_type(r->Ok_0.2) == res.1.2,
            Err(k) => r is Err && r->Err_0.kind() == k,
        },
{
    let (end, acc) = parse_attributes(stream, Prod::GroupDef, closing_tag)?;
    match end {
        ElementEnd::Open => {},
        _ => {
            return Err(ParseError::UnexpectedToken { tag: tag_owned(closing_tag) });
        },
    }
    let sub = parse_subtype(stream, main_namespace, closing_tag)?;
    match acc.name {
        None => Err(ParseError::MissingRequiredField {
            tag: tag_owned(closing_tag),
            field: String::from_str("name"),
        }),
        Some(nm) => match sub.1 {
            Some(inner) => Ok((nm, sub.0, inner)),
            None => Err(ParseError::MissingRequiredField {
                tag: tag_owned(closing_tag),
                field: String::from_str("content"),
            }),
        },
    }
}

/// A named `attributeGroup` definition: a required name and the shared
/// body rule, which must not contribute a model group.
pub fn parse_attribute_group_def(stream: &mut Stream, main_namespace: &str, closing_tag: (&str, &str)) -> (r:
    Result<(String, Vec<Attribute>), ParseError>)
    requires
        old(stream).wf(),
    ensures
        final(stream).wf(),
        final(stream).tokens() == old(stream).tokens(),
        final(stream).pos() >= old(stream).pos(),
        r is Ok ==> final(stream).pos() > old(stream).pos(),
        match spec_attribute_group_def(old(stream).tokens(), old(stream).pos(), main_namespace@, (closing_tag.0@, closing_tag.1@)) {
            Ok(res) => r is Ok && final(stream).pos() == res.0 && r->Ok_0.0@ == res.1.0
                && view_attrs(r->Ok_0.1@) == res.1.1,
            Err(k) => r is Err && r->Err_0.kind() == k,
        },
{
    let (end, acc) = parse_attributes(stream, Prod::AttributeGroupDef, closing_tag)?;
    match end {
        ElementEnd::Open => {},
        _ => {
            return Err(ParseError::UnexpectedToken { tag: tag_owned(closing_tag) });
        },
    }
    let sub = parse_subtype(stream, main_namespace, closing_tag)?;
    match acc.name {
        None => Err(ParseError::MissingRequiredField {
            tag: tag_owned(closing_tag),
            field: String::from_str("name"),
        }),
        Some(nm) => {
            if sub.1.is_some() {
                return Err(ParseError::ConflictingDefinition { tag: tag_owned(closing_tag) });
            }
            Ok((nm, sub.0))
        },
    }
}

/// The `schema` production: the namespace table is built from `xmlns:*`,
/// the element's own prefix must be bound to the XSD namespace, and the
/// body collects the top-level vocabulary into the schema. Duplicate type
/// or group names are fatal.
#[verifier::rlimit(100)]
pub fn parse_schema(stream: &mut Stream, main_namespace: &str, closing_tag: (&str, &str)) -> (r:
    Result<Schema, ParseError>)
    requires
        old(stream).wf(),
    ensures
        final(stream).wf(),
        final(stream).tokens() == old(stream).tokens(),
        final(stream).pos() >= old(stream).pos(),
        r is Ok ==> final(stream).pos() > old(stream).pos(),
        match spec_schema(old(stream).tokens(), old(stream).pos(), main_namespace@, (closing_tag.0@, closing_tag.1@)) {
            Ok(res) => r is Ok && final(stream).pos() == res.0 && view_schema(r->Ok_0) == res.1,
            Err(k) => r is Err && r->Err_0.kind() == k,
        },
        r is Ok ==> crate::model::unique_keys(view_schema(r->Ok_0).types) && crate::model::unique_keys(view_schema(r->Ok_0).groups),
{
    let ghost toks = old(stream).tokens();
    let ghost p0 = old(stream).pos();
    let ghost mv = main_namespace@;
    let ghost tagv = (closing_tag.0@, closing_tag.1@);
    let (end, acc) = parse_attributes(stream, Prod::Schema, closing_tag)?;
    match end {
        ElementEnd::Open => {},
        _ => {
            return Err(ParseError::UnexpectedToken { tag: tag_owned(closing_tag) });
        },
    }
    let table = build_ns_table(acc.xmlns)?;
    match crate::names::table_lookup(&table, main_namespace) {
        None => {
            return Err(ParseError::UnknownPrefix { prefix: main_namespace.to_owned() });
        },
        Some(ix) => {
            if !str_eq(table[ix].1.as_str(), "http://www.w3.org/2001/XMLSchema") {
                return Err(ParseError::UnexpectedToken { tag: tag_owned(closing_tag) });
            }
        },
    }
    let mut schema = Schema {
        namespaces: table,
        elements: Vec::new(),
        types: Vec::new(),
        groups: Vec::new(),
    };
    proof {
        assert(view_elements(schema.elements@) =~= Seq::<crate::model::ElementV>::empty());
        assert(view_types(schema.types@) =~= Seq::<
            (Seq<char>, (Seq<crate::model::AttributeV>, crate::model::ElementTypeV)),
        >::empty());
        assert(view_groups(schema.groups@) =~= Seq::<
            (Seq<char>, (Seq<crate::model::AttributeV>, Option<crate::model::ElementTypeV>)),
        >::empty());
    }
    loop
        invariant
            stream.wf(),
            toks == old(stream).tokens(),
            p0 == old(stream).pos(),
            mv == main_namespace@,
            tagv == (closing_tag.0@, closing_tag.1@),
            stream.tokens() == toks,
            p0 < stream.pos() <= toks.len(),
            spec_schema(toks, p0, mv, tagv) == spec_schema_children(
                toks,
                stream.pos(),
                mv,
                tagv,
                view_schema(schema),
            ),
            crate::model::unique_keys(view_schema(schema).types),
            crate::model::unique_keys(view_schema(schema).groups),
        decreases toks.len() - stream.pos(),
    {
        let ghost pos_it = stream.pos();
        match stream.next() {
            None => {
                return Err(ParseError::UnexpectedToken { tag: tag_owned(closing_tag) });
            },
            Some(tok) => match tok {
                Token::Whitespace(_) => {},
                Token::Comment(_) => {},
                Token::ElementEnd(e) => match e {
                    ElementEnd::Close(p, l) => {
                        if str_eq(p.as_str(), closing_tag.0) && str_eq(l.as_str(), closing_tag.1) {
                            return Ok(schema);
                        } else {
                            return Err(ParseError::UnexpectedToken { tag: tag_owned(closing_tag) });
                        }
                    },
                    _ => {
                        return Err(ParseError::UnexpectedToken { tag: tag_owned(closing_tag) });
                    },
                },
                Token::ElementStart(p, l) => {
                    if !str_eq(p.as_str(), main_namespace) {
                        return Err(ParseError::UnknownElement {
                            tag: tag_owned(closing_tag),
                            element: (p, l),
                        });
                    }
                    if str_eq(l.as_str(), "element") {
                        let ev = parse_element(stream, main_namespace, (p.as_str(), l.as_str()))?;
                        let ghost eg = ev;
                        let ghost spre = view_schema(schema);
                        let ghost epre = schema.elements@;
                        schema.elements.push(ev);
                        proof {
                            lemma_view_elements_snoc(epre, eg);
                            assert(view_schema(schema) =~= crate::model::SchemaV {
                                elements: spre.elements.push(view_element(eg)),
                                ..spre
                            });
                        }
                    } else if str_eq(l.as_str(), "annotation") {
                        parse_annotation(stream, main_namespace, (p.as_str(), l.as_str()))?;
                    } else if str_eq(l.as_str(), "complexType") {
                        let nad = parse_complex_type(stream, main_namespace, (p.as_str(), l.as_str()))?;
                        match nad.0 {
                            None => {
                                return Err(ParseError::MissingRequiredField {
                                    tag: tag_owned(closing_tag),
                                    field: String::from_str("name"),
                                });
                            },
                            Some(nm) => {
                                if types_has_key(&schema.types, nm.as_str()) {
                                    return Err(ParseError::DuplicateTypeOrGroupName { name: nm });
                                }
                                let ghost xg = (nm, (nad.1, nad.2));
                                let ghost spre = view_schema(schema);
                                let ghost tpre = schema.types@;
                                schema.types.push((nm, (nad.1, nad.2)));
                                proof {
                                    lemma_view_types_snoc(tpre, xg);
                                    crate::model::lemma_unique_push(
                                        view_types(tpre),
                                        (xg.0@, (view_attrs(xg.1.0@), view_element_type(xg.1.1))),
                                    );
                                    assert(view_schema(schema) =~= crate::model::SchemaV {
                                        types: spre.types.push(
                                            (
                                                xg.0@,
                                                (view_attrs(xg.1.0@), view_element_type(xg.1.1)),
                                            ),
                                        ),
                                        ..spre
                                    });
                                }
                            },
                        }
                    } else if str_eq(l.as_str(), "simpleType") {
                        let nad = parse_simple_type(stream, main_namespace, (p.as_str(), l.as_str()))?;
                        match nad.0 {
                            None => {
                                return Err(ParseError::MissingRequiredField {
                                    tag: tag_owned(closing_tag),
                                    field: String::from_str("name"),
                                });
                            },
                            Some(nm) => {
                                if types_has_key(&schema.types, nm.as_str()) {
                                    return Err(ParseError::DuplicateTypeOrGroupName { name: nm });
                                }
                                let ghost xg = (nm, (nad.1, nad.2));
                                let ghost spre = view_schema(schema);
                                let ghost tpre = schema.types@;
                                schema.types.push((nm, (nad.1, nad.2)));
                                proof {
                                    lemma_view_types_snoc(tpre, xg);
                                    crate::model::lemma_unique_push(
                                        view_types(tpre),
                                        (xg.0@, (view_attrs(xg.1.0@), view_element_type(xg.1.1))),
                                    );
                                    assert(view_schema(schema) =~= crate::model::SchemaV {
                                        types: spre.types.push(
                                            (
                                                xg.0@,
                                                (view_attrs(xg.1.0@), view_element_type(xg.1.1)),
                                            ),
                                        ),
                                        ..spre
                                    });
                                }
                            },
                        }
                    } else if str_eq(l.as_str(), "group") {
                        let nad = parse_group_def(stream, main_namespace, (p.as_str(), l.as_str()))?;
                        if groups_has_key(&schema.groups, nad.0.as_str()) {
                            return Err(ParseError::DuplicateTypeOrGroupName { name: nad.0 });
                        }
                        let ghost xg = (nad.0, (nad.1, Some(nad.2)));
                        let ghost spre = view_schema(schema);
                        let ghost gpre = schema.groups@;
                        schema.groups.push((nad.0, (nad.1, Some(nad.2))));
                        proof {
                            lemma_view_groups_snoc(gpre, xg);
                            crate::model::lemma_unique_push(
                                view_groups(gpre),
                                (xg.0@, (view_attrs(xg.1.0@), Some(view_element_type(xg.1.1.unwrap())))),
                            );
                            assert(view_schema(schema) =~= crate::model::SchemaV {
                                groups: spre.groups.push(
                                    (
                                        xg.0@,
                                        (
                                            view_attrs(xg.1.0@),
                                            Some(view_element_type(xg.1.1.unwrap())),
                                        ),
                                    ),
                                ),
                                ..spre
                            });
                        }
                    } else if str_eq(l.as_str(), "attributeGroup") {
                        let na = parse_attribute_group_def(stream, main_namespace, (p.as_str(), l.as_str()))?;
                        if groups_has_key(&schema.groups, na.0.as_str()) {
                            return Err(ParseError::DuplicateTypeOrGroupName { name: na.0 });
                        }
                        let ghost xg = (na.0, (na.1, None::<ElementType>));
                        let ghost spre = view_schema(schema);
                        let ghost gpre = schema.groups@;
                        schema.groups.push((na.0, (na.1, None)));
                        proof {
                            lemma_view_groups_snoc(gpre, xg);
                            crate::model::lemma_unique_push(
                                view_groups(gpre),
                                (xg.0@, (view_attrs(xg.1.0@), None)),
                            );
                            assert(view_schema(schema) =~= crate::model::SchemaV {
                                groups: spre.groups.push((xg.0@, (view_attrs(xg.1.0@), None))),
                                ..spre
                            });
                        }
                    } else if str_eq(l.as_str(), "import") {
                        eat_block(stream, (p.as_str(), l.as_str()))?;
                    } else {
                        return Err(ParseError::UnknownElement {
                            tag: tag_owned(closing_tag),
                            element: (p, l),
                        });
                    }
                },
                _ => {
                    return Err(ParseError::UnexpectedToken { tag: tag_owned(closing_tag) });
                },
            },
        }
    }
}

/// Parses a whole document: the token stream is consumed to its end. The
/// XML declaration, if present, must carry version `1.0`; at most one
/// top-level element is accepted, and it must be a `schema`.
pub fn parse_document(stream: &mut Stream) -> (r: Result<Document, ParseError>)
    requires
        old(stream).wf(),
    ensures
        final(stream).wf(),
        final(stream).tokens() == old(stream).tokens(),
        final(stream).pos() >= old(stream).pos(),
        match spec_document_items(
            old(stream).tokens(),
            old(stream).pos(),
            (crate::model::DocumentV {
                version: None,
                encoding: None,
                standalone: None,
                schema: None,
            }),
        ) {
            Ok(dv) => r is Ok && view_document(r->Ok_0) == dv && final(stream).pos() == old(
                stream,
            ).tokens().len(),
            Err(k) => r is Err && r->Err_0.kind() == k,
        },
        r is Ok ==> (match view_document(r->Ok_0).schema {
            Some(sv) => crate::model::unique_keys(sv.types) && crate::model::unique_keys(
                sv.groups,
            ),
            None => true,
        }),
{
    let ghost toks = old(stream).tokens();
    let ghost p0 = old(stream).pos();
    let mut root = Document { version: None, encoding: None, standalone: None, schema: None };
    loop
        invariant
            stream.wf(),
            toks == old(stream).tokens(),
            p0 == old(stream).pos(),
            stream.tokens() == toks,
            p0 <= stream.pos() <= toks.len(),
            spec_document_items(toks, stream.pos(), view_document(root)) == spec_document_items(
                toks,
                p0,
                (crate::model::DocumentV {
                    version: None,
                    encoding: None,
                    standalone: None,
                    schema: None,
                }),
            ),
            match view_document(root).schema {
                Some(sv) => crate::model::unique_keys(sv.types) && crate::model::unique_keys(
                    sv.groups,
                ),
                None => true,
            },
        decreases toks.len() - stream.pos(),
    {
        let ghost pos_it = stream.pos();
        match stream.next() {
            None => {
                return Ok(root);
            },
            Some(tok) => match tok {
                Token::Whitespace(_) => {},
                Token::Comment(_) => {},
                Token::DtdStart(_) => {},
                Token::DtdEnd => {},
                Token::Declaration(v, e, st) => {
                    if root.version.is_some() {
                        return Err(ParseError::UnexpectedToken {
                            tag: (String::new(), String::new()),
                        });
                    }
                    if !str_eq(v.as_str(), "1.0") {
                        return Err(ParseError::UnexpectedToken {
                            tag: (String::new(), String::new()),
                        });
                    }
                    let ghost rpre = view_document(root);
                    let ghost vv = v@;
                    let ghost eg = e;
                    let ghost sg = st;
                    root.version = Some(v);
                    root.encoding = e;
                    root.standalone = st;
                    proof {
                        assert(view_document(root) =~= crate::model::DocumentV {
                            version: Some(vv),
                            encoding: crate::text::opt_view(eg),
                            standalone: crate::text::opt_view(sg),
                            ..rpre
                        });
                    }
                },
                Token::ElementStart(p, l) => {
                    if !str_eq(l.as_str(), "schema") {
                        return Err(ParseError::UnknownElement {
                            tag: (String::new(), String::new()),
                            element: (p, l),
                        });
                    }
                    if root.schema.is_some() {
                        return Err(ParseError::UnexpectedToken {
                            tag: (String::new(), String::new()),
                        });
                    }
                    let sch = parse_schema(stream, p.as_str(), (p.as_str(), l.as_str()))?;
                    let ghost rpre = view_document(root);
                    let ghost schg = sch;
                    root.schema = Some(sch);
                    proof {
                        assert(view_document(root) =~= crate::model::DocumentV {
                            schema: Some(view_schema(schg)),
                            ..rpre
                        });
                    }
                },
                _ => {
                    return Err(ParseError::UnexpectedToken {
                        tag: (String::new(), String::new()),
                    });
                },
            },
        }
    }
}

} // verus!
