//! The grammar engine, production by production and on whole documents.

use xsd_parser::errors::{ErrorKind, ParseError};
use xsd_parser::model::{Attribute, Document, Element, ElementType};
use xsd_parser::parser::{
    eat_block, parse_attribute, parse_complex_content, parse_document, parse_element,
    parse_group_ref, parse_list, parse_union,
};
use xsd_parser::token::{ElementEnd, Stream, Token};

const XSD: &str = "http://www.w3.org/2001/XMLSchema";

fn start(p: &str, l: &str) -> Token {
    Token::ElementStart(p.to_string(), l.to_string())
}

fn attr(p: &str, l: &str, v: &str) -> Token {
    Token::Attribute(p.to_string(), l.to_string(), v.to_string())
}

fn open() -> Token {
    Token::ElementEnd(ElementEnd::Open)
}

fn selfclose() -> Token {
    Token::ElementEnd(ElementEnd::Empty)
}

fn close(p: &str, l: &str) -> Token {
    Token::ElementEnd(ElementEnd::Close(p.to_string(), l.to_string()))
}

fn decl(v: &str) -> Token {
    Token::Declaration(v.to_string(), None, None)
}

/// A document holding one schema whose body is `children`.
fn schema_doc(children: Vec<Token>) -> Vec<Token> {
    let mut toks = vec![
        decl("1.0"),
        Token::Whitespace("\n".to_string()),
        start("xs", "schema"),
        attr("xmlns", "xs", XSD),
        open(),
    ];
    toks.extend(children);
    toks.push(close("xs", "schema"));
    toks
}

fn parse(tokens: Vec<Token>) -> Result<Document, ParseError> {
    let mut st = Stream::new(tokens);
    parse_document(&mut st)
}

#[test]
fn element_with_name_and_builtin_type() {
    let mut st = Stream::new(vec![
        attr("", "name", "a"),
        attr("", "type", "xs:string"),
        selfclose(),
    ]);
    let e = parse_element(&mut st, "xs", ("xs", "element")).unwrap();
    assert_eq!(
        e,
        Element {
            name: Some("a".to_string()),
            attrs: vec![],
            type_: ElementType::String,
        }
    );
}

#[test]
fn element_type_date_and_custom() {
    let mut st = Stream::new(vec![
        attr("", "name", "d"),
        attr("", "type", "xs:date"),
        selfclose(),
    ]);
    let e = parse_element(&mut st, "xs", ("xs", "element")).unwrap();
    assert_eq!(e.type_, ElementType::Date);

    let mut st = Stream::new(vec![
        attr("", "name", "c"),
        attr("", "type", "xs:decimal"),
        selfclose(),
    ]);
    let e = parse_element(&mut st, "xs", ("xs", "element")).unwrap();
    assert_eq!(
        e.type_,
        ElementType::Custom(Some("xs".to_string()), "decimal".to_string())
    );
}

#[test]
fn element_ref_mirrors_the_name() {
    let mut st = Stream::new(vec![attr("", "ref", "b"), selfclose()]);
    let e = parse_element(&mut st, "xs", ("xs", "element")).unwrap();
    assert_eq!(
        e,
        Element {
            name: Some("b".to_string()),
            attrs: vec![],
            type_: ElementType::Ref("b".to_string()),
        }
    );
}

#[test]
fn element_with_inline_complex_type() {
    let mut st = Stream::new(vec![
        attr("", "name", "a"),
        open(),
        start("xs", "complexType"),
        open(),
        start("xs", "sequence"),
        open(),
        start("xs", "element"),
        attr("", "name", "leaf"),
        attr("", "type", "xs:string"),
        selfclose(),
        close("xs", "sequence"),
        close("xs", "complexType"),
        close("xs", "element"),
    ]);
    let e = parse_element(&mut st, "xs", ("xs", "element")).unwrap();
    assert_eq!(e.name, Some("a".to_string()));
    match e.type_ {
        ElementType::Sequence(items) => {
            assert_eq!(items.len(), 1);
            assert_eq!(items[0].name, Some("leaf".to_string()));
            assert_eq!(items[0].type_, ElementType::String);
        },
        other => panic!("expected a sequence, got {:?}", other),
    }
}

#[test]
fn unknown_attribute_is_rejected_and_named() {
    let mut st = Stream::new(vec![
        attr("", "name", "a"),
        attr("", "bogus", "x"),
        selfclose(),
    ]);
    let err = parse_element(&mut st, "xs", ("xs", "element")).unwrap_err();
    assert_eq!(err.error_kind(), ErrorKind::UnknownAttribute);
    match err {
        ParseError::UnknownAttribute { attribute, .. } => {
            assert_eq!(attribute.1, "bogus".to_string());
        },
        other => panic!("expected an unknown-attribute error, got {:?}", other),
    }
}

#[test]
fn duplicate_attribute_is_rejected() {
    let mut st = Stream::new(vec![
        attr("", "name", "a"),
        attr("", "name", "b"),
        selfclose(),
    ]);
    let err = parse_element(&mut st, "xs", ("xs", "element")).unwrap_err();
    assert_eq!(err.error_kind(), ErrorKind::DuplicateAttribute);
}

#[test]
fn type_and_ref_together_conflict() {
    let mut st = Stream::new(vec![
        attr("", "type", "xs:string"),
        attr("", "ref", "b"),
        selfclose(),
    ]);
    let err = parse_element(&mut st, "xs", ("xs", "element")).unwrap_err();
    assert_eq!(err.error_kind(), ErrorKind::ConflictingDefinition);
}

#[test]
fn self_closing_element_without_name_is_incomplete() {
    let mut st = Stream::new(vec![attr("", "type", "xs:string"), selfclose()]);
    let err = parse_element(&mut st, "xs", ("xs", "element")).unwrap_err();
    assert_eq!(err.error_kind(), ErrorKind::MissingRequiredField);
}

#[test]
fn malformed_qualified_type_name_is_rejected() {
    let mut st = Stream::new(vec![
        attr("", "name", "a"),
        attr("", "type", "a:b:c"),
        selfclose(),
    ]);
    let err = parse_element(&mut st, "xs", ("xs", "element")).unwrap_err();
    assert_eq!(err.error_kind(), ErrorKind::MalformedName);
}

#[test]
fn union_member_types_self_closing() {
    let mut st = Stream::new(vec![attr("", "memberTypes", "xs:string xs:int"), selfclose()]);
    let t = parse_union(&mut st, "xs", ("xs", "union")).unwrap();
    assert_eq!(
        t,
        ElementType::Union(
            Some(vec![
                (Some("xs".to_string()), "string".to_string()),
                (Some("xs".to_string()), "int".to_string()),
            ]),
            None,
        )
    );
}

#[test]
fn union_open_body_collects_inline_members() {
    let mut st = Stream::new(vec![
        open(),
        start("xs", "element"),
        attr("", "name", "m"),
        attr("", "type", "xs:string"),
        selfclose(),
        close("xs", "union"),
    ]);
    let t = parse_union(&mut st, "xs", ("xs", "union")).unwrap();
    match t {
        ElementType::Union(members, Some(items)) => {
            assert_eq!(members, None);
            assert_eq!(items.len(), 1);
            assert_eq!(items[0].name, Some("m".to_string()));
        },
        other => panic!("expected a union with inline members, got {:?}", other),
    }
}

#[test]
fn list_requires_a_self_closing_body() {
    let mut st = Stream::new(vec![attr("", "itemType", "xs:int"), selfclose()]);
    let t = parse_list(&mut st, "xs", ("xs", "list")).unwrap();
    assert_eq!(
        t,
        ElementType::List((Some("xs".to_string()), "int".to_string()))
    );

    let mut st = Stream::new(vec![attr("", "itemType", "xs:int"), open()]);
    let err = parse_list(&mut st, "xs", ("xs", "list")).unwrap_err();
    assert_eq!(err.error_kind(), ErrorKind::UnexpectedToken);
}

#[test]
fn group_ref_requires_its_reference() {
    let mut st = Stream::new(vec![attr("", "ref", "g"), selfclose()]);
    let t = parse_group_ref(&mut st, "xs", ("xs", "group")).unwrap();
    assert_eq!(t, ElementType::GroupRef("g".to_string()));

    let mut st = Stream::new(vec![selfclose()]);
    let err = parse_group_ref(&mut st, "xs", ("xs", "group")).unwrap_err();
    assert_eq!(err.error_kind(), ErrorKind::MissingRequiredField);
}

#[test]
fn attribute_declaration_forms() {
    let mut st = Stream::new(vec![
        attr("", "name", "n"),
        attr("", "type", "xs:string"),
        attr("", "default", "d"),
        selfclose(),
    ]);
    let a = parse_attribute(&mut st, "xs", ("xs", "attribute")).unwrap();
    assert_eq!(
        a,
        Attribute::SmallDef {
            name: "n".to_string(),
            type_: "xs:string".to_string(),
            default: Some("d".to_string()),
        }
    );

    let mut st = Stream::new(vec![attr("", "ref", "r"), selfclose()]);
    let a = parse_attribute(&mut st, "xs", ("xs", "attribute")).unwrap();
    assert_eq!(a, Attribute::Ref("r".to_string()));

    let mut st = Stream::new(vec![
        attr("", "name", "n"),
        open(),
        start("xs", "simpleType"),
        open(),
        start("xs", "restriction"),
        attr("", "base", "xs:string"),
        open(),
        close("xs", "restriction"),
        close("xs", "simpleType"),
        close("xs", "attribute"),
    ]);
    let a = parse_attribute(&mut st, "xs", ("xs", "attribute")).unwrap();
    match a {
        Attribute::LongDef { name, default, inner } => {
            assert_eq!(name, "n".to_string());
            assert_eq!(default, None);
            assert_eq!(inner.name, None);
            assert_eq!(
                inner.type_,
                ElementType::Custom(Some("xs".to_string()), "string".to_string())
            );
        },
        other => panic!("expected a long-form declaration, got {:?}", other),
    }
}

#[test]
fn complex_content_extension() {
    let mut st = Stream::new(vec![
        open(),
        start("xs", "extension"),
        attr("", "base", "xs:Base"),
        open(),
        start("xs", "attribute"),
        attr("", "name", "n"),
        attr("", "type", "xs:string"),
        selfclose(),
        close("xs", "extension"),
        close("xs", "complexContent"),
    ]);
    let t = parse_complex_content(&mut st, "xs", ("xs", "complexContent")).unwrap();
    assert_eq!(
        t,
        ElementType::Extension(
            (Some("xs".to_string()), "Base".to_string()),
            vec![Attribute::SmallDef {
                name: "n".to_string(),
                type_: "xs:string".to_string(),
                default: None,
            }],
            None,
        )
    );
}

#[test]
fn skip_block_consumes_exactly_the_subtree() {
    let mut st = Stream::new(vec![
        // Inside <foo:widget ...> with an open body: nested unknown
        // vocabulary, arbitrarily deep, with text and attributes.
        open(),
        start("foo", "inner"),
        attr("a", "b", "c"),
        open(),
        Token::Text("free text".to_string()),
        start("foo", "leaf"),
        selfclose(),
        close("foo", "inner"),
        close("foo", "widget"),
        // The first token after the subtree:
        start("xs", "element"),
    ]);
    eat_block(&mut st, ("foo", "widget")).unwrap();
    assert_eq!(st.next(), Some(start("xs", "element")));
}

#[test]
fn skip_block_rejects_a_mismatched_closing_tag() {
    let mut st = Stream::new(vec![
        open(),
        start("foo", "inner"),
        open(),
        close("foo", "other"),
        close("foo", "widget"),
    ]);
    let err = eat_block(&mut st, ("foo", "widget")).unwrap_err();
    assert_eq!(err.error_kind(), ErrorKind::UnexpectedToken);
}

#[test]
fn duplicate_type_names_are_fatal() {
    let ct = |name: &str| {
        vec![
            start("xs", "complexType"),
            attr("", "name", name),
            open(),
            start("xs", "sequence"),
            open(),
            close("xs", "sequence"),
            close("xs", "complexType"),
        ]
    };
    let mut children = ct("Foo");
    children.extend(ct("Foo"));
    let err = parse(schema_doc(children)).unwrap_err();
    assert_eq!(err.error_kind(), ErrorKind::DuplicateTypeOrGroupName);
    match err {
        ParseError::DuplicateTypeOrGroupName { name } => assert_eq!(name, "Foo".to_string()),
        other => panic!("expected a duplicate-name error, got {:?}", other),
    }

    let mut children = ct("Foo");
    children.extend(ct("Bar"));
    let doc = parse(schema_doc(children)).unwrap();
    let schema = doc.schema.unwrap();
    assert_eq!(schema.types.len(), 2);
    assert_eq!(schema.types[0].0, "Foo".to_string());
    assert_eq!(schema.types[1].0, "Bar".to_string());
}

#[test]
fn parsing_twice_from_identical_input_yields_equal_models() {
    let children = vec![
        start("xs", "element"),
        attr("", "name", "a"),
        attr("", "type", "xs:string"),
        selfclose(),
        start("xs", "simpleType"),
        attr("", "name", "S"),
        open(),
        start("xs", "union"),
        attr("", "memberTypes", "xs:string xs:int"),
        selfclose(),
        close("xs", "simpleType"),
    ];
    let toks = schema_doc(children);
    let d1 = parse(toks.clone()).unwrap();
    let d2 = parse(toks).unwrap();
    assert_eq!(d1, d2);
}

#[test]
fn document_declaration_is_captured_and_version_checked() {
    let doc = parse(schema_doc(vec![])).unwrap();
    assert_eq!(doc.version, Some("1.0".to_string()));
    let schema = doc.schema.unwrap();
    assert_eq!(schema.namespaces, vec![("xs".to_string(), XSD.to_string())]);
    assert!(schema.elements.is_empty());

    let bad = vec![decl("2.0")];
    let err = parse(bad).unwrap_err();
    assert_eq!(err.error_kind(), ErrorKind::UnexpectedToken);
}

#[test]
fn schema_prefix_must_be_bound_to_the_xsd_namespace() {
    // No xmlns:xs declaration at all.
    let toks = vec![start("xs", "schema"), open(), close("xs", "schema")];
    let err = parse(toks).unwrap_err();
    assert_eq!(err.error_kind(), ErrorKind::UnknownPrefix);

    // Bound, but to the wrong identifier.
    let toks = vec![
        start("xs", "schema"),
        attr("xmlns", "xs", "urn:not-xsd"),
        open(),
        close("xs", "schema"),
    ];
    let err = parse(toks).unwrap_err();
    assert_eq!(err.error_kind(), ErrorKind::UnexpectedToken);
}

#[test]
fn unknown_top_level_vocabulary_is_rejected() {
    let children = vec![start("xs", "wibble"), open(), close("xs", "wibble")];
    let err = parse(schema_doc(children)).unwrap_err();
    assert_eq!(err.error_kind(), ErrorKind::UnknownElement);
}

#[test]
fn annotation_and_import_subtrees_are_skipped() {
    let children = vec![
        start("xs", "annotation"),
        open(),
        start("xs", "documentation"),
        open(),
        Token::Text("prose".to_string()),
        close("xs", "documentation"),
        close("xs", "annotation"),
        start("xs", "import"),
        attr("", "namespace", "urn:elsewhere"),
        open(),
        close("xs", "import"),
        start("xs", "element"),
        attr("", "name", "a"),
        attr("", "type", "xs:string"),
        selfclose(),
    ];
    let doc = parse(schema_doc(children)).unwrap();
    let schema = doc.schema.unwrap();
    assert_eq!(schema.elements.len(), 1);
    assert_eq!(schema.elements[0].name, Some("a".to_string()));
}

#[test]
fn groups_and_attribute_groups_are_collected() {
    let children = vec![
        start("xs", "group"),
        attr("", "name", "G"),
        open(),
        start("xs", "choice"),
        open(),
        start("xs", "element"),
        attr("", "name", "x"),
        attr("", "type", "xs:string"),
        selfclose(),
        close("xs", "choice"),
        close("xs", "group"),
        start("xs", "attributeGroup"),
        attr("", "name", "AG"),
        open(),
        start("xs", "attribute"),
        attr("", "name", "n"),
        attr("", "type", "xs:string"),
        selfclose(),
        close("xs", "attributeGroup"),
    ];
    let doc = parse(schema_doc(children)).unwrap();
    let schema = doc.schema.unwrap();
    assert_eq!(schema.groups.len(), 2);
    assert_eq!(schema.groups[0].0, "G".to_string());
    match &schema.groups[0].1 .1 {
        Some(ElementType::Choice(items)) => assert_eq!(items.len(), 1),
        other => panic!("expected a choice group, got {:?}", other),
    }
    assert_eq!(schema.groups[1].0, "AG".to_string());
    assert_eq!(schema.groups[1].1 .1, None);
    assert_eq!(schema.groups[1].1 .0.len(), 1);
}

#[test]
fn a_group_and_attribute_group_of_the_same_name_conflict() {
    let children = vec![
        start("xs", "group"),
        attr("", "name", "G"),
        open(),
        start("xs", "sequence"),
        open(),
        close("xs", "sequence"),
        close("xs", "group"),
        start("xs", "attributeGroup"),
        attr("", "name", "G"),
        open(),
        close("xs", "attributeGroup"),
    ];
    let err = parse(schema_doc(children)).unwrap_err();
    assert_eq!(err.error_kind(), ErrorKind::DuplicateTypeOrGroupName);
}

#[test]
fn text_at_the_document_root_is_rejected() {
    let toks = vec![Token::Text("stray".to_string())];
    let err = parse(toks).unwrap_err();
    assert_eq!(err.error_kind(), ErrorKind::UnexpectedToken);
}

#[test]
fn an_empty_token_sequence_yields_an_empty_document() {
    let doc = parse(vec![]).unwrap();
    assert_eq!(
        doc,
        Document { version: None, encoding: None, standalone: None, schema: None }
    );
}
