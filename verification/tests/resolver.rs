//! The namespace resolver and qualified-name handling.

use xsd_parser::errors::{ErrorKind, ParseError};
use xsd_parser::names::{escape_keyword, split_id, FullName, NameHint, Namespaces, QName};

const XSD: &str = "http://www.w3.org/2001/XMLSchema";

fn resolver() -> Namespaces {
    Namespaces::new(
        vec![("xs".to_string(), XSD.to_string())],
        "urn:x".to_string(),
    )
    .unwrap()
}

#[test]
fn prefixed_name_resolves_through_the_declared_table() {
    let ns = resolver();
    let full = ns.parse_qname("xs:string").unwrap();
    assert_eq!(full, FullName(XSD.to_string(), "string".to_string()));
}

#[test]
fn bare_name_resolves_to_the_target_namespace() {
    let ns = resolver();
    let full = ns.parse_qname("string").unwrap();
    assert_eq!(full, FullName("urn:x".to_string(), "string".to_string()));
}

#[test]
fn unknown_prefix_is_rejected() {
    let ns = resolver();
    let err = ns.parse_qname("zz:string").unwrap_err();
    assert_eq!(err.error_kind(), ErrorKind::UnknownPrefix);
}

#[test]
fn reserved_prefixes_resolve_to_their_sentinels() {
    let ns = resolver();
    assert_eq!(ns.expand_prefix(Some("xml")).unwrap(), "xml".to_string());
    assert_eq!(ns.expand_prefix(Some("xmlns")).unwrap(), "xmlns".to_string());
}

#[test]
fn redeclaring_a_reserved_prefix_is_fatal() {
    let err = Namespaces::new(
        vec![("xml".to_string(), "urn:y".to_string())],
        "urn:x".to_string(),
    )
    .unwrap_err();
    assert_eq!(err.error_kind(), ErrorKind::DuplicateNamespacePrefix);
}

#[test]
fn inconsistent_duplicate_prefix_is_fatal_but_consistent_repeat_is_kept_once() {
    let err = Namespaces::new(
        vec![
            ("a".to_string(), "urn:1".to_string()),
            ("a".to_string(), "urn:2".to_string()),
        ],
        "urn:x".to_string(),
    )
    .unwrap_err();
    assert_eq!(err.error_kind(), ErrorKind::DuplicateNamespacePrefix);

    let ns = Namespaces::new(
        vec![
            ("a".to_string(), "urn:1".to_string()),
            ("a".to_string(), "urn:1".to_string()),
        ],
        "urn:x".to_string(),
    )
    .unwrap();
    assert_eq!(ns.expand_prefix(Some("a")).unwrap(), "urn:1".to_string());
}

#[test]
fn split_id_accepts_bare_and_single_colon_forms() {
    assert_eq!(
        split_id("xs:int").unwrap(),
        (Some("xs".to_string()), "int".to_string())
    );
    assert_eq!(split_id("int").unwrap(), (None, "int".to_string()));
}

#[test]
fn split_id_rejects_malformed_names() {
    for bad in ["", ":b", "a:", "a:b:c"] {
        let err = split_id(bad).unwrap_err();
        assert_eq!(err.error_kind(), ErrorKind::MalformedName);
        assert!(matches!(err, ParseError::MalformedName { .. }));
    }
}

#[test]
fn qname_eq_compares_resolved_names() {
    let ns = resolver();
    let a = QName(Some("xs".to_string()), "string".to_string());
    let b = QName(None, "string".to_string());
    // `xs` resolves to the XSD namespace, a bare name to `urn:x`.
    assert_eq!(ns.qname_eq(&a, &b).unwrap(), false);
    let c = QName(Some("xs".to_string()), "string".to_string());
    assert_eq!(ns.qname_eq(&a, &c).unwrap(), true);
    // Different local names never compare equal, whatever the prefixes.
    let d = QName(Some("zz".to_string()), "int".to_string());
    assert_eq!(ns.qname_eq(&a, &d).unwrap(), false);
    // An undeclared prefix on names with equal local parts is fatal.
    let e = QName(Some("zz".to_string()), "string".to_string());
    let err = ns.qname_eq(&a, &e).unwrap_err();
    assert_eq!(err.error_kind(), ErrorKind::UnknownPrefix);
}

#[test]
fn get_module_name_reverse_looks_up_a_prefix() {
    let ns = resolver();
    let full = FullName(XSD.to_string(), "string".to_string());
    assert_eq!(ns.get_module_name(&full), "xs".to_string());
    let foreign = FullName("urn:elsewhere".to_string(), "thing".to_string());
    assert_eq!(ns.get_module_name(&foreign), "UNQUAL".to_string());
}

#[test]
fn name_hints_join_with_underscores_and_escape_keywords() {
    let ns = resolver();
    let empty = NameHint::new_empty();
    assert_eq!(ns.name_from_hint(&empty), None);

    let mut hint = NameHint::new("item");
    hint.push("override");
    let mut tail = NameHint::from_fullname(&FullName(XSD.to_string(), "kind".to_string()));
    tail.push("leaf");
    hint.extend(&tail);
    assert_eq!(
        ns.name_from_hint(&hint),
        Some("item_override__kind_leaf".to_string())
    );
}

#[test]
fn full_names_expose_their_parts_as_a_tuple() {
    let full = FullName::new(XSD.to_string(), "string".to_string());
    let (ns_id, local) = full.as_tuple();
    assert_eq!(ns_id, XSD);
    assert_eq!(local, "string");
}

#[test]
fn escape_keyword_appends_an_underscore_to_reserved_words() {
    assert_eq!(escape_keyword("override"), "override_".to_string());
    assert_eq!(escape_keyword("item"), "item".to_string());
}
