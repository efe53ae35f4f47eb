//! The token stream: reads, checkpoints, rollbacks.

use xsd_parser::token::{ElementEnd, Stream, Token};

fn sample_tokens() -> Vec<Token> {
    vec![
        Token::Whitespace(" ".to_string()),
        Token::ElementStart("xs".to_string(), "schema".to_string()),
        Token::Attribute("".to_string(), "name".to_string(), "a".to_string()),
        Token::ElementEnd(ElementEnd::Open),
        Token::Comment("note".to_string()),
        Token::ElementEnd(ElementEnd::Close("xs".to_string(), "schema".to_string())),
    ]
}

#[test]
fn next_walks_the_sequence_in_order() {
    let mut st = Stream::new(sample_tokens());
    assert_eq!(st.next(), Some(Token::Whitespace(" ".to_string())));
    assert_eq!(
        st.next(),
        Some(Token::ElementStart("xs".to_string(), "schema".to_string()))
    );
    assert_eq!(
        st.next(),
        Some(Token::Attribute(
            "".to_string(),
            "name".to_string(),
            "a".to_string()
        ))
    );
    assert_eq!(st.next(), Some(Token::ElementEnd(ElementEnd::Open)));
    assert_eq!(st.next(), Some(Token::Comment("note".to_string())));
    assert_eq!(
        st.next(),
        Some(Token::ElementEnd(ElementEnd::Close(
            "xs".to_string(),
            "schema".to_string()
        )))
    );
    assert_eq!(st.next(), None);
    assert_eq!(st.next(), None);
}

#[test]
fn rollback_replays_exactly_the_same_reads() {
    let mut st = Stream::new(sample_tokens());
    let _ = st.next();
    let tx = st.transaction();
    let a1 = st.next();
    let a2 = st.next();
    let a3 = st.next();
    tx.rollback(&mut st);
    let b1 = st.next();
    let b2 = st.next();
    let b3 = st.next();
    assert_eq!(a1, b1);
    assert_eq!(a2, b2);
    assert_eq!(a3, b3);
}

#[test]
fn rollback_at_start_replays_from_the_beginning() {
    let mut st = Stream::new(sample_tokens());
    let tx = st.transaction();
    while st.next().is_some() {}
    tx.rollback(&mut st);
    assert_eq!(st.next(), Some(Token::Whitespace(" ".to_string())));
}

#[test]
fn commit_discards_the_checkpoint_without_side_effects() {
    let mut st = Stream::new(sample_tokens());
    let _ = st.next();
    let tx = st.transaction();
    tx.commit();
    assert_eq!(
        st.next(),
        Some(Token::ElementStart("xs".to_string(), "schema".to_string()))
    );
}

#[test]
fn next_on_empty_stream_is_none() {
    let mut st = Stream::new(Vec::new());
    assert_eq!(st.next(), None);
}
