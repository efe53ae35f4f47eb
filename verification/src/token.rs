//! Lexical XML tokens and the replayable token stream the grammar engine
//! consumes.
//!
//! The stream wraps an already-tokenized sequence with a cursor. Reading
//! never consumes the underlying buffer, so a checkpoint taken with
//! [`Stream::transaction`] can later rewind the cursor and replay exactly
//! the tokens that followed it.

use vstd::prelude::*;

verus! {

/// How an element tag is terminated in the token sequence.
#[derive(Debug, PartialEq, Eq)]
pub enum ElementEnd {
    /// `>`: the element has an open body and children follow.
    Open,
    /// `</prefix:local>`: a closing tag with the given prefix and local name.
    Close(String, String),
    /// `/>`: the element is self-closing.
    Empty,
}

/// One lexical XML token, as handed over by the external tokenizer.
#[derive(Debug, PartialEq, Eq)]
pub enum Token {
    /// `<?xml version="..." encoding="..." standalone="..."?>`
    Declaration(String, Option<String>, Option<String>),
    /// `<prefix:local`, carrying the tag's prefix and local name.
    ElementStart(String, String),
    /// `prefix:local="value"` inside a start tag.
    Attribute(String, String, String),
    /// The terminator of a start tag or a closing tag.
    ElementEnd(ElementEnd),
    /// Character data between tags.
    Text(String),
    /// Character data consisting of whitespace only.
    Whitespace(String),
    /// `<!-- ... -->`
    Comment(String),
    /// `<!DOCTYPE name`, carrying the doctype name.
    DtdStart(String),
    /// The end of a doctype block.
    DtdEnd,
}

impl Clone for ElementEnd {
    fn clone(&self) -> (r: Self)
        ensures
            r == *self,
    {
        match self {
            ElementEnd::Open => ElementEnd::Open,
            ElementEnd::Close(p, l) => ElementEnd::Close(p.clone(), l.clone()),
            ElementEnd::Empty => ElementEnd::Empty,
        }
    }
}

impl Clone for Token {
    fn clone(&self) -> (r: Self)
        ensures
            r == *self,
    {
        match self {
            Token::Declaration(v, e, s) => Token::Declaration(
                v.clone(),
                match e {
                    Some(x) => Some(x.clone()),
                    None => None,
                },
                match s {
                    Some(x) => Some(x.clone()),
                    None => None,
                },
            ),
            Token::ElementStart(p, l) => Token::ElementStart(p.clone(), l.clone()),
            Token::Attribute(p, l, v) => Token::Attribute(p.clone(), l.clone(), v.clone()),
            Token::ElementEnd(e) => Token::ElementEnd(e.clone()),
            Token::Text(t) => Token::Text(t.clone()),
            Token::Whitespace(t) => Token::Whitespace(t.clone()),
            Token::Comment(t) => Token::Comment(t.clone()),
            Token::DtdStart(n) => Token::DtdStart(n.clone()),
            Token::DtdEnd => Token::DtdEnd,
        }
    }
}

/// A position-indexed, replayable view over a pre-materialized token
/// sequence. Only the cursor moves; the tokens themselves never change.
pub struct Stream {
    tokens: Vec<Token>,
    index: usize,
}

/// An opaque checkpoint capturing a stream's cursor position.
#[must_use]
pub struct Transaction {
    initial_index: usize,
}

impl Stream {
    /// The underlying token sequence.
    pub closed spec fn tokens(&self) -> Seq<Token> {
        self.tokens@
    }

    /// The cursor: the position of the next token to be read.
    pub closed spec fn pos(&self) -> int {
        self.index as int
    }

    /// The cursor never runs past the end of the sequence.
    pub open spec fn wf(&self) -> bool {
        0 <= self.pos() <= self.tokens().len()
    }

    /// Wraps an already-tokenized sequence with a cursor at its start.
    pub fn new(tokens: Vec<Token>) -> (s: Stream)
        ensures
            s.wf(),
            s.tokens() == tokens@,
            s.pos() == 0,
    {
        Stream { tokens, index: 0 }
    }

    /// Returns the next token, advancing the cursor by one, or `None` at the
    /// end of the input. The token is duplicated on read; the underlying
    /// buffer is untouched.
    pub fn next(&mut self) -> (t: Option<Token>)
        requires
            old(self).wf(),
        ensures
            final(self).wf(),
            final(self).tokens() == old(self).tokens(),
            old(self).pos() < old(self).tokens().len() ==> {
                &&& final(self).pos() == old(self).pos() + 1
                &&& t == Some(old(self).tokens()[old(self).pos()])
            },
            old(self).pos() == old(self).tokens().len() ==> {
                &&& final(self).pos() == old(self).pos()
                &&& t is None
            },
    {
        if self.index < self.tokens.len() {
            let tok = self.tokens[self.index].clone();
            self.index = self.index + 1;
            Some(tok)
        } else {
            None
        }
    }

    /// Opens a transaction: an opaque checkpoint capturing the current
    /// cursor position.
    pub fn transaction(&self) -> (t: Transaction)
        ensures
            t.pos() == self.pos(),
    {
        Transaction { initial_index: self.index }
    }
}

impl Transaction {
    /// The cursor position this checkpoint captured.
    pub closed spec fn pos(self) -> int {
        self.initial_index as int
    }

    /// Discards the checkpoint without side effects.
    pub fn commit(self) {
    }

    /// Resets the stream's cursor to the captured position. Afterwards the
    /// stream replays exactly the sequence that would have been produced had
    /// the interval between checkpoint and rollback never been read.
    pub fn rollback(self, stream: &mut Stream)
        requires
            old(stream).wf(),
            0 <= self.pos() <= old(stream).tokens().len(),
        ensures
            final(stream).wf(),
            final(stream).tokens() == old(stream).tokens(),
            final(stream).pos() == self.pos(),
    {
        stream.index = self.initial_index;
    }
}

/// The token a read observes at position `p`: `None` past the end.
pub open spec fn read_at(tokens: Seq<Token>, p: int) -> Option<Token> {
    if 0 <= p < tokens.len() {
        Some(tokens[p])
    } else {
        None
    }
}

/// The results of `k` successive reads starting at position `p`.
pub open spec fn reads_from(tokens: Seq<Token>, p: int, k: nat) -> Seq<Option<Token>>
    decreases k,
{
    if k == 0 {
        Seq::empty()
    } else {
        seq![read_at(tokens, p)] + reads_from(tokens, p + 1, (k - 1) as nat)
    }
}

/// Transaction symmetry: what a run of reads observes is a function of the
/// token sequence and the starting position alone. Since a rollback restores
/// the cursor to the checkpointed position and leaves the tokens untouched,
/// the reads after a rollback reproduce, token for token, the sequence that
/// reads taken directly from the checkpointed position observe.
pub proof fn lemma_transaction_symmetry(tokens: Seq<Token>, p: int, k: nat)
    ensures
        reads_from(tokens, p, k) == Seq::new(k, |i: int| read_at(tokens, p + i)),
    decreases k,
{
    if k == 0 {
        assert(reads_from(tokens, p, k) =~= Seq::new(k, |i: int| read_at(tokens, p + i)));
    } else {
        lemma_transaction_symmetry(tokens, p + 1, (k - 1) as nat);
        assert(reads_from(tokens, p, k) =~= Seq::new(k, |i: int| read_at(tokens, p + i)));
    }
}

} // verus!
