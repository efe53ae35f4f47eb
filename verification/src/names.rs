//! Qualified names and the per-schema namespace resolver.
//!
//! A resolver is built once per schema from its `xmlns:*` declarations plus
//! the externally supplied target namespace. The reserved prefixes `xml` and
//! `xmlns` are pre-bound to fixed sentinel identifiers and may not be
//! redeclared. An absent prefix resolves to the default namespace, which is
//! the schema's target namespace.

use vstd::prelude::*;

use crate::errors::{ErrorKind, ParseError};
use crate::text::{opt_view, str_eq, view_pairs};

verus! {

/// A namespace-qualified name as written: an optional prefix and the local
/// part.
#[derive(Debug, Clone, PartialEq, Eq)]
pub struct QName(pub Option<String>, pub String);

impl View for QName {
    type V = (Option<Seq<char>>, Seq<char>);

    open spec fn view(&self) -> Self::V {
        (opt_view(self.0), self.1@)
    }
}

/// A fully resolved name: the namespace identifier and the local part.
#[derive(Debug, Clone, Hash, PartialEq, Eq)]
pub struct FullName(pub String, pub String);

impl View for FullName {
    type V = (Seq<char>, Seq<char>);

    open spec fn view(&self) -> Self::V {
        (self.0@, self.1@)
    }
}

impl FullName {
    pub fn new(ns: String, name: String) -> (r: FullName)
        ensures
            r@ == (ns@, name@),
    {
        FullName(ns, name)
    }

    pub fn as_tuple(&self) -> (r: (&str, &str))
        ensures
            r.0@ == self@.0,
            r.1@ == self@.1,
    {
        (self.0.as_str(), self.1.as_str())
    }
}

/// The first position at or after `i` holding a colon.
pub open spec fn first_colon(s: Seq<char>, i: int) -> Option<int>
    decreases s.len() - i,
{
    if i < 0 || i >= s.len() {
        None
    } else if s[i] == ':' {
        Some(i)
    } else {
        first_colon(s, i + 1)
    }
}

proof fn lemma_first_colon_found(s: Seq<char>, a: int, k: int)
    requires
        0 <= a <= k < s.len(),
        forall|j: int| a <= j < k ==> s[j] != ':',
        s[k] == ':',
    ensures
        first_colon(s, a) == Some(k),
    decreases k - a,
{
    if a < k {
        lemma_first_colon_found(s, a + 1, k);
    }
}

proof fn lemma_first_colon_none(s: Seq<char>, a: int)
    requires
        0 <= a,
        forall|j: int| a <= j < s.len() ==> s[j] != ':',
    ensures
        first_colon(s, a) is None,
    decreases s.len() - a,
{
    if a < s.len() {
        lemma_first_colon_none(s, a + 1);
    }
}

/// What splitting a qualified-name text yields. A bare name has no colon and
/// no prefix; a prefixed name has exactly one colon with nonempty parts on
/// both sides. Anything else is malformed.
pub open spec fn split_id_spec(s: Seq<char>) -> Result<(Option<Seq<char>>, Seq<char>), ErrorKind> {
    match first_colon(s, 0) {
        None => if s.len() == 0 {
            Err(ErrorKind::MalformedName)
        } else {
            Ok((None, s))
        },
        Some(k) => if k == 0 || k == s.len() - 1 || first_colon(s, k + 1) is Some {
            Err(ErrorKind::MalformedName)
        } else {
            Ok((Some(s.subrange(0, k)), s.subrange(k + 1, s.len() as int)))
        },
    }
}

/// The first colon at or after `from`, as an index into the characters of
/// `s`.
fn find_colon(s: &str, from: usize) -> (r: Option<usize>)
    requires
        from <= s@.len(),
    ensures
        match r {
            Some(k) => from <= k < s@.len() && first_colon(s@, from as int) == Some(k as int),
            None => first_colon(s@, from as int) is None,
        },
{
    let n = s.unicode_len();
    let mut i: usize = from;
    while i < n
        invariant
            from <= i <= n,
            n == s@.len(),
            forall|j: int| from <= j < i ==> s@[j] != ':',
        decreases n - i,
    {
        if s.get_char(i) == ':' {
            proof {
                lemma_first_colon_found(s@, from as int, i as int);
            }
            return Some(i);
        }
        i = i + 1;
    }
    proof {
        lemma_first_colon_none(s@, from as int);
    }
    None
}

/// Splits a qualified-name text into its optional prefix and local part.
pub fn split_id(s: &str) -> (r: Result<(Option<String>, String), ParseError>)
    ensures
        match split_id_spec(s@) {
            Ok(parts) => r is Ok && opt_view(r->Ok_0.0) == parts.0 && r->Ok_0.1@ == parts.1,
            Err(k) => r is Err && r->Err_0.kind() == k,
        },
{
    let n = s.unicode_len();
    match find_colon(s, 0) {
        None => {
            if n == 0 {
                Err(ParseError::MalformedName { text: s.to_owned() })
            } else {
                Ok((None, s.to_owned()))
            }
        },
        Some(k) => {
            if k == 0 || k == n - 1 {
                return Err(ParseError::MalformedName { text: s.to_owned() });
            }
            match find_colon(s, k + 1) {
                Some(_) => Err(ParseError::MalformedName { text: s.to_owned() }),
                None => {
                    let prefix = s.substring_char(0, k).to_owned();
                    let local = s.substring_char(k + 1, n).to_owned();
                    Ok((Some(prefix), local))
                },
            }
        },
    }
}

/// The first binding of `p` in a prefix-to-identifier table.
pub open spec fn lookup(table: Seq<(Seq<char>, Seq<char>)>, p: Seq<char>) -> Option<Seq<char>>
    decreases table.len(),
{
    if table.len() == 0 {
        None
    } else if table[0].0 == p {
        Some(table[0].1)
    } else {
        lookup(table.drop_first(), p)
    }
}

/// The first declared prefix bound to the namespace identifier `uri`.
pub open spec fn rlookup(table: Seq<(Seq<char>, Seq<char>)>, uri: Seq<char>) -> Option<Seq<char>>
    decreases table.len(),
{
    if table.len() == 0 {
        None
    } else if table[0].1 == uri {
        Some(table[0].0)
    } else {
        rlookup(table.drop_first(), uri)
    }
}

/// The two reserved bindings every resolver starts from.
pub open spec fn initial_table() -> Seq<(Seq<char>, Seq<char>)> {
    seq![("xml"@, "xml"@), ("xmlns"@, "xmlns"@)]
}

/// Folds declarations into a table. Redeclaring `xml` or `xmlns`, or binding
/// one prefix to two different identifiers, is fatal; repeating a consistent
/// binding is dropped.
pub open spec fn build_table(
    input: Seq<(Seq<char>, Seq<char>)>,
    acc: Seq<(Seq<char>, Seq<char>)>,
) -> Result<Seq<(Seq<char>, Seq<char>)>, ErrorKind>
    decreases input.len(),
{
    if input.len() == 0 {
        Ok(acc)
    } else {
        let p = input[0].0;
        let u = input[0].1;
        if p == "xml"@ || p == "xmlns"@ {
            Err(ErrorKind::DuplicateNamespacePrefix)
        } else {
            match lookup(acc, p) {
                Some(u0) => if u0 == u {
                    build_table(input.drop_first(), acc)
                } else {
                    Err(ErrorKind::DuplicateNamespacePrefix)
                },
                None => build_table(input.drop_first(), acc.push((p, u))),
            }
        }
    }
}

/// How an optional prefix resolves against a table and a default namespace.
pub open spec fn expand_qname_spec(
    table: Seq<(Seq<char>, Seq<char>)>,
    default_ns: Seq<char>,
    q: (Option<Seq<char>>, Seq<char>),
) -> Result<(Seq<char>, Seq<char>), ErrorKind> {
    match q.0 {
        None => Ok((default_ns, q.1)),
        Some(p) => match lookup(table, p) {
            Some(u) => Ok((u, q.1)),
            None => Err(ErrorKind::UnknownPrefix),
        },
    }
}

/// Splitting and resolving a qualified-name text in one step.
pub open spec fn parse_qname_spec(
    table: Seq<(Seq<char>, Seq<char>)>,
    default_ns: Seq<char>,
    s: Seq<char>,
) -> Result<(Seq<char>, Seq<char>), ErrorKind> {
    match split_id_spec(s) {
        Ok(q) => expand_qname_spec(table, default_ns, q),
        Err(k) => Err(k),
    }
}

/// Index of the first table entry whose prefix is `p`.
pub(crate) fn table_lookup(table: &Vec<(String, String)>, p: &str) -> (r: Option<usize>)
    ensures
        match r {
            Some(ix) => 0 <= ix < table@.len() && table@[ix as int].0@ == p@ && lookup(
                view_pairs(table@),
                p@,
            ) == Some(table@[ix as int].1@),
            None => lookup(view_pairs(table@), p@) is None,
        },
{
    proof {
        assert(view_pairs(table@).skip(0) =~= view_pairs(table@));
    }
    let mut i: usize = 0;
    while i < table.len()
        invariant
            0 <= i <= table@.len(),
            forall|j: int| 0 <= j < i ==> table@[j].0@ != p@,
            lookup(view_pairs(table@), p@) == lookup(view_pairs(table@).skip(i as int), p@),
        decreases table@.len() - i,
    {
        if str_eq(table[i].0.as_str(), p) {
            proof {
                let ghost pair = (table@[i as int].0@, table@[i as int].1@);
                assert(view_pairs(table@).skip(i as int)[0] == pair);
            }
            return Some(i);
        }
        proof {
            assert(view_pairs(table@).skip(i as int).drop_first() =~= view_pairs(table@).skip(
                i as int + 1,
            ));
        }
        i = i + 1;
    }
    proof {
        assert(view_pairs(table@).skip(i as int).len() == 0);
    }
    None
}

/// Index of the first table entry whose identifier is `uri`.
fn table_rlookup(table: &Vec<(String, String)>, uri: &str) -> (r: Option<usize>)
    ensures
        match r {
            Some(ix) => 0 <= ix < table@.len() && table@[ix as int].1@ == uri@ && rlookup(
                view_pairs(table@),
                uri@,
            ) == Some(table@[ix as int].0@),
            None => rlookup(view_pairs(table@), uri@) is None,
        },
{
    proof {
        assert(view_pairs(table@).skip(0) =~= view_pairs(table@));
    }
    let mut i: usize = 0;
    while i < table.len()
        invariant
            0 <= i <= table@.len(),
            forall|j: int| 0 <= j < i ==> table@[j].1@ != uri@,
            rlookup(view_pairs(table@), uri@) == rlookup(view_pairs(table@).skip(i as int), uri@),
        decreases table@.len() - i,
    {
        if str_eq(table[i].1.as_str(), uri) {
            proof {
                let ghost pair = (table@[i as int].0@, table@[i as int].1@);
                assert(view_pairs(table@).skip(i as int)[0] == pair);
            }
            return Some(i);
        }
        proof {
            assert(view_pairs(table@).skip(i as int).drop_first() =~= view_pairs(table@).skip(
                i as int + 1,
            ));
        }
        i = i + 1;
    }
    proof {
        assert(view_pairs(table@).skip(i as int).len() == 0);
    }
    None
}

/// The per-schema namespace resolver: declared prefix bindings, the target
/// namespace, and the default namespace an absent prefix resolves to.
#[derive(Debug)]
pub struct Namespaces {
    pub target_namespace: String,
    pub namespaces: Vec<(String, String)>,
    pub default_namespace: String,
}

impl Namespaces {
    /// The resolver's table, as views.
    pub open spec fn table(&self) -> Seq<(Seq<char>, Seq<char>)> {
        view_pairs(self.namespaces@)
    }

    /// Builds a resolver from declared bindings and the target namespace.
    /// Redeclaring `xml` or `xmlns`, or declaring one prefix twice
    /// inconsistently, is a fatal configuration error.
    pub fn new(namespaces: Vec<(String, String)>, target_namespace: String) -> (r: Result<
        Namespaces,
        ParseError,
    >)
        ensures
            match build_table(view_pairs(namespaces@), initial_table()) {
                Ok(table) => r is Ok && {
                    let ns = r->Ok_0;
                    &&& ns.table() == table
                    &&& ns.target_namespace@ == target_namespace@
                    &&& ns.default_namespace@ == target_namespace@
                },
                Err(k) => r is Err && r->Err_0.kind() == k,
            },
    {
        let mut table: Vec<(String, String)> = Vec::new();
        table.push((String::from_str("xml"), String::from_str("xml")));
        table.push((String::from_str("xmlns"), String::from_str("xmlns")));
        proof {
            assert(view_pairs(table@) =~= initial_table());
            assert(view_pairs(namespaces@).skip(0) =~= view_pairs(namespaces@));
        }
        let mut i: usize = 0;
        while i < namespaces.len()
            invariant
                0 <= i <= namespaces@.len(),
                build_table(view_pairs(namespaces@).skip(i as int), view_pairs(table@))
                    == build_table(view_pairs(namespaces@), initial_table()),
            decreases namespaces@.len() - i,
        {
            proof {
                let ghost pair = (namespaces@[i as int].0@, namespaces@[i as int].1@);
                assert(view_pairs(namespaces@).skip(i as int)[0] == pair);
                assert(view_pairs(namespaces@).skip(i as int).drop_first() =~= view_pairs(
                    namespaces@,
                ).skip(i as int + 1));
            }
            let p = &namespaces[i].0;
            let u = &namespaces[i].1;
            if str_eq(p.as_str(), "xml") || str_eq(p.as_str(), "xmlns") {
                return Err(ParseError::DuplicateNamespacePrefix { prefix: p.clone() });
            }
            match table_lookup(&table, p.as_str()) {
                Some(ix) => {
                    if !str_eq(table[ix].1.as_str(), u.as_str()) {
                        return Err(ParseError::DuplicateNamespacePrefix { prefix: p.clone() });
                    }
                },
                None => {
                    let ghost tpre = table@;
                    table.push((p.clone(), u.clone()));
                    proof {
                        assert(view_pairs(table@) =~= view_pairs(tpre).push((p@, u@)));
                    }
                },
            }
            i = i + 1;
        }
        proof {
            assert(view_pairs(namespaces@).skip(i as int).len() == 0);
        }
        Ok(
            Namespaces {
                target_namespace: target_namespace.clone(),
                namespaces: table,
                default_namespace: target_namespace,
            },
        )
    }

    /// Resolves an optional prefix: an explicit prefix is looked up in the
    /// declared table; an absent prefix resolves to the default namespace.
    pub fn expand_prefix(&self, prefix: Option<&str>) -> (r: Result<String, ParseError>)
        ensures
            match prefix {
                None => r is Ok && r->Ok_0@ == self.default_namespace@,
                Some(p) => match lookup(self.table(), p@) {
                    Some(u) => r is Ok && r->Ok_0@ == u,
                    None => r is Err && r->Err_0.kind() == ErrorKind::UnknownPrefix,
                },
            },
    {
        match prefix {
            None => Ok(self.default_namespace.clone()),
            Some(p) => match table_lookup(&self.namespaces, p) {
                Some(ix) => Ok(self.namespaces[ix].1.clone()),
                None => Err(ParseError::UnknownPrefix { prefix: p.to_owned() }),
            },
        }
    }

    /// Expands a qualified name into a canonical (namespace, local) pair.
    pub fn expand_qname(&self, qname: &QName) -> (r: Result<FullName, ParseError>)
        ensures
            match expand_qname_spec(self.table(), self.default_namespace@, qname@) {
                Ok(f) => r is Ok && r->Ok_0@ == f,
                Err(k) => r is Err && r->Err_0.kind() == k,
            },
    {
        let ns = match &qname.0 {
            None => self.expand_prefix(None)?,
            Some(p) => self.expand_prefix(Some(p.as_str()))?,
        };
        Ok(FullName(ns, qname.1.clone()))
    }

    /// Splits a qualified-name text and expands it in one step.
    pub fn parse_qname(&self, s: &str) -> (r: Result<FullName, ParseError>)
        ensures
            match parse_qname_spec(self.table(), self.default_namespace@, s@) {
                Ok(f) => r is Ok && r->Ok_0@ == f,
                Err(k) => r is Err && r->Err_0.kind() == k,
            },
    {
        let parts = split_id(s)?;
        let q = QName(parts.0, parts.1);
        self.expand_qname(&q)
    }

    /// Structural equality of two qualified names after both are expanded:
    /// same local name and same resolved namespace.
    pub fn qname_eq(&self, a: &QName, b: &QName) -> (r: Result<bool, ParseError>)
        ensures
            match r {
                Ok(eq) => {
                    &&& a@.1 != b@.1 ==> eq == false
                    &&& a@.1 == b@.1 ==> {
                        &&& expand_qname_spec(self.table(), self.default_namespace@, a@) is Ok
                        &&& expand_qname_spec(self.table(), self.default_namespace@, b@) is Ok
                        &&& eq == (expand_qname_spec(self.table(), self.default_namespace@, a@)
                            == expand_qname_spec(self.table(), self.default_namespace@, b@))
                    }
                },
                Err(e) => a@.1 == b@.1 && e.kind() == ErrorKind::UnknownPrefix && (
                expand_qname_spec(self.table(), self.default_namespace@, a@) is Err
                    || expand_qname_spec(self.table(), self.default_namespace@, b@) is Err),
            },
    {
        if !str_eq(a.1.as_str(), b.1.as_str()) {
            return Ok(false);
        }
        let ua = match &a.0 {
            None => self.expand_prefix(None)?,
            Some(p) => self.expand_prefix(Some(p.as_str()))?,
        };
        let ub = match &b.0 {
            None => self.expand_prefix(None)?,
            Some(p) => self.expand_prefix(Some(p.as_str()))?,
        };
        Ok(str_eq(ua.as_str(), ub.as_str()))
    }

    /// Reverse lookup from a namespace identifier back to a declared prefix,
    /// used for naming hints; a namespace no declared prefix maps to yields
    /// the fixed fallback token.
    pub fn get_module_name(&self, qname: &FullName) -> (r: String)
        ensures
            match rlookup(self.table(), qname@.0) {
                Some(p) => r@ == p,
                None => r@ == "UNQUAL"@,
            },
    {
        match table_rlookup(&self.namespaces, qname.0.as_str()) {
            Some(ix) => self.namespaces[ix].0.clone(),
            None => String::from_str("UNQUAL"),
        }
    }

    /// Joins a hint's tokens with underscores, escaping reserved words; an
    /// empty hint yields nothing.
    pub fn name_from_hint(&self, hint: &NameHint) -> (r: Option<String>)
        ensures
            hint@.len() == 0 ==> r is None,
            hint@.len() > 0 ==> r is Some && r->Some_0@ == join_hint(hint@),
    {
        if hint.tokens.len() == 0 {
            return None;
        }
        let mut out: String = escape_keyword(hint.tokens[0].as_str());
        let mut i: usize = 1;
        while i < hint.tokens.len()
            invariant
                1 <= i <= hint@.len(),
                out@ == join_hint(hint@.subrange(0, i as int)),
            decreases hint@.len() - i,
        {
            proof {
                lemma_join_hint_snoc(hint@.subrange(0, i as int), hint@[i as int]);
                assert(hint@.subrange(0, i as int).push(hint@[i as int]) =~= hint@.subrange(
                    0,
                    i as int + 1,
                ));
            }
            out.append("_");
            let e = escape_keyword(hint.tokens[i].as_str());
            out.append(e.as_str());
            i = i + 1;
        }
        proof {
            assert(hint@.subrange(0, hint@.len() as int) =~= hint@);
        }
        Some(out)
    }
}

/// A reserved word gets a trailing underscore; anything else is unchanged.
pub open spec fn escape_spec(s: Seq<char>) -> Seq<char> {
    if s == "override"@ {
        s + "_"@
    } else {
        s
    }
}

/// Hint tokens joined with underscores, each escaped.
pub open spec fn join_hint(parts: Seq<Seq<char>>) -> Seq<char>
    decreases parts.len(),
{
    if parts.len() == 0 {
        Seq::empty()
    } else if parts.len() == 1 {
        escape_spec(parts[0])
    } else {
        escape_spec(parts[0]) + "_"@ + join_hint(parts.drop_first())
    }
}

proof fn lemma_join_hint_snoc(parts: Seq<Seq<char>>, x: Seq<char>)
    requires
        parts.len() >= 1,
    ensures
        join_hint(parts.push(x)) == join_hint(parts) + "_"@ + escape_spec(x),
    decreases parts.len(),
{
    if parts.len() == 1 {
        assert(parts.push(x).drop_first() =~= seq![x]);
        assert(parts.push(x)[0] == parts[0]);
        assert(join_hint(seq![x]) == escape_spec(x));
        assert(join_hint(parts.push(x)) == escape_spec(parts[0]) + "_"@ + escape_spec(x));
    } else {
        lemma_join_hint_snoc(parts.drop_first(), x);
        assert(parts.push(x).drop_first() =~= parts.drop_first().push(x));
        assert(join_hint(parts) + "_"@ + escape_spec(x) =~= escape_spec(parts[0]) + "_"@ + (
        join_hint(parts.drop_first()) + "_"@ + escape_spec(x)));
    }
}

/// Escapes a name that collides with a reserved word of the downstream
/// target language.
pub fn escape_keyword(name: &str) -> (r: String)
    ensures
        r@ == escape_spec(name@),
{
    if str_eq(name, "override") {
        let s = name.to_owned();
        s.concat("_")
    } else {
        name.to_owned()
    }
}

/// An accumulated naming hint for anonymous constructs.
#[derive(Debug, Clone)]
pub struct NameHint {
    tokens: Vec<String>,
}

impl View for NameHint {
    type V = Seq<Seq<char>>;

    closed spec fn view(&self) -> Self::V {
        self.tokens@.map_values(|s: String| s@)
    }
}

impl NameHint {
    /// A hint with no tokens.
    pub fn new_empty() -> (r: NameHint)
        ensures
            r@ =~= Seq::<Seq<char>>::empty(),
    {
        NameHint { tokens: Vec::new() }
    }

    /// A hint with one token.
    pub fn new(s: &str) -> (r: NameHint)
        ensures
            r@ =~= seq![s@],
    {
        let mut tokens: Vec<String> = Vec::new();
        tokens.push(s.to_owned());
        NameHint { tokens }
    }

    /// A hint seeded with a resolved name's local part.
    pub fn from_fullname(name: &FullName) -> (r: NameHint)
        ensures
            r@ =~= seq![name@.1],
    {
        let mut tokens: Vec<String> = Vec::new();
        tokens.push(name.1.clone());
        NameHint { tokens }
    }

    /// Appends one token to the hint.
    pub fn push(&mut self, s: &str)
        ensures
            final(self)@ =~= old(self)@.push(s@),
    {
        self.tokens.push(s.to_owned());
    }

    /// Appends another hint's tokens to this one.
    pub fn extend(&mut self, other: &NameHint)
        ensures
            final(self)@ =~= old(self)@ + other@,
    {
        let ghost orig = self.tokens@;
        let mut i: usize = 0;
        while i < other.tokens.len()
            invariant
                0 <= i <= other.tokens@.len(),
                self.tokens@ =~= orig + other.tokens@.subrange(0, i as int),
            decreases other.tokens@.len() - i,
        {
            self.tokens.push(other.tokens[i].clone());
            proof {
                assert(self.tokens@ =~= orig + other.tokens@.subrange(0, i as int + 1));
            }
            i = i + 1;
        }
        proof {
            assert(other.tokens@.subrange(0, other.tokens@.len() as int) =~= other.tokens@);
            assert(final(self)@ =~= old(self)@ + other@);
        }
    }
}

} // verus!
