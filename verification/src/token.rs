//! The flat token model that the grammar and the generated code are stated
//! over.
//!
//! A token sequence is the library's image of the host compiler's token
//! stream: identifiers, literals, punctuation (with a "joint" flag for
//! multi-character operators such as `::`), and the opening and closing
//! halves of delimited groups, flattened in source order.

use vstd::prelude::*;

verus! {

/// The delimiter kind of a bracketed group.
#[derive(Clone, Copy, PartialEq, Eq, Structural)]
pub enum Delim {
    Paren,
    Bracket,
    Brace,
}

/// One token of the flat token model.
pub enum Tok {
    /// An identifier or keyword, including the wildcard placeholder `_`.
    Ident(String),
    /// A literal, kept as its source text (quotes and suffixes included).
    Lit(String),
    /// A punctuation character; the flag is true when the character is glued
    /// to the following token (as in the first colon of `::`).
    Punct(char, bool),
    /// The opening half of a delimited group.
    Open(Delim),
    /// The closing half of a delimited group.
    Close(Delim),
}

/// Specification-level image of [`Tok`]: the same shape over `Seq<char>`.
pub enum TokV {
    Ident(Seq<char>),
    Lit(Seq<char>),
    Punct(char, bool),
    Open(Delim),
    Close(Delim),
}

impl DeepView for Tok {
    type V = TokV;

    open spec fn deep_view(&self) -> TokV {
        match self {
            Tok::Ident(s) => TokV::Ident(s@),
            Tok::Lit(s) => TokV::Lit(s@),
            Tok::Punct(c, joint) => TokV::Punct(*c, *joint),
            Tok::Open(d) => TokV::Open(*d),
            Tok::Close(d) => TokV::Close(*d),
        }
    }
}

/// Holds when `t` is the identifier token spelled `kw`.
pub open spec fn is_ident_v(t: TokV, kw: Seq<char>) -> bool {
    t == TokV::Ident(kw)
}

/// Holds when `t` is the punctuation character `c`, joint or not.
pub open spec fn is_punct_v(t: TokV, c: char) -> bool {
    match t {
        TokV::Punct(cc, _) => cc == c,
        _ => false,
    }
}

/// Tests whether a token is the identifier spelled `kw`.
pub fn is_ident(t: &Tok, kw: &str) -> (r: bool)
    ensures
        r == is_ident_v(t.deep_view(), kw@),
{
    match t {
        Tok::Ident(s) => *s == kw.to_owned(),
        _ => false,
    }
}

/// Tests whether a token is the punctuation character `c` (joint or not).
pub fn is_punct(t: &Tok, c: char) -> (r: bool)
    ensures
        r == is_punct_v(t.deep_view(), c),
{
    match t {
        Tok::Punct(cc, _) => *cc == c,
        _ => false,
    }
}

/// Tests whether a token opens a group with delimiter `d`.
pub fn is_open(t: &Tok, d: Delim) -> (r: bool)
    ensures
        r == (t.deep_view() == TokV::Open(d)),
{
    match t {
        Tok::Open(dd) => *dd == d,
        _ => false,
    }
}

/// Tests whether a token closes a group with delimiter `d`.
pub fn is_close(t: &Tok, d: Delim) -> (r: bool)
    ensures
        r == (t.deep_view() == TokV::Close(d)),
{
    match t {
        Tok::Close(dd) => *dd == d,
        _ => false,
    }
}

/// Copies one token; the copy has the same view.
pub fn tok_clone(t: &Tok) -> (r: Tok)
    ensures
        r.deep_view() == t.deep_view(),
{
    match t {
        Tok::Ident(s) => Tok::Ident(s.clone()),
        Tok::Lit(s) => Tok::Lit(s.clone()),
        Tok::Punct(c, joint) => Tok::Punct(*c, *joint),
        Tok::Open(d) => Tok::Open(*d),
        Tok::Close(d) => Tok::Close(*d),
    }
}

/// Copies a token sequence; the copy has the same view.
pub fn toks_clone(v: &Vec<Tok>) -> (r: Vec<Tok>)
    ensures
        r.deep_view() == v.deep_view(),
{
    let mut out: Vec<Tok> = Vec::new();
    let mut i: usize = 0;
    while i < v.len()
        invariant
            0 <= i <= v.len(),
            out@.len() == i,
            forall|j: int| 0 <= j < i ==> (#[trigger] out@[j]).deep_view() == v@[j].deep_view(),
        decreases v.len() - i,
    {
        out.push(tok_clone(&v[i]));
        i = i + 1;
    }
    assert(out.deep_view() =~= v.deep_view());
    out
}

/// Copies a sequence of attribute token lists; the copy has the same view.
pub fn attrs_clone(v: &Vec<Vec<Tok>>) -> (r: Vec<Vec<Tok>>)
    ensures
        r.deep_view() == v.deep_view(),
{
    let mut out: Vec<Vec<Tok>> = Vec::new();
    let mut i: usize = 0;
    while i < v.len()
        invariant
            0 <= i <= v.len(),
            out@.len() == i,
            forall|j: int| 0 <= j < i ==> (#[trigger] out@[j]).deep_view() == v@[j].deep_view(),
        decreases v.len() - i,
    {
        out.push(toks_clone(&v[i]));
        i = i + 1;
    }
    assert(out.deep_view() =~= v.deep_view());
    out
}

/// Copies a slice `[from, to)` of a token sequence.
pub fn toks_subrange(v: &Vec<Tok>, from: usize, to: usize) -> (r: Vec<Tok>)
    requires
        from <= to <= v.len(),
    ensures
        r.deep_view() == v.deep_view().subrange(from as int, to as int),
{
    let mut out: Vec<Tok> = Vec::new();
    let mut i: usize = from;
    while i < to
        invariant
            from <= i <= to <= v.len(),
            out@.len() == i - from,
            forall|j: int|
                0 <= j < i - from ==> (#[trigger] out@[j]).deep_view() == v@[from + j].deep_view(),
        decreases to - i,
    {
        out.push(tok_clone(&v[i]));
        i = i + 1;
    }
    assert(out.deep_view() =~= v.deep_view().subrange(from as int, to as int));
    out
}

} // verus!
