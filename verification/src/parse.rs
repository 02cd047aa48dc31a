//! The table-enum grammar.
//!
//! The accepted shape is
//!
//! ```text
//! [#[attr]]* [pub | pub(...)] enum Name ( field (, field)* ,? ) {
//!     Variant ( value (, value)* ,? ) (, Variant(...))* ,?
//! }
//! field := [#[tag]]* ident : type
//! value := expression | _
//! ```
//!
//! with no tokens allowed after the record list.  Lists split at commas that
//! stand outside any delimited group; a record must supply exactly one value
//! per field.  The specification functions below define the grammar; the
//! executable parser is proved to return exactly what they say.

use vstd::prelude::*;

use crate::table::{Diag, FieldSpec, FieldV, RecordSpec, RecordV, TableSpec, TableV, ValueExpr,
    ValueV};
use crate::token::{is_close, is_ident, is_open, is_punct, toks_subrange, Delim, Tok, TokV};

verus! {

/// Position of the first group-closing token at nesting depth zero, scanning
/// from `i`; `None` when the sequence ends first.
pub open spec fn find_close_v(s: Seq<TokV>, i: int, depth: nat) -> Option<int>
    decreases s.len() - i,
{
    if i < 0 || i >= s.len() {
        None
    } else {
        match s[i] {
            TokV::Open(_) => find_close_v(s, i + 1, depth + 1),
            TokV::Close(_) => if depth == 0 {
                Some(i)
            } else {
                find_close_v(s, i + 1, (depth - 1) as nat)
            },
            _ => find_close_v(s, i + 1, depth),
        }
    }
}

/// Position of the first comma at nesting depth zero, scanning from `i`;
/// the sequence's length when there is none.
pub open spec fn find_comma_v(s: Seq<TokV>, i: int, depth: nat) -> int
    decreases s.len() - i,
{
    if i < 0 || i >= s.len() {
        s.len() as int
    } else {
        match s[i] {
            TokV::Open(_) => find_comma_v(s, i + 1, depth + 1),
            TokV::Close(_) => find_comma_v(
                s,
                i + 1,
                if depth == 0 { 0 } else { (depth - 1) as nat },
            ),
            TokV::Punct(c, _) => if c == ',' && depth == 0 {
                i
            } else {
                find_comma_v(s, i + 1, depth)
            },
            _ => find_comma_v(s, i + 1, depth),
        }
    }
}

/// The outer attributes standing at `i`: the token list of each `#[...]`
/// group, in order, together with the position after the last one.
pub open spec fn parse_attrs_v(s: Seq<TokV>, i: int) -> Result<(Seq<Seq<TokV>>, int), Diag>
    decreases s.len() - i,
{
    if i < 0 || i >= s.len() || !(s[i] matches TokV::Punct(c, _) && c == '#') {
        Ok((Seq::empty(), i))
    } else if i + 1 < s.len() && s[i + 1] == TokV::Open(Delim::Bracket) {
        match find_close_v(s, i + 2, 0) {
            Some(j) => if i + 2 <= j < s.len() && s[j] == TokV::Close(Delim::Bracket) {
                match parse_attrs_v(s, j + 1) {
                    Ok((rest, end)) => Ok((seq![s.subrange(i + 2, j)] + rest, end)),
                    Err(d) => Err(d),
                }
            } else {
                Err(Diag::Syntax)
            },
            None => Err(Diag::Syntax),
        }
    } else {
        Err(Diag::Syntax)
    }
}

/// The visibility qualifier standing at `i` (empty when inherited), together
/// with the position after it.
pub open spec fn parse_vis_v(s: Seq<TokV>, i: int) -> Result<(Seq<TokV>, int), Diag> {
    if 0 <= i < s.len() && s[i] == TokV::Ident("pub"@) {
        if i + 1 < s.len() && s[i + 1] == TokV::Open(Delim::Paren) {
            match find_close_v(s, i + 2, 0) {
                Some(j) => if i + 2 <= j < s.len() && s[j] == TokV::Close(Delim::Paren) {
                    Ok((s.subrange(i, j + 1), j + 1))
                } else {
                    Err(Diag::Syntax)
                },
                None => Err(Diag::Syntax),
            }
        } else {
            Ok((s.subrange(i, i + 1), i + 1))
        }
    } else {
        Ok((Seq::empty(), i))
    }
}

/// One field declaration: optional modifier annotations, a name, a colon and
/// a non-empty type.  Only the first annotation's leading identifier is kept;
/// it is the field's modifier tag.
pub open spec fn parse_field_v(seg: Seq<TokV>) -> Result<FieldV, Diag> {
    match parse_attrs_v(seg, 0) {
        Err(d) => Err(d),
        Ok((attrs, i)) => {
            let tag_ok = attrs.len() == 0 || (attrs[0].len() > 0 && attrs[0][0] is Ident);
            if !tag_ok {
                Err(Diag::Syntax)
            } else if i + 1 < seg.len() && seg[i] is Ident && (seg[i + 1] matches TokV::Punct(
                c,
                _,
            ) && c == ':') && i + 2 < seg.len() {
                Ok(FieldV {
                    name: seg[i]->Ident_0,
                    tag: if attrs.len() == 0 { None } else { Some(attrs[0][0]->Ident_0) },
                    ty: seg.subrange(i + 2, seg.len() as int),
                })
            } else {
                Err(Diag::Syntax)
            }
        },
    }
}

/// The comma-separated field list inside the parenthesized group; a trailing
/// comma is accepted.
pub open spec fn parse_fields_v(s: Seq<TokV>) -> Result<Seq<FieldV>, Diag>
    decreases s.len(),
{
    if s.len() == 0 {
        Ok(Seq::empty())
    } else {
        let j = find_comma_v(s, 0, 0);
        if !(0 <= j <= s.len()) {
            Err(Diag::Syntax)
        } else {
            match parse_field_v(s.subrange(0, j)) {
                Err(d) => Err(d),
                Ok(f) => if j >= s.len() || j + 1 >= s.len() {
                    Ok(seq![f])
                } else {
                    match parse_fields_v(s.subrange(j + 1, s.len() as int)) {
                        Ok(fs) => Ok(seq![f] + fs),
                        Err(d) => Err(d),
                    }
                },
            }
        }
    }
}

/// One positional value: the lone wildcard placeholder, or a non-empty
/// expression kept as its tokens.
pub open spec fn parse_value_v(seg: Seq<TokV>) -> Result<ValueV, Diag> {
    if seg.len() == 0 {
        Err(Diag::Syntax)
    } else if seg.len() == 1 && seg[0] == TokV::Ident("_"@) {
        Ok(ValueV::Wildcard)
    } else {
        Ok(ValueV::Expr(seg))
    }
}

/// The comma-separated value list inside a record's parentheses; a trailing
/// comma is accepted.
pub open spec fn parse_values_v(s: Seq<TokV>) -> Result<Seq<ValueV>, Diag>
    decreases s.len(),
{
    if s.len() == 0 {
        Ok(Seq::empty())
    } else {
        let j = find_comma_v(s, 0, 0);
        if !(0 <= j <= s.len()) {
            Err(Diag::Syntax)
        } else {
            match parse_value_v(s.subrange(0, j)) {
                Err(d) => Err(d),
                Ok(v) => if j >= s.len() || j + 1 >= s.len() {
                    Ok(seq![v])
                } else {
                    match parse_values_v(s.subrange(j + 1, s.len() as int)) {
                        Ok(vs) => Ok(seq![v] + vs),
                        Err(d) => Err(d),
                    }
                },
            }
        }
    }
}

/// One record: a variant name followed by its parenthesized value list,
/// which must reach the end of the segment.
pub open spec fn parse_record_v(seg: Seq<TokV>) -> Result<RecordV, Diag> {
    if seg.len() >= 2 && seg[0] is Ident && seg[1] == TokV::Open(Delim::Paren) {
        match find_close_v(seg, 2, 0) {
            Some(j) => if 2 <= j && j == seg.len() - 1 && seg[j] == TokV::Close(Delim::Paren) {
                match parse_values_v(seg.subrange(2, j)) {
                    Ok(vs) => Ok(RecordV { name: seg[0]->Ident_0, values: vs }),
                    Err(d) => Err(d),
                }
            } else {
                Err(Diag::Syntax)
            },
            None => Err(Diag::Syntax),
        }
    } else {
        Err(Diag::Syntax)
    }
}

/// The comma-separated record list inside the braced group; a trailing comma
/// is accepted.
pub open spec fn parse_records_v(s: Seq<TokV>) -> Result<Seq<RecordV>, Diag>
    decreases s.len(),
{
    if s.len() == 0 {
        Ok(Seq::empty())
    } else {
        let j = find_comma_v(s, 0, 0);
        if !(0 <= j <= s.len()) {
            Err(Diag::Syntax)
        } else {
            match parse_record_v(s.subrange(0, j)) {
                Err(d) => Err(d),
                Ok(r) => if j >= s.len() || j + 1 >= s.len() {
                    Ok(seq![r])
                } else {
                    match parse_records_v(s.subrange(j + 1, s.len() as int)) {
                        Ok(rs) => Ok(seq![r] + rs),
                        Err(d) => Err(d),
                    }
                },
            }
        }
    }
}

/// Position of the first record that does not supply one value per field.
pub open spec fn first_arity_mismatch(nfields: nat, records: Seq<RecordV>, i: int) -> Option<int>
    decreases records.len() - i,
{
    if i < 0 || i >= records.len() {
        None
    } else if records[i].values.len() != nfields {
        Some(i)
    } else {
        first_arity_mismatch(nfields, records, i + 1)
    }
}

/// The whole grammar: attributes, visibility, `enum`, the name, the field
/// group, the record group, and nothing after them; then the arity check.
pub open spec fn parse_table_spec(s: Seq<TokV>) -> Result<TableV, Diag> {
    match parse_attrs_v(s, 0) {
        Err(d) => Err(d),
        Ok((attrs, i0)) => match parse_vis_v(s, i0) {
            Err(d) => Err(d),
            Ok((vis, i1)) => if i1 + 1 < s.len() && s[i1] == TokV::Ident("enum"@) && s[i1
                + 1] is Ident {
                let name = s[i1 + 1]->Ident_0;
                if i1 + 2 < s.len() && s[i1 + 2] == TokV::Open(Delim::Paren) {
                    match find_close_v(s, i1 + 3, 0) {
                        None => Err(Diag::Syntax),
                        Some(p) => if i1 + 3 <= p < s.len() && s[p] == TokV::Close(Delim::Paren)
                            && p + 1 < s.len() && s[p + 1] == TokV::Open(Delim::Brace) {
                            match find_close_v(s, p + 2, 0) {
                                None => Err(Diag::Syntax),
                                Some(q) => if p + 2 <= q && q == s.len() - 1 && s[q]
                                    == TokV::Close(Delim::Brace) {
                                    match parse_fields_v(s.subrange(i1 + 3, p)) {
                                        Err(d) => Err(d),
                                        Ok(fields) => match parse_records_v(
                                            s.subrange(p + 2, q),
                                        ) {
                                            Err(d) => Err(d),
                                            Ok(records) => match first_arity_mismatch(
                                                fields.len(),
                                                records,
                                                0,
                                            ) {
                                                Some(r) => Err(
                                                    Diag::Arity { record: r as usize },
                                                ),
                                                None => Ok(
                                                    TableV { attrs, vis, name, fields, records },
                                                ),
                                            },
                                        },
                                    }
                                } else {
                                    Err(Diag::Syntax)
                                },
                            }
                        } else {
                            Err(Diag::Syntax)
                        },
                    }
                } else {
                    Err(Diag::Syntax)
                }
            } else {
                Err(Diag::Syntax)
            },
        },
    }
}

/// When no record lacks a value, every record from `i` on has full arity.
pub proof fn lemma_no_arity_mismatch(nfields: nat, records: Seq<RecordV>, i: int)
    requires
        0 <= i,
        first_arity_mismatch(nfields, records, i) is None,
    ensures
        forall|k: int| i <= k < records.len() ==> (#[trigger] records[k]).values.len() == nfields,
    decreases records.len() - i,
{
    if i < records.len() {
        lemma_no_arity_mismatch(nfields, records, i + 1);
    }
}

/// Scans for the first group-closing token at depth zero.
fn find_close(v: &Vec<Tok>, from: usize) -> (r: Option<usize>)
    requires
        from <= v@.len(),
    ensures
        match r {
            Some(j) => Some(j as int) == find_close_v(v.deep_view(), from as int, 0) && from <= j
                < v@.len(),
            None => find_close_v(v.deep_view(), from as int, 0) is None,
        },
{
    let ghost dv = v.deep_view();
    let mut i: usize = from;
    let mut depth: usize = 0;
    while i < v.len()
        invariant
            from <= i <= v@.len(),
            depth <= i - from,
            dv == v.deep_view(),
            find_close_v(dv, from as int, 0) == find_close_v(dv, i as int, depth as nat),
        decreases v@.len() - i,
    {
        proof {
            assert(dv[i as int] == v@[i as int].deep_view());
        }
        match &v[i] {
            Tok::Open(_) => {
                depth = depth + 1;
            },
            Tok::Close(_) => {
                if depth == 0 {
                    return Some(i);
                } else {
                    depth = depth - 1;
                }
            },
            _ => {},
        }
        i = i + 1;
    }
    None
}

/// Scans for the first comma at depth zero; returns the length when none.
fn find_comma(v: &Vec<Tok>, from: usize) -> (r: usize)
    requires
        from <= v@.len(),
    ensures
        r as int == find_comma_v(v.deep_view(), from as int, 0),
        from <= r <= v@.len(),
{
    let ghost dv = v.deep_view();
    let mut i: usize = from;
    let mut depth: usize = 0;
    while i < v.len()
        invariant
            from <= i <= v@.len(),
            depth <= i - from,
            dv == v.deep_view(),
            find_comma_v(dv, from as int, 0) == find_comma_v(dv, i as int, depth as nat),
        decreases v@.len() - i,
    {
        proof {
            assert(dv[i as int] == v@[i as int].deep_view());
        }
        match &v[i] {
            Tok::Open(_) => {
                depth = depth + 1;
            },
            Tok::Close(_) => {
                if depth > 0 {
                    depth = depth - 1;
                }
            },
            Tok::Punct(c, _) => {
                if *c == ',' && depth == 0 {
                    return i;
                }
            },
            _ => {},
        }
        i = i + 1;
    }
    v.len()
}

/// Collects the outer attributes standing at `from`.
fn parse_attrs(v: &Vec<Tok>, from: usize) -> (r: Result<(Vec<Vec<Tok>>, usize), Diag>)
    requires
        from <= v@.len(),
    ensures
        match r {
            Ok(p) => parse_attrs_v(v.deep_view(), from as int) == Ok::<_, Diag>(
                (p.0.deep_view(), p.1 as int),
            ) && from <= p.1 <= v@.len(),
            Err(d) => parse_attrs_v(v.deep_view(), from as int) == Err::<(Seq<Seq<TokV>>, int),
                _,
            >(d),
        },
    decreases v@.len() - from,
{
    let ghost dv = v.deep_view();
    if from >= v.len() || !is_punct(&v[from], '#') {
        proof {
            if from < v@.len() {
                assert(dv[from as int] == v@[from as int].deep_view());
            }
        }
        let out: Vec<Vec<Tok>> = Vec::new();
        assert(out.deep_view() =~= Seq::<Seq<TokV>>::empty());
        return Ok((out, from));
    }
    proof {
        assert(dv[from as int] == v@[from as int].deep_view());
    }
    if from + 1 < v.len() && is_open(&v[from + 1], Delim::Bracket) {
        proof {
            assert(dv[from + 1] == v@[from + 1].deep_view());
        }
        match find_close(v, from + 2) {
            Some(j) => {
                if is_close(&v[j], Delim::Bracket) {
                    proof {
                        assert(dv[j as int] == v@[j as int].deep_view());
                    }
                    let inner = toks_subrange(v, from + 2, j);
                    match parse_attrs(v, j + 1) {
                        Ok((rest, end)) => {
                            let ghost rdv = rest.deep_view();
                            let mut attrs: Vec<Vec<Tok>> = Vec::new();
                            attrs.push(inner);
                            let mut rest = rest;
                            attrs.append(&mut rest);
                            proof {
                                assert(attrs.deep_view() =~= seq![
                                    dv.subrange(from + 2, j as int),
                                ] + rdv);
                            }
                            Ok((attrs, end))
                        },
                        Err(d) => Err(d),
                    }
                } else {
                    proof {
                        assert(dv[j as int] == v@[j as int].deep_view());
                    }
                    Err(Diag::Syntax)
                }
            },
            None => Err(Diag::Syntax),
        }
    } else {
        proof {
            if from + 1 < v@.len() {
                assert(dv[from + 1] == v@[from + 1].deep_view());
            }
        }
        Err(Diag::Syntax)
    }
}

/// Reads the visibility qualifier standing at `from`.
fn parse_vis(v: &Vec<Tok>, from: usize) -> (r: Result<(Vec<Tok>, usize), Diag>)
    requires
        from <= v@.len(),
    ensures
        match r {
            Ok(p) => parse_vis_v(v.deep_view(), from as int) == Ok::<_, Diag>(
                (p.0.deep_view(), p.1 as int),
            ) && from <= p.1 <= v@.len(),
            Err(d) => parse_vis_v(v.deep_view(), from as int) == Err::<(Seq<TokV>, int), _>(d),
        },
{
    let ghost dv = v.deep_view();
    if from < v.len() && is_ident(&v[from], "pub") {
        proof {
            assert(dv[from as int] == v@[from as int].deep_view());
        }
        if from + 1 < v.len() && is_open(&v[from + 1], Delim::Paren) {
            proof {
                assert(dv[from + 1] == v@[from + 1].deep_view());
            }
            match find_close(v, from + 2) {
                Some(j) => {
                    if is_close(&v[j], Delim::Paren) {
                        proof {
                            assert(dv[j as int] == v@[j as int].deep_view());
                        }
                        Ok((toks_subrange(v, from, j + 1), j + 1))
                    } else {
                        proof {
                            assert(dv[j as int] == v@[j as int].deep_view());
                        }
                        Err(Diag::Syntax)
                    }
                },
                None => Err(Diag::Syntax),
            }
        } else {
            proof {
                if from + 1 < v@.len() {
                    assert(dv[from + 1] == v@[from + 1].deep_view());
                }
            }
            Ok((toks_subrange(v, from, from + 1), from + 1))
        }
    } else {
        proof {
            if from < v@.len() {
                assert(dv[from as int] == v@[from as int].deep_view());
            }
        }
        let out: Vec<Tok> = Vec::new();
        assert(out.deep_view() =~= Seq::<TokV>::empty());
        Ok((out, from))
    }
}

/// Parses one field declaration from its comma-delimited segment.
fn parse_field(seg: &Vec<Tok>) -> (r: Result<FieldSpec, Diag>)
    ensures
        match r {
            Ok(f) => parse_field_v(seg.deep_view()) == Ok::<FieldV, Diag>(f.deep_view()),
            Err(d) => parse_field_v(seg.deep_view()) == Err::<FieldV, Diag>(d),
        },
{
    let ghost dv = seg.deep_view();
    match parse_attrs(seg, 0) {
        Err(d) => Err(d),
        Ok((attrs, i)) => {
            let tag: Option<String>;
            if attrs.len() == 0 {
                tag = None;
            } else {
                proof {
                    assert(attrs.deep_view()[0] == attrs@[0].deep_view());
                }
                let a0 = &attrs[0];
                if a0.len() > 0 {
                    proof {
                        assert(a0.deep_view()[0] == a0@[0].deep_view());
                    }
                    match &a0[0] {
                        Tok::Ident(s) => {
                            tag = Some(s.clone());
                        },
                        _ => {
                            return Err(Diag::Syntax);
                        },
                    }
                } else {
                    return Err(Diag::Syntax);
                }
            }
            proof {
                if i + 1 < dv.len() {
                    assert(dv[i as int] == seg@[i as int].deep_view());
                    assert(dv[i + 1] == seg@[i + 1].deep_view());
                }
            }
            if i < seg.len() && seg.len() - i > 2 && is_punct(&seg[i + 1], ':') {
                match &seg[i] {
                    Tok::Ident(name) => Ok(
                        FieldSpec {
                            name: name.clone(),
                            tag,
                            ty: toks_subrange(seg, i + 2, seg.len()),
                        },
                    ),
                    _ => Err(Diag::Syntax),
                }
            } else {
                Err(Diag::Syntax)
            }
        },
    }
}

/// Parses the comma-separated field list.
fn parse_fields(v: &Vec<Tok>) -> (r: Result<Vec<FieldSpec>, Diag>)
    ensures
        match r {
            Ok(fs) => parse_fields_v(v.deep_view()) == Ok::<_, Diag>(fs.deep_view()),
            Err(d) => parse_fields_v(v.deep_view()) == Err::<Seq<FieldV>, _>(d),
        },
    decreases v@.len(),
{
    let ghost dv = v.deep_view();
    if v.len() == 0 {
        let out: Vec<FieldSpec> = Vec::new();
        assert(out.deep_view() =~= Seq::<FieldV>::empty());
        return Ok(out);
    }
    let j = find_comma(v, 0);
    let seg = toks_subrange(v, 0, j);
    match parse_field(&seg) {
        Err(d) => Err(d),
        Ok(f) => {
            if j >= v.len() - 1 {
                let mut out: Vec<FieldSpec> = Vec::new();
                out.push(f);
                assert(out.deep_view() =~= seq![out@[0].deep_view()]);
                Ok(out)
            } else {
                let rest = toks_subrange(v, j + 1, v.len());
                proof {
                    assert(rest@.len() == rest.deep_view().len());
                    assert(rest@.len() < v@.len());
                }
                match parse_fields(&rest) {
                    Err(d) => Err(d),
                    Ok(fs) => {
                        let ghost fdv = f.deep_view();
                        let ghost rdv = fs.deep_view();
                        let mut out: Vec<FieldSpec> = Vec::new();
                        out.push(f);
                        let mut fs = fs;
                        out.append(&mut fs);
                        proof {
                            assert(out.deep_view() =~= seq![fdv] + rdv);
                        }
                        Ok(out)
                    },
                }
            }
        },
    }
}

/// Classifies one comma-delimited value segment, consuming it.
fn parse_value(seg: Vec<Tok>) -> (r: Result<ValueExpr, Diag>)
    ensures
        match r {
            Ok(val) => parse_value_v(seg.deep_view()) == Ok::<ValueV, Diag>(val.deep_view()),
            Err(d) => parse_value_v(seg.deep_view()) == Err::<ValueV, Diag>(d),
        },
{
    let ghost dv = seg.deep_view();
    if seg.len() == 0 {
        Err(Diag::Syntax)
    } else {
        proof {
            assert(dv[0] == seg@[0].deep_view());
        }
        if seg.len() == 1 && is_ident(&seg[0], "_") {
            Ok(ValueExpr::Wildcard)
        } else {
            Ok(ValueExpr::Expr(seg))
        }
    }
}

/// Parses the comma-separated value list of one record.
fn parse_values(v: &Vec<Tok>) -> (r: Result<Vec<ValueExpr>, Diag>)
    ensures
        match r {
            Ok(vs) => parse_values_v(v.deep_view()) == Ok::<_, Diag>(vs.deep_view()),
            Err(d) => parse_values_v(v.deep_view()) == Err::<Seq<ValueV>, _>(d),
        },
    decreases v@.len(),
{
    let ghost dv = v.deep_view();
    if v.len() == 0 {
        let out: Vec<ValueExpr> = Vec::new();
        assert(out.deep_view() =~= Seq::<ValueV>::empty());
        return Ok(out);
    }
    let j = find_comma(v, 0);
    let seg = toks_subrange(v, 0, j);
    match parse_value(seg) {
        Err(d) => Err(d),
        Ok(val) => {
            if j >= v.len() - 1 {
                let mut out: Vec<ValueExpr> = Vec::new();
                out.push(val);
                assert(out.deep_view() =~= seq![out@[0].deep_view()]);
                Ok(out)
            } else {
                let rest = toks_subrange(v, j + 1, v.len());
                proof {
                    assert(rest@.len() == rest.deep_view().len());
                    assert(rest@.len() < v@.len());
                }
                match parse_values(&rest) {
                    Err(d) => Err(d),
                    Ok(vs) => {
                        let ghost vdv = val.deep_view();
                        let ghost rdv = vs.deep_view();
                        let mut out: Vec<ValueExpr> = Vec::new();
                        out.push(val);
                        let mut vs = vs;
                        out.append(&mut vs);
                        proof {
                            assert(out.deep_view() =~= seq![vdv] + rdv);
                        }
                        Ok(out)
                    },
                }
            }
        },
    }
}

/// Parses one record from its comma-delimited segment.
fn parse_record(seg: &Vec<Tok>) -> (r: Result<RecordSpec, Diag>)
    ensures
        match r {
            Ok(rec) => parse_record_v(seg.deep_view()) == Ok::<RecordV, Diag>(rec.deep_view()),
            Err(d) => parse_record_v(seg.deep_view()) == Err::<RecordV, Diag>(d),
        },
{
    let ghost dv = seg.deep_view();
    proof {
        if dv.len() >= 2 {
            assert(dv[0] == seg@[0].deep_view());
            assert(dv[1] == seg@[1].deep_view());
        }
    }
    if seg.len() >= 2 && is_open(&seg[1], Delim::Paren) {
        let name: String;
        match &seg[0] {
            Tok::Ident(s) => {
                name = s.clone();
            },
            _ => {
                return Err(Diag::Syntax);
            },
        }
        match find_close(seg, 2) {
            Some(j) => {
                proof {
                    assert(dv[j as int] == seg@[j as int].deep_view());
                }
                if j == seg.len() - 1 && is_close(&seg[j], Delim::Paren) {
                    let inner = toks_subrange(seg, 2, j);
                    match parse_values(&inner) {
                        Ok(vs) => Ok(RecordSpec { name, values: vs }),
                        Err(d) => Err(d),
                    }
                } else {
                    Err(Diag::Syntax)
                }
            },
            None => Err(Diag::Syntax),
        }
    } else {
        Err(Diag::Syntax)
    }
}

/// Parses the comma-separated record list.
fn parse_records(v: &Vec<Tok>) -> (r: Result<Vec<RecordSpec>, Diag>)
    ensures
        match r {
            Ok(rs) => parse_records_v(v.deep_view()) == Ok::<_, Diag>(rs.deep_view()),
            Err(d) => parse_records_v(v.deep_view()) == Err::<Seq<RecordV>, _>(d),
        },
    decreases v@.len(),
{
    let ghost dv = v.deep_view();
    if v.len() == 0 {
        let out: Vec<RecordSpec> = Vec::new();
        assert(out.deep_view() =~= Seq::<RecordV>::empty());
        return Ok(out);
    }
    let j = find_comma(v, 0);
    let seg = toks_subrange(v, 0, j);
    match parse_record(&seg) {
        Err(d) => Err(d),
        Ok(rec) => {
            if j >= v.len() - 1 {
                let mut out: Vec<RecordSpec> = Vec::new();
                out.push(rec);
                assert(out.deep_view() =~= seq![out@[0].deep_view()]);
                Ok(out)
            } else {
                let rest = toks_subrange(v, j + 1, v.len());
                proof {
                    assert(rest@.len() == rest.deep_view().len());
                    assert(rest@.len() < v@.len());
                }
                match parse_records(&rest) {
                    Err(d) => Err(d),
                    Ok(rs) => {
                        let ghost recdv = rec.deep_view();
                        let ghost rdv = rs.deep_view();
                        let mut out: Vec<RecordSpec> = Vec::new();
                        out.push(rec);
                        let mut rs = rs;
                        out.append(&mut rs);
                        proof {
                            assert(out.deep_view() =~= seq![recdv] + rdv);
                        }
                        Ok(out)
                    },
                }
            }
        },
    }
}

/// Parses a whole table-enum description.
///
/// On success the result is well-formed: every record supplies exactly one
/// value per field.
#[verifier::loop_isolation(false)]
pub fn parse_table(v: &Vec<Tok>) -> (r: Result<TableSpec, Diag>)
    ensures
        match r {
            Ok(t) => parse_table_spec(v.deep_view()) == Ok::<TableV, Diag>(t.deep_view())
                && t.deep_view().wf(),
            Err(d) => parse_table_spec(v.deep_view()) == Err::<TableV, Diag>(d),
        },
{
    let ghost dv = v.deep_view();
    let (attrs, i0) = match parse_attrs(v, 0) {
        Ok(p) => p,
        Err(d) => {
            return Err(d);
        },
    };
    let (vis, i1) = match parse_vis(v, i0) {
        Ok(p) => p,
        Err(d) => {
            return Err(d);
        },
    };
    proof {
        if i1 + 1 < dv.len() {
            assert(dv[i1 as int] == v@[i1 as int].deep_view());
            assert(dv[i1 + 1] == v@[i1 + 1].deep_view());
        }
    }
    if !(i1 < v.len() && v.len() - i1 > 1 && is_ident(&v[i1], "enum")) {
        return Err(Diag::Syntax);
    }
    let name: String;
    match &v[i1 + 1] {
        Tok::Ident(s) => {
            name = s.clone();
        },
        _ => {
            return Err(Diag::Syntax);
        },
    }
    proof {
        if i1 + 2 < dv.len() {
            assert(dv[i1 + 2] == v@[i1 + 2].deep_view());
        }
    }
    if !(i1 + 2 < v.len() && is_open(&v[i1 + 2], Delim::Paren)) {
        return Err(Diag::Syntax);
    }
    let p = match find_close(v, i1 + 3) {
        Some(p) => p,
        None => {
            return Err(Diag::Syntax);
        },
    };
    proof {
        assert(dv[p as int] == v@[p as int].deep_view());
        if p + 1 < dv.len() {
            assert(dv[p + 1] == v@[p + 1].deep_view());
        }
    }
    if !(is_close(&v[p], Delim::Paren) && p + 1 < v.len() && is_open(&v[p + 1], Delim::Brace)) {
        return Err(Diag::Syntax);
    }
    let q = match find_close(v, p + 2) {
        Some(q) => q,
        None => {
            return Err(Diag::Syntax);
        },
    };
    proof {
        assert(dv[q as int] == v@[q as int].deep_view());
    }
    if !(q == v.len() - 1 && is_close(&v[q], Delim::Brace)) {
        return Err(Diag::Syntax);
    }
    let fields_toks = toks_subrange(v, i1 + 3, p);
    let fields = match parse_fields(&fields_toks) {
        Ok(fs) => fs,
        Err(d) => {
            return Err(d);
        },
    };
    let records_toks = toks_subrange(v, p + 2, q);
    let records = match parse_records(&records_toks) {
        Ok(rs) => rs,
        Err(d) => {
            return Err(d);
        },
    };
    let ghost fsv = fields.deep_view();
    let ghost rsv = records.deep_view();
    let mut ri: usize = 0;
    while ri < records.len()
        invariant
            0 <= ri <= records@.len(),
            rsv == records.deep_view(),
            fsv == fields.deep_view(),
            fsv.len() == fields@.len(),
            rsv.len() == records@.len(),
            first_arity_mismatch(fsv.len(), rsv, 0) == first_arity_mismatch(
                fsv.len(),
                rsv,
                ri as int,
            ),
        decreases records@.len() - ri,
    {
        proof {
            assert(rsv[ri as int] == records@[ri as int].deep_view());
        }
        if records[ri].values.len() != fields.len() {
            proof {
                assert(first_arity_mismatch(fsv.len(), rsv, ri as int) == Some(ri as int));
            }
            return Err(Diag::Arity { record: ri });
        }
        ri = ri + 1;
    }
    proof {
        lemma_no_arity_mismatch(fsv.len(), rsv, 0);
    }
    Ok(TableSpec { attrs, vis, name, fields, records })
}

} // verus!
