//! Rendering the expansion result as Rust source text.
//!
//! Every token is emitted followed by one space, except a joint punctuation
//! character, which is glued to what follows it; a diagnostic renders as a
//! `compile_error !` invocation carrying its message.  The output is meant to
//! be handed back to the host compiler, which reads it as a token stream and
//! is indifferent to the spacing.

use vstd::prelude::*;
use vstd::string::StringExecFns;

use crate::table::Diag;
use crate::token::{Delim, Tok, TokV};
use crate::transform::{gen_wf, Accessor, AccessorV, GenTable, GenTableV};
use crate::{Output, OutputV};

verus! {

/// The text of one token.
pub open spec fn render_tok_v(t: TokV) -> Seq<char> {
    match t {
        TokV::Ident(s) => s + " "@,
        TokV::Lit(s) => s + " "@,
        TokV::Punct(c, joint) => if joint {
            seq![c]
        } else {
            seq![c] + " "@
        },
        TokV::Open(d) => match d {
            Delim::Paren => "( "@,
            Delim::Bracket => "[ "@,
            Delim::Brace => "{ "@,
        },
        TokV::Close(d) => match d {
            Delim::Paren => ") "@,
            Delim::Bracket => "] "@,
            Delim::Brace => "} "@,
        },
    }
}

/// The text of a token sequence.
pub open spec fn render_toks_v(s: Seq<TokV>) -> Seq<char>
    decreases s.len(),
{
    if s.len() == 0 {
        Seq::empty()
    } else {
        render_toks_v(s.drop_last()) + render_tok_v(s.last())
    }
}

/// The text of the pass-through attributes, each as `# [ ... ]`.
pub open spec fn render_attrs_v(attrs: Seq<Seq<TokV>>) -> Seq<char>
    decreases attrs.len(),
{
    if attrs.len() == 0 {
        Seq::empty()
    } else {
        render_attrs_v(attrs.drop_last()) + "# [ "@ + render_toks_v(attrs.last()) + "] "@
    }
}

/// The text of the variant list, one `Name ,` per record.
pub open spec fn render_variants_v(vs: Seq<Seq<char>>) -> Seq<char>
    decreases vs.len(),
{
    if vs.len() == 0 {
        Seq::empty()
    } else {
        render_variants_v(vs.drop_last()) + vs.last() + ", "@
    }
}

/// The text of the first `n` accessor match arms, `Enum :: Variant => value ,`.
pub open spec fn render_arms_v(
    ename: Seq<char>,
    variants: Seq<Seq<char>>,
    arms: Seq<Seq<TokV>>,
    n: int,
) -> Seq<char>
    decreases n,
{
    if n <= 0 {
        Seq::empty()
    } else {
        render_arms_v(ename, variants, arms, n - 1) + ename + ":: "@ + variants[n - 1] + "=> "@
            + render_toks_v(arms[n - 1]) + ", "@
    }
}

/// The text of the first `n` reverse-lookup arms, `value => Some ( Enum :: Variant ) ,`.
pub open spec fn render_ctor_arms_v(
    ename: Seq<char>,
    variants: Seq<Seq<char>>,
    arms: Seq<Seq<TokV>>,
    n: int,
) -> Seq<char>
    decreases n,
{
    if n <= 0 {
        Seq::empty()
    } else {
        render_ctor_arms_v(ename, variants, arms, n - 1) + render_toks_v(arms[n - 1]) + "=> Some ( "@
            + ename + ":: "@ + variants[n - 1] + ") , "@
    }
}

/// The text of one accessor method proper.
pub open spec fn render_accessor_head_v(g: GenTableV, acc: AccessorV) -> Seq<char> {
    render_toks_v(g.vis) + (if acc.is_const {
        "const "@
    } else {
        Seq::<char>::empty()
    }) + "fn "@ + acc.name + " ( & self ) -> "@ + (if acc.opt {
        "Option < "@ + render_toks_v(acc.ty) + "> "@
    } else {
        render_toks_v(acc.ty)
    }) + "{ match self { "@ + render_arms_v(g.name + " "@, g.variants, acc.arms, acc.arms.len() as int)
        + "} } "@
}

/// The text of one accessor method, and of the reverse-lookup constructor
/// when the field carries the constructor tag.
pub open spec fn render_accessor_v(g: GenTableV, acc: AccessorV) -> Seq<char> {
    render_accessor_head_v(g, acc) + (if acc.ctor {
        render_ctor_fn_v(g, acc)
    } else {
        Seq::<char>::empty()
    })
}

/// The text of the reverse-lookup constructor of a constructor-tagged field.
pub open spec fn render_ctor_fn_v(g: GenTableV, acc: AccessorV) -> Seq<char> {
    render_toks_v(g.vis) + "fn new ( "@ + acc.name + " : "@ + render_toks_v(acc.ty)
        + ") -> Option < Self > { match "@ + acc.name + " { "@ + render_ctor_arms_v(
        g.name + " "@,
        g.variants,
        acc.arms,
        acc.arms.len() as int,
    ) + "_ => None , } } "@
}

/// The text of the first `n` accessors.
pub open spec fn render_accessors_v(g: GenTableV, n: int) -> Seq<char>
    decreases n,
{
    if n <= 0 {
        Seq::empty()
    } else {
        render_accessors_v(g, n - 1) + render_accessor_v(g, g.accessors[n - 1])
    }
}

/// The text of the whole generated table: the enum definition followed by
/// the implementation block holding the accessors in field order.
pub open spec fn render_table_v(g: GenTableV) -> Seq<char> {
    render_attrs_v(g.attrs) + render_toks_v(g.vis) + "enum "@ + g.name + " { "@ + render_variants_v(
        g.variants,
    ) + "} "@ + "impl "@ + g.name + " { "@ + render_accessors_v(g, g.accessors.len() as int)
        + "} "@
}

/// The message of a diagnostic, as the string literal carried by the
/// generated `compile_error !` invocation.
pub open spec fn diag_message_v(d: Diag) -> Seq<char> {
    match d {
        Diag::Syntax => "\"expected `[attributes] [visibility] enum Name ( fields ) { records }`\""@,
        Diag::Arity { .. } => "\"every record must supply exactly one value per field\""@,
        Diag::UnknownModifier { .. } => "\"unknown attribute, only #[option], #[default], and #[constructor] are supported\""@,
        Diag::WildcardMisuse { .. } => "\"Usage of `_` is valid for #[option] and #[default] fields\""@,
        Diag::MultipleConstructors { .. } => "\"at most one field may carry #[constructor]\""@,
    }
}

/// The text of a diagnostic: a `compile_error !` invocation.
pub open spec fn render_diag_v(d: Diag) -> Seq<char> {
    "compile_error ! ( "@ + diag_message_v(d) + " ) "@
}

/// The text of one expansion result.
pub open spec fn render_output_v(o: OutputV) -> Seq<char> {
    match o {
        OutputV::Table(g) => render_table_v(g),
        OutputV::Diag(d) => render_diag_v(d),
    }
}

/// Relies on String::push: appends one character at the end of the string.
#[verifier::external_body]
fn push_char(s: &mut String, c: char)
    ensures
        final(s)@ == old(s)@ + seq![c],
{
    s.push(c);
}

/// Appends one token's text.
fn render_tok_into(out: &mut String, t: &Tok)
    ensures
        final(out)@ == old(out)@ + render_tok_v(t.deep_view()),
{
    match t {
        Tok::Ident(s) => {
            out.append(s.as_str());
            out.append(" ");
        },
        Tok::Lit(s) => {
            out.append(s.as_str());
            out.append(" ");
        },
        Tok::Punct(c, joint) => {
            push_char(out, *c);
            if !*joint {
                out.append(" ");
            }
        },
        Tok::Open(d) => {
            match d {
                Delim::Paren => out.append("( "),
                Delim::Bracket => out.append("[ "),
                Delim::Brace => out.append("{ "),
            }
        },
        Tok::Close(d) => {
            match d {
                Delim::Paren => out.append(") "),
                Delim::Bracket => out.append("] "),
                Delim::Brace => out.append("} "),
            }
        },
    }
}

/// Appends a token sequence's text.
fn render_toks_into(out: &mut String, v: &Vec<Tok>)
    ensures
        final(out)@ == old(out)@ + render_toks_v(v.deep_view()),
{
    let ghost dv = v.deep_view();
    let mut i: usize = 0;
    while i < v.len()
        invariant
            0 <= i <= v@.len(),
            dv == v.deep_view(),
            out@ == old(out)@ + render_toks_v(dv.take(i as int)),
        decreases v@.len() - i,
    {
        proof {
            assert(dv[i as int] == v@[i as int].deep_view());
        }
        render_tok_into(out, &v[i]);
        proof {
            assert(dv.take(i + 1).drop_last() =~= dv.take(i as int));
            assert(dv.take(i + 1).last() == dv[i as int]);
            assert(out@ =~= old(out)@ + render_toks_v(dv.take(i + 1)));
        }
        i = i + 1;
    }
    proof {
        assert(dv.take(v@.len() as int) =~= dv);
    }
}

/// Appends the attribute list's text.
fn render_attrs_into(out: &mut String, attrs: &Vec<Vec<Tok>>)
    ensures
        final(out)@ == old(out)@ + render_attrs_v(attrs.deep_view()),
{
    let ghost dv = attrs.deep_view();
    let mut i: usize = 0;
    while i < attrs.len()
        invariant
            0 <= i <= attrs@.len(),
            dv == attrs.deep_view(),
            out@ == old(out)@ + render_attrs_v(dv.take(i as int)),
        decreases attrs@.len() - i,
    {
        proof {
            assert(dv[i as int] == attrs@[i as int].deep_view());
        }
        out.append("# [ ");
        render_toks_into(out, &attrs[i]);
        out.append("] ");
        proof {
            assert(dv.take(i + 1).drop_last() =~= dv.take(i as int));
            assert(dv.take(i + 1).last() == dv[i as int]);
            assert(out@ =~= old(out)@ + render_attrs_v(dv.take(i + 1)));
        }
        i = i + 1;
    }
    proof {
        assert(dv.take(attrs@.len() as int) =~= dv);
    }
}

/// Appends the variant list's text.
fn render_variants_into(out: &mut String, vs: &Vec<String>)
    ensures
        final(out)@ == old(out)@ + render_variants_v(vs.deep_view()),
{
    let ghost dv = vs.deep_view();
    let mut i: usize = 0;
    while i < vs.len()
        invariant
            0 <= i <= vs@.len(),
            dv == vs.deep_view(),
            out@ == old(out)@ + render_variants_v(dv.take(i as int)),
        decreases vs@.len() - i,
    {
        proof {
            assert(dv[i as int] == vs@[i as int]@);
        }
        out.append(vs[i].as_str());
        out.append(", ");
        proof {
            assert(dv.take(i + 1).drop_last() =~= dv.take(i as int));
            assert(dv.take(i + 1).last() == dv[i as int]);
            assert(out@ =~= old(out)@ + render_variants_v(dv.take(i + 1)));
        }
        i = i + 1;
    }
    proof {
        assert(dv.take(vs@.len() as int) =~= dv);
    }
}

/// Appends one accessor's text (and its constructor's, when tagged).
fn render_accessor_into(out: &mut String, g: &GenTable, acc: &Accessor)
    requires
        acc.deep_view().arms.len() == g.deep_view().variants.len(),
    ensures
        final(out)@ == old(out)@ + render_accessor_v(g.deep_view(), acc.deep_view()),
{
    let ghost gv = g.deep_view();
    let ghost av = acc.deep_view();
    render_accessor_head_into(out, g, acc);
    if acc.ctor {
        render_ctor_into(out, g, acc);
        proof {
            assert(out@ =~= old(out)@ + render_accessor_v(gv, av));
        }
    } else {
        proof {
            assert(out@ =~= old(out)@ + render_accessor_v(gv, av));
        }
    }
}

/// Appends the text of one accessor method proper.
#[verifier::rlimit(80)]
fn render_accessor_head_into(out: &mut String, g: &GenTable, acc: &Accessor)
    requires
        acc.deep_view().arms.len() == g.deep_view().variants.len(),
    ensures
        final(out)@ == old(out)@ + render_accessor_head_v(g.deep_view(), acc.deep_view()),
{
    let ghost gv = g.deep_view();
    let ghost av = acc.deep_view();
    render_toks_into(out, &g.vis);
    if acc.is_const {
        out.append("const ");
    }
    proof {
        assert(out@ =~= old(out)@ + (render_toks_v(gv.vis) + (if av.is_const {
            "const "@
        } else {
            Seq::<char>::empty()
        })));
    }
    out.append("fn ");
    out.append(acc.name.as_str());
    out.append(" ( & self ) -> ");
    let ghost head = old(out)@ + (render_toks_v(gv.vis) + (if av.is_const {
        "const "@
    } else {
        Seq::<char>::empty()
    })) + "fn "@ + av.name + " ( & self ) -> "@;
    if acc.opt {
        out.append("Option < ");
        render_toks_into(out, &acc.ty);
        out.append("> ");
    } else {
        render_toks_into(out, &acc.ty);
    }
    proof {
        assert(out@ =~= head + (if av.opt {
            "Option < "@ + render_toks_v(av.ty) + "> "@
        } else {
            render_toks_v(av.ty)
        }));
    }
    let ghost head2 = head + (if av.opt {
        "Option < "@ + render_toks_v(av.ty) + "> "@
    } else {
        render_toks_v(av.ty)
    }) + "{ match self { "@;
    out.append("{ match self { ");
    proof {
        assert(out@ =~= head2);
    }
    render_arms_into(out, g, acc);
    out.append("} } ");
    proof {
        assert(out@ =~= old(out)@ + render_accessor_head_v(gv, av));
    }
}

/// Appends the accessor match arms' text.
#[verifier::rlimit(80)]
fn render_arms_into(out: &mut String, g: &GenTable, acc: &Accessor)
    requires
        acc.deep_view().arms.len() == g.deep_view().variants.len(),
    ensures
        final(out)@ == old(out)@ + render_arms_v(
            g.deep_view().name + " "@,
            g.deep_view().variants,
            acc.deep_view().arms,
            acc.deep_view().arms.len() as int,
        ),
{
    let ghost gv = g.deep_view();
    let ghost av = acc.deep_view();
    let mut i: usize = 0;
    while i < acc.arms.len()
        invariant
            0 <= i <= acc.arms@.len(),
            gv == g.deep_view(),
            av == acc.deep_view(),
            av.arms.len() == gv.variants.len(),
            acc.arms@.len() == av.arms.len(),
            g.variants@.len() == gv.variants.len(),
            out@ == old(out)@ + render_arms_v(gv.name + " "@, gv.variants, av.arms, i as int),
        decreases acc.arms@.len() - i,
    {
        proof {
            assert(av.arms[i as int] == acc.arms@[i as int].deep_view());
            assert(gv.variants[i as int] == g.variants@[i as int]@);
        }
        out.append(g.name.as_str());
        out.append(" ");
        out.append(":: ");
        out.append(g.variants[i].as_str());
        out.append("=> ");
        render_toks_into(out, &acc.arms[i]);
        out.append(", ");
        proof {
            assert(out@ =~= old(out)@ + render_arms_v(gv.name + " "@, gv.variants, av.arms, i + 1));
        }
        i = i + 1;
    }
}

/// Appends the reverse-lookup constructor's text.
#[verifier::rlimit(80)]
fn render_ctor_into(out: &mut String, g: &GenTable, acc: &Accessor)
    requires
        acc.deep_view().arms.len() == g.deep_view().variants.len(),
    ensures
        final(out)@ == old(out)@ + render_ctor_fn_v(g.deep_view(), acc.deep_view()),
{
    let ghost gv = g.deep_view();
    let ghost av = acc.deep_view();
    render_toks_into(out, &g.vis);
    out.append("fn new ( ");
    out.append(acc.name.as_str());
    out.append(" : ");
    render_toks_into(out, &acc.ty);
    out.append(") -> Option < Self > { match ");
    out.append(acc.name.as_str());
    out.append(" { ");
    let ghost head = old(out)@ + render_toks_v(gv.vis) + "fn new ( "@ + av.name + " : "@
        + render_toks_v(av.ty) + ") -> Option < Self > { match "@ + av.name + " { "@;
    proof {
        assert(out@ =~= head);
    }
    let mut i: usize = 0;
    while i < acc.arms.len()
        invariant
            0 <= i <= acc.arms@.len(),
            gv == g.deep_view(),
            av == acc.deep_view(),
            av.arms.len() == gv.variants.len(),
            acc.arms@.len() == av.arms.len(),
            g.variants@.len() == gv.variants.len(),
            out@ == head + render_ctor_arms_v(gv.name + " "@, gv.variants, av.arms, i as int),
        decreases acc.arms@.len() - i,
    {
        proof {
            assert(av.arms[i as int] == acc.arms@[i as int].deep_view());
            assert(gv.variants[i as int] == g.variants@[i as int]@);
        }
        render_toks_into(out, &acc.arms[i]);
        out.append("=> Some ( ");
        out.append(g.name.as_str());
        out.append(" ");
        out.append(":: ");
        out.append(g.variants[i].as_str());
        out.append(") , ");
        proof {
            assert(out@ =~= head + render_ctor_arms_v(
                gv.name + " "@,
                gv.variants,
                av.arms,
                i + 1,
            ));
        }
        i = i + 1;
    }
    out.append("_ => None , } } ");
}

/// Renders the whole generated table as Rust source text.
pub fn render_table(g: &GenTable) -> (r: String)
    requires
        gen_wf(g.deep_view()),
    ensures
        r@ == render_table_v(g.deep_view()),
{
    let ghost gv = g.deep_view();
    let mut out = String::new();
    render_attrs_into(&mut out, &g.attrs);
    render_toks_into(&mut out, &g.vis);
    out.append("enum ");
    out.append(g.name.as_str());
    out.append(" { ");
    render_variants_into(&mut out, &g.variants);
    out.append("} ");
    out.append("impl ");
    out.append(g.name.as_str());
    out.append(" { ");
    let ghost head = render_attrs_v(gv.attrs) + render_toks_v(gv.vis) + "enum "@ + gv.name + " { "@
        + render_variants_v(gv.variants) + "} "@ + "impl "@ + gv.name + " { "@;
    proof {
        assert(out@ =~= Seq::<char>::empty() + head);
        assert(out@ =~= head);
    }
    let mut j: usize = 0;
    while j < g.accessors.len()
        invariant
            0 <= j <= g.accessors@.len(),
            gv == g.deep_view(),
            g.accessors@.len() == gv.accessors.len(),
            forall|k: int|
                0 <= k < gv.accessors.len() ==> (#[trigger] gv.accessors[k]).arms.len()
                    == gv.variants.len(),
            out@ == head + render_accessors_v(gv, j as int),
        decreases g.accessors@.len() - j,
    {
        proof {
            assert(gv.accessors[j as int] == g.accessors@[j as int].deep_view());
        }
        render_accessor_into(&mut out, g, &g.accessors[j]);
        proof {
            assert(out@ =~= head + render_accessors_v(gv, j + 1));
        }
        j = j + 1;
    }
    out.append("} ");
    proof {
        assert(out@ =~= render_table_v(gv));
    }
    out
}

/// Renders a diagnostic as a `compile_error !` invocation.
pub fn render_diag(d: &Diag) -> (r: String)
    ensures
        r@ == render_diag_v(*d),
{
    let mut out = String::new();
    out.append("compile_error ! ( ");
    match d {
        Diag::Syntax => out.append(
            "\"expected `[attributes] [visibility] enum Name ( fields ) { records }`\"",
        ),
        Diag::Arity { .. } => out.append("\"every record must supply exactly one value per field\""),
        Diag::UnknownModifier { .. } => out.append(
            "\"unknown attribute, only #[option], #[default], and #[constructor] are supported\"",
        ),
        Diag::WildcardMisuse { .. } => out.append(
            "\"Usage of `_` is valid for #[option] and #[default] fields\"",
        ),
        Diag::MultipleConstructors { .. } => out.append(
            "\"at most one field may carry #[constructor]\"",
        ),
    }
    out.append(" ) ");
    proof {
        assert(out@ =~= render_diag_v(*d));
    }
    out
}

/// Renders one expansion result as Rust source text.
pub fn render_output(o: &Output) -> (r: String)
    requires
        o.deep_view() matches OutputV::Table(g) ==> gen_wf(g),
    ensures
        r@ == render_output_v(o.deep_view()),
{
    match o {
        Output::Table(g) => render_table(g),
        Output::Diag(d) => render_diag(d),
    }
}

} // verus!
