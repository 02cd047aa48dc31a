//! A compile-time table-enum expander.
//!
//! The library turns a declarative "table enum" description — named, typed
//! fields followed by a list of records with positional values — into a plain
//! enumeration together with one accessor method per field.  The input and
//! the output are both modelled as flat token sequences ([`token::Tok`]); an
//! adapter outside the library converts between this model and the host
//! compiler's native token representation.

pub mod laws;
pub mod parse;
pub mod render;
pub mod table;
pub mod token;
pub mod transform;

use vstd::prelude::*;

use crate::table::Diag;
use crate::token::Tok;
use crate::transform::{gen_wf, transform, transform_spec, GenTable, GenTableV};

verus! {

/// The result of one expansion: either the generated table (an enum plus its
/// accessor methods) or a diagnostic to report against the invocation.
pub enum Output {
    Table(GenTable),
    Diag(Diag),
}

/// Specification-level image of [`Output`].
pub enum OutputV {
    Table(GenTableV),
    Diag(Diag),
}

impl DeepView for Output {
    type V = OutputV;

    open spec fn deep_view(&self) -> OutputV {
        match self {
            Output::Table(t) => OutputV::Table(t.deep_view()),
            Output::Diag(d) => OutputV::Diag(*d),
        }
    }
}

/// What [`table_enum_core`] returns for a given token sequence: the parse of
/// the table grammar followed, on success, by the table-to-enum transform.
pub open spec fn expand_spec(toks: Seq<token::TokV>) -> OutputV {
    match parse::parse_table_spec(toks) {
        Ok(t) => match transform_spec(t) {
            Ok(g) => OutputV::Table(g),
            Err(d) => OutputV::Diag(d),
        },
        Err(d) => OutputV::Diag(d),
    }
}

/// Expands one table-enum description.
///
/// The token sequence is parsed against the table grammar and, when it
/// conforms, transformed into the generated enum and accessors; any failure
/// yields the corresponding diagnostic instead.  A generated table is
/// internally consistent: every accessor carries one match arm per variant.
pub fn table_enum_core(input: &Vec<Tok>) -> (r: Output)
    ensures
        r.deep_view() == expand_spec(input.deep_view()),
        r.deep_view() matches OutputV::Table(g) ==> gen_wf(g),
{
    match parse::parse_table(input) {
        Ok(t) => match transform(&t) {
            Ok(g) => Output::Table(g),
            Err(d) => Output::Diag(d),
        },
        Err(d) => Output::Diag(d),
    }
}

/// Expands one table-enum description and renders the result as Rust source
/// text, ready to be read back as a token stream.
pub fn expand_source(input: &Vec<Tok>) -> (r: String)
    ensures
        r@ == render::render_output_v(expand_spec(input.deep_view())),
{
    let out = table_enum_core(input);
    render::render_output(&out)
}

} // verus!
