//! The parsed form of a table-enum description, and the diagnostics that an
//! expansion can produce.

use vstd::prelude::*;

use crate::token::{Tok, TokV};

verus! {

/// One positional value of a record: either the wildcard placeholder `_` or
/// an opaque expression kept as its tokens.
pub enum ValueExpr {
    Wildcard,
    Expr(Vec<Tok>),
}

/// Specification-level image of [`ValueExpr`].
pub enum ValueV {
    Wildcard,
    Expr(Seq<TokV>),
}

impl DeepView for ValueExpr {
    type V = ValueV;

    open spec fn deep_view(&self) -> ValueV {
        match self {
            ValueExpr::Wildcard => ValueV::Wildcard,
            ValueExpr::Expr(e) => ValueV::Expr(e.deep_view()),
        }
    }
}

/// One field declaration: a name, the tag of its first modifier annotation
/// (if any), and the declared type as tokens.
pub struct FieldSpec {
    pub name: String,
    pub tag: Option<String>,
    pub ty: Vec<Tok>,
}

/// Specification-level image of [`FieldSpec`].
pub struct FieldV {
    pub name: Seq<char>,
    pub tag: Option<Seq<char>>,
    pub ty: Seq<TokV>,
}

impl DeepView for FieldSpec {
    type V = FieldV;

    open spec fn deep_view(&self) -> FieldV {
        FieldV { name: self.name@, tag: self.tag.deep_view(), ty: self.ty.deep_view() }
    }
}

/// One record: a variant name and its ordered positional values.
pub struct RecordSpec {
    pub name: String,
    pub values: Vec<ValueExpr>,
}

/// Specification-level image of [`RecordSpec`].
pub struct RecordV {
    pub name: Seq<char>,
    pub values: Seq<ValueV>,
}

impl DeepView for RecordSpec {
    type V = RecordV;

    open spec fn deep_view(&self) -> RecordV {
        RecordV { name: self.name@, values: self.values.deep_view() }
    }
}

/// A whole table-enum description: pass-through attributes, a visibility
/// qualifier (empty when inherited), the enum's name, the ordered fields and
/// the ordered records.
pub struct TableSpec {
    pub attrs: Vec<Vec<Tok>>,
    pub vis: Vec<Tok>,
    pub name: String,
    pub fields: Vec<FieldSpec>,
    pub records: Vec<RecordSpec>,
}

/// Specification-level image of [`TableSpec`].
pub struct TableV {
    pub attrs: Seq<Seq<TokV>>,
    pub vis: Seq<TokV>,
    pub name: Seq<char>,
    pub fields: Seq<FieldV>,
    pub records: Seq<RecordV>,
}

impl DeepView for TableSpec {
    type V = TableV;

    open spec fn deep_view(&self) -> TableV {
        TableV {
            attrs: self.attrs.deep_view(),
            vis: self.vis.deep_view(),
            name: self.name@,
            fields: self.fields.deep_view(),
            records: self.records.deep_view(),
        }
    }
}

impl TableV {
    /// Well-formedness: every record supplies exactly one value per field.
    pub open spec fn wf(self) -> bool {
        forall|i: int|
            0 <= i < self.records.len() ==> (#[trigger] self.records[i]).values.len()
                == self.fields.len()
    }
}

/// Everything that can go wrong while expanding a table-enum description.
/// Offending fields and records are identified by their position in
/// declaration order.
#[derive(Clone, Copy, Debug, PartialEq, Eq, Structural)]
pub enum Diag {
    /// The token sequence does not follow the table grammar.
    Syntax,
    /// A record does not supply exactly one value per field.
    Arity { record: usize },
    /// A field carries a modifier annotation outside the three supported
    /// tags.
    UnknownModifier { field: usize },
    /// The wildcard placeholder is used on a field that is neither optional
    /// nor defaulted.
    WildcardMisuse { field: usize, record: usize },
    /// More than one field carries the constructor tag; the reverse-lookup
    /// functions they would generate would collide by name.
    MultipleConstructors { field: usize },
}

} // verus!
