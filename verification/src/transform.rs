//! The table-to-enum transformation.
//!
//! A well-formed table becomes a unit-variant enum (one variant per record,
//! in declaration order) plus one accessor method per field (in declaration
//! order); a field tagged `constructor` additionally yields a reverse-lookup
//! function.  A field with an unrecognized modifier tag, a second
//! `constructor` field, or a wildcard on a field that is neither optional nor
//! defaulted yields a diagnostic instead.

use vstd::prelude::*;

use crate::table::{Diag, FieldV, TableSpec, TableV, ValueExpr, ValueV};
use crate::token::{toks_clone, Delim, Tok, TokV};

verus! {

/// The accessor-generation behaviour a field's modifier tag selects.
#[derive(Clone, Copy, PartialEq, Eq, Structural)]
pub enum FieldKind {
    Normal,
    Optional,
    Defaulted,
    Constructor,
}

/// The kind selected by a modifier tag; `None` for an unrecognized tag.
pub open spec fn kind_of_tag_v(tag: Option<Seq<char>>) -> Option<FieldKind> {
    match tag {
        None => Some(FieldKind::Normal),
        Some(t) => if t == "option"@ {
            Some(FieldKind::Optional)
        } else if t == "default"@ {
            Some(FieldKind::Defaulted)
        } else if t == "constructor"@ {
            Some(FieldKind::Constructor)
        } else {
            None
        },
    }
}

/// The kind of a field whose tag is recognized.
pub open spec fn field_kind_v(f: FieldV) -> FieldKind {
    match kind_of_tag_v(f.tag) {
        Some(k) => k,
        None => FieldKind::Normal,
    }
}

/// The tokens of `::default()`, appended to a declared type to invoke its
/// default-value constructor.
pub open spec fn default_call_v() -> Seq<TokV> {
    seq![
        TokV::Punct(':', true),
        TokV::Punct(':', false),
        TokV::Ident("default"@),
        TokV::Open(Delim::Paren),
        TokV::Close(Delim::Paren),
    ]
}

/// The match-arm value a record's positional value becomes, given the
/// field's kind and declared type: a wildcard becomes the empty
/// representation (optional) or the type's default-value call (defaulted),
/// and is refused otherwise (`None`); any other value is wrapped in the
/// present representation for an optional field and kept unchanged else.
pub open spec fn resolve_value_v(kind: FieldKind, ty: Seq<TokV>, v: ValueV) -> Option<Seq<TokV>> {
    match v {
        ValueV::Wildcard => match kind {
            FieldKind::Optional => Some(seq![TokV::Ident("None"@)]),
            FieldKind::Defaulted => Some(ty + default_call_v()),
            _ => None,
        },
        ValueV::Expr(e) => Some(
            if kind is Optional {
                seq![TokV::Ident("Some"@), TokV::Open(Delim::Paren)] + e + seq![
                    TokV::Close(Delim::Paren),
                ]
            } else {
                e
            },
        ),
    }
}

/// One generated accessor: the method named after its field, and, when
/// `ctor` holds, the reverse-lookup constructor that follows it.
pub struct Accessor {
    /// The method's name: the field's name.
    pub name: String,
    /// Whether the method is generated as compile-time evaluable; false only
    /// for a defaulted field.
    pub is_const: bool,
    /// Whether the return type is the declared type wrapped in the optional
    /// container.
    pub opt: bool,
    /// The field's declared type.
    pub ty: Vec<Tok>,
    /// One resolved match-arm value per record, in record order.
    pub arms: Vec<Vec<Tok>>,
    /// Whether the reverse-lookup constructor is also generated.
    pub ctor: bool,
}

/// Specification-level image of [`Accessor`].
pub struct AccessorV {
    pub name: Seq<char>,
    pub is_const: bool,
    pub opt: bool,
    pub ty: Seq<TokV>,
    pub arms: Seq<Seq<TokV>>,
    pub ctor: bool,
}

impl DeepView for Accessor {
    type V = AccessorV;

    open spec fn deep_view(&self) -> AccessorV {
        AccessorV {
            name: self.name@,
            is_const: self.is_const,
            opt: self.opt,
            ty: self.ty.deep_view(),
            arms: self.arms.deep_view(),
            ctor: self.ctor,
        }
    }
}

/// The generated table: the enum definition and its accessor methods.
pub struct GenTable {
    /// The pass-through attributes of the enum definition.
    pub attrs: Vec<Vec<Tok>>,
    /// The visibility of the enum and of every generated function.
    pub vis: Vec<Tok>,
    /// The enum's name.
    pub name: String,
    /// The unit variants, one per record, in record order.
    pub variants: Vec<String>,
    /// One accessor per field, in field order.
    pub accessors: Vec<Accessor>,
}

/// Specification-level image of [`GenTable`].
pub struct GenTableV {
    pub attrs: Seq<Seq<TokV>>,
    pub vis: Seq<TokV>,
    pub name: Seq<char>,
    pub variants: Seq<Seq<char>>,
    pub accessors: Seq<AccessorV>,
}

impl DeepView for GenTable {
    type V = GenTableV;

    open spec fn deep_view(&self) -> GenTableV {
        GenTableV {
            attrs: self.attrs.deep_view(),
            vis: self.vis.deep_view(),
            name: self.name@,
            variants: self.variants.deep_view(),
            accessors: self.accessors.deep_view(),
        }
    }
}

/// Position of the first record whose value for field `j` is the wildcard,
/// scanning from record `i`.
pub open spec fn first_wildcard_misuse(t: TableV, j: int, i: int) -> Option<int>
    decreases t.records.len() - i,
{
    if i < 0 || i >= t.records.len() {
        None
    } else if 0 <= j < t.records[i].values.len() && t.records[i].values[j] is Wildcard {
        Some(i)
    } else {
        first_wildcard_misuse(t, j, i + 1)
    }
}

/// The first diagnostic of the transformation, scanning fields in
/// declaration order: an unrecognized tag is reported first, then a second
/// constructor field, then (for a field that accepts no wildcard) the first
/// record using one.
pub open spec fn first_diag_from(t: TableV, j: int, seen_ctor: bool) -> Option<Diag>
    decreases t.fields.len() - j,
{
    if j < 0 || j >= t.fields.len() {
        None
    } else {
        match kind_of_tag_v(t.fields[j].tag) {
            None => Some(Diag::UnknownModifier { field: j as usize }),
            Some(k) => if k is Constructor && seen_ctor {
                Some(Diag::MultipleConstructors { field: j as usize })
            } else if (k is Normal || k is Constructor) && first_wildcard_misuse(t, j, 0) is Some {
                Some(
                    Diag::WildcardMisuse {
                        field: j as usize,
                        record: first_wildcard_misuse(t, j, 0)->0 as usize,
                    },
                )
            } else {
                first_diag_from(t, j + 1, seen_ctor || k is Constructor)
            },
        }
    }
}

/// The first diagnostic of the transformation, if any.
pub open spec fn first_diag(t: TableV) -> Option<Diag> {
    first_diag_from(t, 0, false)
}

/// The resolved match-arm value of field `j` at record `i`.
pub open spec fn arm_v(t: TableV, j: int, i: int) -> Seq<TokV> {
    match resolve_value_v(field_kind_v(t.fields[j]), t.fields[j].ty, t.records[i].values[j]) {
        Some(a) => a,
        None => Seq::empty(),
    }
}

/// The accessor generated for field `j`.
pub open spec fn accessor_v(t: TableV, j: int) -> AccessorV {
    let k = field_kind_v(t.fields[j]);
    AccessorV {
        name: t.fields[j].name,
        is_const: !(k is Defaulted),
        opt: k is Optional,
        ty: t.fields[j].ty,
        arms: Seq::new(t.records.len(), |i: int| arm_v(t, j, i)),
        ctor: k is Constructor,
    }
}

/// The whole generated table of a diagnostic-free description.
pub open spec fn gen_table_v(t: TableV) -> GenTableV {
    GenTableV {
        attrs: t.attrs,
        vis: t.vis,
        name: t.name,
        variants: Seq::new(t.records.len(), |i: int| t.records[i].name),
        accessors: Seq::new(t.fields.len(), |j: int| accessor_v(t, j)),
    }
}

/// Internal consistency of a generated table: every accessor has exactly
/// one match arm per variant.
pub open spec fn gen_wf(g: GenTableV) -> bool {
    forall|j: int|
        0 <= j < g.accessors.len() ==> (#[trigger] g.accessors[j]).arms.len() == g.variants.len()
}

/// What the transformation returns: its first diagnostic, or the generated
/// table when there is none.
pub open spec fn transform_spec(t: TableV) -> Result<GenTableV, Diag> {
    match first_diag(t) {
        Some(d) => Err(d),
        None => Ok(gen_table_v(t)),
    }
}

/// Determines a field's kind from its modifier tag.
fn kind_of_tag(tag: &Option<String>) -> (r: Option<FieldKind>)
    ensures
        r == kind_of_tag_v(tag.deep_view()),
{
    match tag {
        None => Some(FieldKind::Normal),
        Some(t) => {
            if *t == "option".to_owned() {
                Some(FieldKind::Optional)
            } else if *t == "default".to_owned() {
                Some(FieldKind::Defaulted)
            } else if *t == "constructor".to_owned() {
                Some(FieldKind::Constructor)
            } else {
                None
            }
        },
    }
}

/// Transforms a well-formed table into the generated enum and accessors, or
/// returns its first diagnostic.
#[verifier::loop_isolation(false)]
pub fn transform(t: &TableSpec) -> (r: Result<GenTable, Diag>)
    requires
        t.deep_view().wf(),
    ensures
        match r {
            Ok(g) => transform_spec(t.deep_view()) == Ok::<GenTableV, Diag>(g.deep_view()),
            Err(d) => transform_spec(t.deep_view()) == Err::<GenTableV, Diag>(d),
        },
{
    let ghost tv = t.deep_view();
    let mut variants: Vec<String> = Vec::new();
    let mut vi: usize = 0;
    while vi < t.records.len()
        invariant
            0 <= vi <= t.records@.len(),
            variants@.len() == vi,
            forall|k: int| 0 <= k < vi ==> (#[trigger] variants@[k])@ == tv.records[k].name,
        decreases t.records@.len() - vi,
    {
        proof {
            assert(tv.records[vi as int] == t.records@[vi as int].deep_view());
        }
        variants.push(t.records[vi].name.clone());
        vi = vi + 1;
    }
    let mut accessors: Vec<Accessor> = Vec::new();
    let mut seen_ctor = false;
    let mut j: usize = 0;
    while j < t.fields.len()
        invariant
            0 <= j <= t.fields@.len(),
            accessors@.len() == j,
            forall|k: int| 0 <= k < j ==> (#[trigger] accessors@[k]).deep_view() == accessor_v(
                tv,
                k,
            ),
            first_diag(tv) == first_diag_from(tv, j as int, seen_ctor),
        decreases t.fields@.len() - j,
    {
        proof {
            assert(tv.fields[j as int] == t.fields@[j as int].deep_view());
        }
        let f = &t.fields[j];
        let kind = match kind_of_tag(&f.tag) {
            Some(k) => k,
            None => {
                return Err(Diag::UnknownModifier { field: j });
            },
        };
        if kind == FieldKind::Constructor && seen_ctor {
            return Err(Diag::MultipleConstructors { field: j });
        }
        let mut arms: Vec<Vec<Tok>> = Vec::new();
        let mut i: usize = 0;
        while i < t.records.len()
            invariant
                0 <= i <= t.records@.len(),
                arms@.len() == i,
                forall|k: int| 0 <= k < i ==> (#[trigger] arms@[k]).deep_view() == arm_v(
                    tv,
                    j as int,
                    k,
                ),
                kind == FieldKind::Normal || kind == FieldKind::Constructor
                    ==> first_wildcard_misuse(tv, j as int, 0) == first_wildcard_misuse(
                    tv,
                    j as int,
                    i as int,
                ),
            decreases t.records@.len() - i,
        {
            proof {
                assert(tv.records[i as int] == t.records@[i as int].deep_view());
                assert(tv.records[i as int].values[j as int] == t.records@[i as int].values@[
                    j as int].deep_view());
            }
            let rec = &t.records[i];
            match &rec.values[j] {
                ValueExpr::Wildcard => {
                    if kind == FieldKind::Optional {
                        let mut a: Vec<Tok> = Vec::new();
                        a.push(Tok::Ident("None".to_owned()));
                        proof {
                            assert(a.deep_view() =~= seq![TokV::Ident("None"@)]);
                        }
                        arms.push(a);
                    } else if kind == FieldKind::Defaulted {
                        let mut a = toks_clone(&f.ty);
                        a.push(Tok::Punct(':', true));
                        a.push(Tok::Punct(':', false));
                        a.push(Tok::Ident("default".to_owned()));
                        a.push(Tok::Open(Delim::Paren));
                        a.push(Tok::Close(Delim::Paren));
                        proof {
                            assert(a.deep_view() =~= tv.fields[j as int].ty + default_call_v());
                        }
                        arms.push(a);
                    } else {
                        return Err(Diag::WildcardMisuse { field: j, record: i });
                    }
                },
                ValueExpr::Expr(e) => {
                    if kind == FieldKind::Optional {
                        let mut a: Vec<Tok> = Vec::new();
                        a.push(Tok::Ident("Some".to_owned()));
                        a.push(Tok::Open(Delim::Paren));
                        let mut body = toks_clone(e);
                        a.append(&mut body);
                        a.push(Tok::Close(Delim::Paren));
                        proof {
                            assert(a.deep_view() =~= seq![
                                TokV::Ident("Some"@),
                                TokV::Open(Delim::Paren),
                            ] + e.deep_view() + seq![TokV::Close(Delim::Paren)]);
                        }
                        arms.push(a);
                    } else {
                        arms.push(toks_clone(e));
                    }
                },
            }
            i = i + 1;
        }
        let acc = Accessor {
            name: f.name.clone(),
            is_const: kind != FieldKind::Defaulted,
            opt: kind == FieldKind::Optional,
            ty: toks_clone(&f.ty),
            arms,
            ctor: kind == FieldKind::Constructor,
        };
        proof {
            assert(acc.deep_view().arms =~= accessor_v(tv, j as int).arms);
            assert(acc.deep_view() == accessor_v(tv, j as int));
        }
        accessors.push(acc);
        seen_ctor = seen_ctor || kind == FieldKind::Constructor;
        j = j + 1;
    }
    let g = GenTable {
        attrs: crate::token::attrs_clone(&t.attrs),
        vis: toks_clone(&t.vis),
        name: t.name.clone(),
        variants,
        accessors,
    };
    proof {
        assert(g.deep_view().variants =~= gen_table_v(tv).variants);
        assert(g.deep_view().accessors =~= gen_table_v(tv).accessors);
        assert(g.deep_view() == gen_table_v(tv));
    }
    Ok(g)
}

} // verus!
