//! The laws of the transformation, stated and proved over the specification
//! functions that the executable functions' contracts use.

use vstd::prelude::*;

use crate::table::{Diag, TableV, ValueV};
use crate::token::{Delim, TokV};
use crate::transform::{arm_v, accessor_v, default_call_v, field_kind_v, first_diag_from,
    first_wildcard_misuse, gen_table_v, kind_of_tag_v, transform_spec};
use crate::render::diag_message_v;

verus! {

/// Law: a diagnostic-free table generates exactly one unit variant per
/// record, named and ordered as the records are declared.
pub proof fn lemma_variants_match_records(t: TableV)
    requires
        transform_spec(t) is Ok,
    ensures
        transform_spec(t)->Ok_0.variants.len() == t.records.len(),
        forall|i: int|
            0 <= i < t.records.len() ==> transform_spec(t)->Ok_0.variants[i] == (
            #[trigger] t.records[i]).name,
{
}

/// Law: a diagnostic-free table generates exactly one accessor per field, in
/// field order, each named after its field and carrying exactly one match
/// arm per variant, in variant order; the accessor is compile-time evaluable
/// exactly when its field is not defaulted, its return type is wrapped
/// exactly when its field is optional, and it is followed by a reverse
/// lookup exactly when its field carries the constructor tag.
pub proof fn lemma_accessors_match_fields(t: TableV)
    requires
        transform_spec(t) is Ok,
    ensures
        transform_spec(t)->Ok_0.accessors.len() == t.fields.len(),
        forall|j: int|
            0 <= j < t.fields.len() ==> (#[trigger] transform_spec(t)->Ok_0.accessors[j])
                == accessor_v(t, j),
        forall|j: int|
            0 <= j < t.fields.len() ==> (#[trigger] transform_spec(t)->Ok_0.accessors[j]).name
                == t.fields[j].name,
        forall|j: int|
            0 <= j < t.fields.len() ==> (#[trigger] transform_spec(t)->Ok_0.accessors[j]).arms.len()
                == transform_spec(t)->Ok_0.variants.len(),
        forall|j: int|
            0 <= j < t.fields.len() ==> ((#[trigger] transform_spec(t)->Ok_0.accessors[j]).is_const
                <==> !(field_kind_v(t.fields[j]) is Defaulted)),
        forall|j: int|
            0 <= j < t.fields.len() ==> ((#[trigger] transform_spec(t)->Ok_0.accessors[j]).opt
                <==> field_kind_v(t.fields[j]) is Optional),
        forall|j: int|
            0 <= j < t.fields.len() ==> ((#[trigger] transform_spec(t)->Ok_0.accessors[j]).ctor
                <==> field_kind_v(t.fields[j]) is Constructor),
{
    assert(transform_spec(t)->Ok_0 == gen_table_v(t));
}

/// A wildcard standing at record `i` in column `j` is found by the scan.
proof fn lemma_misuse_found(t: TableV, j: int, i: int, start: int)
    requires
        0 <= start <= i < t.records.len(),
        0 <= j < t.records[i].values.len(),
        t.records[i].values[j] is Wildcard,
    ensures
        first_wildcard_misuse(t, j, start) is Some,
    decreases i - start,
{
    if start < i && !(0 <= j < t.records[start].values.len() && t.records[start].values[j]
        is Wildcard) {
        lemma_misuse_found(t, j, i, start + 1);
    }
}

/// A field with an unrecognized tag, or with a refused wildcard, makes the
/// field scan report a diagnostic, wherever the scan starts before it.
proof fn lemma_diag_at_field(t: TableV, j: int, k: int, seen: bool)
    requires
        0 <= k <= j < t.fields.len(),
        kind_of_tag_v(t.fields[j].tag) is None || ((field_kind_v(t.fields[j]) is Normal
            || field_kind_v(t.fields[j]) is Constructor) && first_wildcard_misuse(t, j, 0)
            is Some),
    ensures
        first_diag_from(t, k, seen) is Some,
    decreases j - k,
{
    match kind_of_tag_v(t.fields[k].tag) {
        None => {},
        Some(kind) => {
            if kind is Constructor && seen {
            } else if (kind is Normal || kind is Constructor) && first_wildcard_misuse(t, k, 0)
                is Some {
            } else {
                lemma_diag_at_field(t, j, k + 1, seen || kind is Constructor);
            }
        },
    }
}

/// Law: a field carrying a modifier tag outside the three supported ones
/// makes the expansion produce a diagnostic, and the unknown-modifier
/// diagnostic's message names exactly the three supported tags.
pub proof fn lemma_unknown_modifier(t: TableV, j: int)
    requires
        0 <= j < t.fields.len(),
        kind_of_tag_v(t.fields[j].tag) is None,
    ensures
        transform_spec(t) is Err,
        forall|f: usize|
            diag_message_v(Diag::UnknownModifier { field: f })
                == "\"unknown attribute, only #[option], #[default], and #[constructor] are supported\""@,
{
    lemma_diag_at_field(t, j, 0, false);
}

/// Law: the wildcard placeholder on a field that is neither optional nor
/// defaulted makes the expansion produce a diagnostic.
pub proof fn lemma_wildcard_misuse(t: TableV, j: int, i: int)
    requires
        0 <= j < t.fields.len(),
        0 <= i < t.records.len(),
        0 <= j < t.records[i].values.len(),
        field_kind_v(t.fields[j]) is Normal || field_kind_v(t.fields[j]) is Constructor,
        t.records[i].values[j] is Wildcard,
    ensures
        transform_spec(t) is Err,
{
    lemma_misuse_found(t, j, i, 0);
    lemma_diag_at_field(t, j, 0, false);
}

/// In a diagnostic-free table, a field that accepts no wildcard has none in
/// its column.
proof fn lemma_ok_no_wildcard(t: TableV, j: int, i: int)
    requires
        transform_spec(t) is Ok,
        t.wf(),
        0 <= j < t.fields.len(),
        0 <= i < t.records.len(),
        field_kind_v(t.fields[j]) is Normal || field_kind_v(t.fields[j]) is Constructor,
    ensures
        t.records[i].values[j] is Expr,
{
    if t.records[i].values[j] is Wildcard {
        lemma_wildcard_misuse(t, j, i);
    }
}

/// Law (round trip): in a diagnostic-free table, the accessor of a plain
/// field maps each variant to exactly the value expression its record
/// declares in that field's slot.
pub proof fn lemma_normal_round_trip(t: TableV, j: int, i: int)
    requires
        transform_spec(t) is Ok,
        t.wf(),
        0 <= j < t.fields.len(),
        0 <= i < t.records.len(),
        field_kind_v(t.fields[j]) is Normal,
    ensures
        t.records[i].values[j] is Expr,
        transform_spec(t)->Ok_0.accessors[j].arms[i] == t.records[i].values[j]->Expr_0,
{
    lemma_ok_no_wildcard(t, j, i);
    assert(transform_spec(t)->Ok_0 == gen_table_v(t));
    assert(transform_spec(t)->Ok_0.accessors[j] == accessor_v(t, j));
    assert(accessor_v(t, j).arms[i] == arm_v(t, j, i));
}

/// Law: in a diagnostic-free table, an optional field's accessor returns the
/// wrapped type, maps a wildcard to the empty representation and any other
/// value to the present wrapping of that value.
pub proof fn lemma_optional_field(t: TableV, j: int, i: int)
    requires
        transform_spec(t) is Ok,
        t.wf(),
        0 <= j < t.fields.len(),
        0 <= i < t.records.len(),
        field_kind_v(t.fields[j]) is Optional,
    ensures
        transform_spec(t)->Ok_0.accessors[j].opt,
        t.records[i].values[j] is Wildcard ==> transform_spec(t)->Ok_0.accessors[j].arms[i]
            == seq![TokV::Ident("None"@)],
        forall|e: Seq<TokV>|
            t.records[i].values[j] == ValueV::Expr(e) ==> transform_spec(t)->Ok_0.accessors[j].arms[i]
                == seq![TokV::Ident("Some"@), TokV::Open(Delim::Paren)] + e + seq![
                TokV::Close(Delim::Paren),
            ],
{
    assert(transform_spec(t)->Ok_0 == gen_table_v(t));
    assert(transform_spec(t)->Ok_0.accessors[j] == accessor_v(t, j));
    assert(accessor_v(t, j).arms[i] == arm_v(t, j, i));
}

/// Law: in a diagnostic-free table, a defaulted field's accessor is not
/// compile-time evaluable, maps a wildcard to the type's default-value call
/// and keeps any other value unchanged; every other field kind keeps its
/// accessor compile-time evaluable.
pub proof fn lemma_defaulted_field(t: TableV, j: int, i: int)
    requires
        transform_spec(t) is Ok,
        t.wf(),
        0 <= j < t.fields.len(),
        0 <= i < t.records.len(),
        field_kind_v(t.fields[j]) is Defaulted,
    ensures
        !transform_spec(t)->Ok_0.accessors[j].is_const,
        t.records[i].values[j] is Wildcard ==> transform_spec(t)->Ok_0.accessors[j].arms[i]
            == t.fields[j].ty + default_call_v(),
        forall|e: Seq<TokV>|
            t.records[i].values[j] == ValueV::Expr(e) ==> transform_spec(t)->Ok_0.accessors[j].arms[i]
                == e,
{
    assert(transform_spec(t)->Ok_0 == gen_table_v(t));
    assert(transform_spec(t)->Ok_0.accessors[j] == accessor_v(t, j));
    assert(accessor_v(t, j).arms[i] == arm_v(t, j, i));
}

/// What the generated reverse-lookup match returns for an input value: the
/// variant of the first arm (scanning from `i`) whose value equals it, or
/// nothing when no arm matches.
pub open spec fn ctor_eval_from(
    arms: Seq<Seq<TokV>>,
    variants: Seq<Seq<char>>,
    v: Seq<TokV>,
    i: int,
) -> Option<Seq<char>>
    decreases arms.len() - i,
{
    if i < 0 || i >= arms.len() {
        None
    } else if arms[i] == v {
        if i < variants.len() {
            Some(variants[i])
        } else {
            None
        }
    } else {
        ctor_eval_from(arms, variants, v, i + 1)
    }
}

/// The scan reaches the first matching arm.
proof fn lemma_ctor_eval_hit(
    arms: Seq<Seq<TokV>>,
    variants: Seq<Seq<char>>,
    i: int,
    start: int,
)
    requires
        0 <= start <= i < arms.len(),
        arms.len() <= variants.len(),
        forall|k: int| start <= k < i ==> arms[k] != arms[i],
    ensures
        ctor_eval_from(arms, variants, arms[i], start) == Some(variants[i]),
    decreases i - start,
{
    if start < i {
        lemma_ctor_eval_hit(arms, variants, i, start + 1);
    }
}

/// The scan misses when no arm matches.
proof fn lemma_ctor_eval_miss(arms: Seq<Seq<TokV>>, variants: Seq<Seq<char>>, v: Seq<TokV>, start: int)
    requires
        0 <= start,
        forall|k: int| start <= k < arms.len() ==> arms[k] != v,
    ensures
        ctor_eval_from(arms, variants, v, start) is None,
    decreases arms.len() - start,
{
    if start < arms.len() {
        lemma_ctor_eval_miss(arms, variants, v, start + 1);
    }
}

/// Law: in a diagnostic-free table whose constructor field gives every
/// record a distinct value, the generated reverse lookup maps each record's
/// value to exactly that record's variant, and any value matching no record
/// to the absent result.
pub proof fn lemma_constructor_lookup(t: TableV, j: int, i: int)
    requires
        transform_spec(t) is Ok,
        t.wf(),
        0 <= j < t.fields.len(),
        0 <= i < t.records.len(),
        field_kind_v(t.fields[j]) is Constructor,
        forall|a: int, b: int|
            0 <= a < b < t.records.len() ==> arm_v(t, j, a) != arm_v(t, j, b),
    ensures
        ctor_eval_from(
            transform_spec(t)->Ok_0.accessors[j].arms,
            transform_spec(t)->Ok_0.variants,
            transform_spec(t)->Ok_0.accessors[j].arms[i],
            0,
        ) == Some(t.records[i].name),
{
    let g = transform_spec(t)->Ok_0;
    assert(g == gen_table_v(t));
    assert(g.accessors[j] == accessor_v(t, j));
    let arms = g.accessors[j].arms;
    assert forall|k: int| 0 <= k < i implies arms[k] != arms[i] by {
        assert(arms[k] == arm_v(t, j, k));
        assert(arms[i] == arm_v(t, j, i));
    }
    lemma_ctor_eval_hit(arms, g.variants, i, 0);
    assert(g.variants[i] == t.records[i].name);
}

/// Law: in a diagnostic-free table, the generated reverse lookup returns the
/// absent result for a value that matches no record's value in the
/// constructor field's slot.
pub proof fn lemma_constructor_miss(t: TableV, j: int, v: Seq<TokV>)
    requires
        transform_spec(t) is Ok,
        t.wf(),
        0 <= j < t.fields.len(),
        field_kind_v(t.fields[j]) is Constructor,
        forall|i: int| 0 <= i < t.records.len() ==> arm_v(t, j, i) != v,
    ensures
        ctor_eval_from(
            transform_spec(t)->Ok_0.accessors[j].arms,
            transform_spec(t)->Ok_0.variants,
            v,
            0,
        ) is None,
{
    let g = transform_spec(t)->Ok_0;
    assert(g == gen_table_v(t));
    assert(g.accessors[j] == accessor_v(t, j));
    let arms = g.accessors[j].arms;
    assert forall|k: int| 0 <= k < arms.len() implies arms[k] != v by {
        assert(arms[k] == arm_v(t, j, k));
    }
    lemma_ctor_eval_miss(arms, g.variants, v, 0);
}

} // verus!
