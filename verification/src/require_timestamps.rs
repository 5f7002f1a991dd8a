//! The rule that every model carries both timestamp fields.

use vstd::prelude::*;

verus! {

use crate::Rule;
use crate::ast::{FieldView, Model, ModelView, SchemaAst, Span, Top, TopView};
use crate::diagnostics::{Diagnostic, DiagnosticKindView, Diagnostics, DiagnosticView};

/// Whether a field name is one of the two timestamp names, exactly as
/// written: the check is case-sensitive and independent of the mapping rule.
pub open spec fn is_timestamp_name(name: Seq<char>) -> bool {
    name == "createdAt"@ || name == "updatedAt"@
}

/// How many fields carry a timestamp name. Duplicates count twice: a model
/// with two `createdAt` fields and no `updatedAt` passes the threshold; that
/// literal counting is the rule's stated policy.
pub open spec fn timestamp_count(fields: Seq<FieldView>) -> int
    decreases fields.len(),
{
    if fields.len() == 0 {
        0
    } else {
        timestamp_count(fields.drop_last()) + if is_timestamp_name(fields.last().name) {
            1int
        } else {
            0int
        }
    }
}

/// The single finding the rule emits for a model short of timestamps,
/// anchored at the model's span.
pub open spec fn missing_timestamps_diag(span: Span) -> DiagnosticView {
    DiagnosticView {
        message: "Missing timestamps"@,
        kind: DiagnosticKindView::InvalidModel,
        span,
    }
}

/// The findings owed for one top-level declaration: one per model with
/// fewer than two timestamp-named fields, none for anything else.
pub open spec fn timestamps_top_diags(top: TopView) -> Seq<DiagnosticView> {
    match top {
        TopView::Model(m) => if timestamp_count(m.fields) < 2 {
            seq![missing_timestamps_diag(m.span)]
        } else {
            Seq::empty()
        },
        _ => Seq::empty(),
    }
}

/// The findings owed for a whole schema, models in source order.
pub open spec fn timestamps_diags(tops: Seq<TopView>) -> Seq<DiagnosticView>
    decreases tops.len(),
{
    if tops.len() == 0 {
        Seq::empty()
    } else {
        timestamps_diags(tops.drop_last()) + timestamps_top_diags(tops.last())
    }
}

proof fn lemma_timestamp_count_nonneg(fields: Seq<FieldView>)
    ensures
        timestamp_count(fields) >= 0,
    decreases fields.len(),
{
    if fields.len() > 0 {
        lemma_timestamp_count_nonneg(fields.drop_last());
    }
}

proof fn lemma_timestamp_count_at_least_one(fields: Seq<FieldView>, i: int)
    requires
        0 <= i < fields.len(),
        is_timestamp_name(fields[i].name),
    ensures
        timestamp_count(fields) >= 1,
    decreases fields.len(),
{
    if i == fields.len() - 1 {
        lemma_timestamp_count_nonneg(fields.drop_last());
    } else {
        lemma_timestamp_count_at_least_one(fields.drop_last(), i);
        lemma_timestamp_count_nonneg(fields);
    }
}

proof fn lemma_timestamp_count_at_least_two(fields: Seq<FieldView>, i: int, j: int)
    requires
        0 <= i < fields.len(),
        0 <= j < fields.len(),
        i != j,
        is_timestamp_name(fields[i].name),
        is_timestamp_name(fields[j].name),
    ensures
        timestamp_count(fields) >= 2,
    decreases fields.len(),
{
    if i == fields.len() - 1 {
        lemma_timestamp_count_at_least_one(fields.drop_last(), j);
    } else if j == fields.len() - 1 {
        lemma_timestamp_count_at_least_one(fields.drop_last(), i);
    } else {
        lemma_timestamp_count_at_least_two(fields.drop_last(), i, j);
    }
}

/// Law: a model whose field list holds both a field literally named
/// `createdAt` and a field literally named `updatedAt` — whatever their
/// attributes — gets no finding from this rule.
pub proof fn lemma_timestamps_present_no_diag(m: ModelView, i: int, j: int)
    requires
        0 <= i < m.fields.len(),
        0 <= j < m.fields.len(),
        m.fields[i].name == "createdAt"@,
        m.fields[j].name == "updatedAt"@,
    ensures
        timestamps_top_diags(TopView::Model(m)) == Seq::<DiagnosticView>::empty(),
{
    reveal_strlit("createdAt");
    reveal_strlit("updatedAt");
    assert(("createdAt"@)[0] != ("updatedAt"@)[0]);
    lemma_timestamp_count_at_least_two(m.fields, i, j);
}

/// Law: a model with fewer than two timestamp-named fields, counted the
/// literal way `timestamp_count` does, gets exactly one finding, anchored
/// at the model's span.
pub proof fn lemma_timestamps_missing_one_diag(m: ModelView)
    requires
        timestamp_count(m.fields) < 2,
    ensures
        timestamps_top_diags(TopView::Model(m)) == seq![missing_timestamps_diag(m.span)],
{
}

/// Whether this field's name, as written, is `createdAt` or `updatedAt`.
fn is_timestamp_field(field: &crate::ast::Field) -> (r: bool)
    ensures
        r == is_timestamp_name(field@.name),
{
    let created: String = "createdAt".to_owned();
    let updated: String = "updatedAt".to_owned();
    field.name == created || field.name == updated
}

/// Counts the fields of one model whose name is a timestamp name.
fn count_timestamp_fields(model: &Model) -> (count: usize)
    ensures
        count == timestamp_count(model@.fields),
{
    let mut count: usize = 0;
    let mut i: usize = 0;
    while i < model.fields.len()
        invariant
            i <= model.fields@.len(),
            count <= i,
            model@.fields.len() == model.fields@.len(),
            count == timestamp_count(model@.fields.take(i as int)),
        decreases model.fields@.len() - i,
    {
        if is_timestamp_field(&model.fields[i]) {
            count = count + 1;
        }
        i = i + 1;
        proof {
            assert(model@.fields.take(i as int).drop_last() =~= model@.fields.take(
                i as int - 1,
            ));
            assert(model@.fields.take(i as int).last() == model@.fields[i as int - 1]);
        }
    }
    proof {
        assert(model@.fields.take(model@.fields.len() as int) =~= model@.fields);
    }
    count
}

/// Every model must carry both a creation and an update timestamp field.
pub struct RequireTimestamps {}

impl Rule for RequireTimestamps {
    open spec fn diags(tops: Seq<TopView>) -> Seq<DiagnosticView> {
        timestamps_diags(tops)
    }

    fn check(schema: &SchemaAst, diagnostics: &mut Diagnostics) {
        let mut i: usize = 0;
        proof {
            assert(schema@.take(0int) =~= Seq::<TopView>::empty());
            assert(diagnostics@ =~= old(diagnostics)@ + timestamps_diags(schema@.take(0int)));
        }
        while i < schema.tops.len()
            invariant
                i <= schema.tops@.len(),
                schema@.len() == schema.tops@.len(),
                diagnostics@ == old(diagnostics)@ + timestamps_diags(schema@.take(i as int)),
            decreases schema.tops@.len() - i,
        {
            match &schema.tops[i] {
                Top::Model(model) => {
                    let count = count_timestamp_fields(model);
                    if count < 2 {
                        let error = Diagnostic::new_invalid_model_error(
                            "Missing timestamps",
                            model.span,
                        );
                        let ghost before = diagnostics@;
                        diagnostics.push_error(error);
                        proof {
                            assert(diagnostics@ =~= before + timestamps_top_diags(
                                schema@[i as int],
                            ));
                        }
                    }
                },
                _ => {},
            }
            i = i + 1;
            proof {
                assert(schema@.take(i as int).drop_last() =~= schema@.take(i as int - 1));
                assert(schema@.take(i as int).last() == schema@[i as int - 1]);
                assert(old(diagnostics)@ + timestamps_diags(schema@.take(i as int - 1))
                    + timestamps_top_diags(schema@[i as int - 1]) =~= old(diagnostics)@
                    + timestamps_diags(schema@.take(i as int)));
            }
        }
        proof {
            assert(schema@.take(schema@.len() as int) =~= schema@);
        }
    }
}

} // verus!
