//! The rule that every non-snake_case field declares a snake_case column
//! mapping.

use vstd::prelude::*;

verus! {

use crate::Rule;
use crate::ast::{
    Argument, ArgumentView, Attribute, AttributeView, Field, FieldView, SchemaAst, Span, Top,
    TopView,
};
use crate::diagnostics::{Diagnostic, DiagnosticKindView, Diagnostics, DiagnosticView};
use crate::snake::{is_snake, is_snake_case_str};

/// The first attribute named `map`, if any. Later `map` attributes are never
/// consulted; only the first one counts.
pub open spec fn find_map_attribute(attrs: Seq<AttributeView>) -> Option<AttributeView>
    decreases attrs.len(),
{
    if attrs.len() == 0 {
        Option::None
    } else if attrs.first().name == "map"@ {
        Option::Some(attrs.first())
    } else {
        find_map_attribute(attrs.drop_first())
    }
}

/// A finding of this rule: an attribute validation error labelled `Map`,
/// anchored at the span of the offending field.
pub open spec fn map_diag(message: Seq<char>, span: Span) -> DiagnosticView {
    DiagnosticView {
        message,
        kind: DiagnosticKindView::AttributeValidation { attribute: "Map"@ },
        span,
    }
}

/// The findings owed for one field: none if its name is already snake_case
/// or its first `map` attribute carries a snake_case string; otherwise
/// exactly one, for the first condition that fails, in this order: the
/// attribute is missing, it has no argument, its first argument is not a
/// string, the string is not snake_case. (The last message reads "camel
/// case"; the historical wording is kept as is.)
pub open spec fn snake_case_field_diags(field: FieldView) -> Seq<DiagnosticView> {
    if is_snake(field.name) {
        Seq::empty()
    } else {
        match find_map_attribute(field.attributes) {
            Option::None => seq![map_diag("Missing attribute"@, field.span)],
            Option::Some(attr) => if attr.arguments.len() == 0 {
                seq![map_diag("Attribute is empty"@, field.span)]
            } else {
                match attr.arguments.first() {
                    ArgumentView::StringValue(value) => if is_snake(value) {
                        Seq::empty()
                    } else {
                        seq![map_diag("Map attribute is not camel case"@, field.span)]
                    },
                    ArgumentView::Other => seq![
                        map_diag("Attribute has incorrect value, expected string"@, field.span),
                    ],
                }
            },
        }
    }
}

/// Whether the field satisfies the mapping requirement outright: its first
/// `map` attribute exists and carries, as first argument, a snake_case
/// string literal.
pub open spec fn has_snake_case_map(field: FieldView) -> bool {
    match find_map_attribute(field.attributes) {
        Option::Some(attr) => attr.arguments.len() > 0 && match attr.arguments.first() {
            ArgumentView::StringValue(value) => is_snake(value),
            ArgumentView::Other => false,
        },
        Option::None => false,
    }
}

/// Law: a field whose name is snake_case gets no finding from this rule,
/// whatever attributes it carries.
pub proof fn lemma_snake_name_no_diag(field: FieldView)
    requires
        is_snake(field.name),
    ensures
        snake_case_field_diags(field) == Seq::<DiagnosticView>::empty(),
{
}

/// Law: a field whose name is not snake_case and which does not satisfy the
/// mapping requirement gets exactly one finding, anchored at the field's
/// span and labelled `Map`, for the first condition that fails, in this
/// order: missing attribute, then empty attribute, then wrong value type,
/// then non-snake-case value. (A non-snake_case field that does satisfy the
/// requirement gets none.)
pub proof fn lemma_non_snake_name_one_diag(field: FieldView)
    requires
        !is_snake(field.name),
        !has_snake_case_map(field),
    ensures
        snake_case_field_diags(field).len() == 1,
        snake_case_field_diags(field)[0].span == field.span,
        snake_case_field_diags(field)[0].kind == (DiagnosticKindView::AttributeValidation {
            attribute: "Map"@,
        }),
        find_map_attribute(field.attributes) is None ==> snake_case_field_diags(field)[0].message
            == "Missing attribute"@,
        forall|attr: AttributeView|
            find_map_attribute(field.attributes) == Option::Some(attr) && attr.arguments.len()
                == 0 ==> snake_case_field_diags(field)[0].message == "Attribute is empty"@,
        forall|attr: AttributeView|
            find_map_attribute(field.attributes) == Option::Some(attr) && attr.arguments.len() > 0
                && attr.arguments.first() is Other ==> snake_case_field_diags(field)[0].message
                == "Attribute has incorrect value, expected string"@,
        forall|attr: AttributeView, value: Seq<char>|
            find_map_attribute(field.attributes) == Option::Some(attr) && attr.arguments.len() > 0
                && attr.arguments.first() == ArgumentView::StringValue(value) ==> (!is_snake(value)
                && snake_case_field_diags(field)[0].message
                == "Map attribute is not camel case"@),
{
}

/// The findings owed for a model's fields, in source order.
pub open spec fn snake_case_fields_diags(fields: Seq<FieldView>) -> Seq<DiagnosticView>
    decreases fields.len(),
{
    if fields.len() == 0 {
        Seq::empty()
    } else {
        snake_case_fields_diags(fields.drop_last()) + snake_case_field_diags(fields.last())
    }
}

/// The findings owed for one top-level declaration: those of its fields for
/// a model, none for anything else.
pub open spec fn snake_case_top_diags(top: TopView) -> Seq<DiagnosticView> {
    match top {
        TopView::Model(m) => snake_case_fields_diags(m.fields),
        _ => Seq::empty(),
    }
}

/// The findings owed for a whole schema, models in source order.
pub open spec fn snake_case_diags(tops: Seq<TopView>) -> Seq<DiagnosticView>
    decreases tops.len(),
{
    if tops.len() == 0 {
        Seq::empty()
    } else {
        snake_case_diags(tops.drop_last()) + snake_case_top_diags(tops.last())
    }
}

/// Finds the index of the first attribute named `map`, if any.
fn find_map_attr(attributes: &Vec<Attribute>) -> (r: Option<usize>)
    ensures
        ({
            let attrs = Seq::new(attributes@.len(), |k: int| attributes@[k]@);
            match r {
                Option::Some(j) => j < attributes@.len() && find_map_attribute(attrs)
                    == Option::Some(attrs[j as int]),
                Option::None => find_map_attribute(attrs) is None,
            }
        }),
{
    let ghost attrs = Seq::new(attributes@.len(), |k: int| attributes@[k]@);
    let map_name: String = "map".to_owned();
    let mut j: usize = 0;
    proof {
        assert(attrs.skip(0int) =~= attrs);
    }
    while j < attributes.len()
        invariant
            j <= attributes@.len(),
            map_name@ == "map"@,
            attrs == Seq::new(attributes@.len(), |k: int| attributes@[k]@),
            find_map_attribute(attrs) == find_map_attribute(attrs.skip(j as int)),
        decreases attributes@.len() - j,
    {
        if attributes[j].name == map_name {
            proof {
                assert(attrs.skip(j as int).first() == attrs[j as int]);
            }
            return Option::Some(j);
        }
        j = j + 1;
        proof {
            assert(attrs.skip(j as int - 1).drop_first() =~= attrs.skip(j as int));
            assert(attrs.skip(j as int - 1).first() == attrs[j as int - 1]);
        }
    }
    proof {
        assert(attrs.skip(attributes@.len() as int) =~= Seq::<AttributeView>::empty());
    }
    Option::None
}

/// Checks one field and appends exactly the findings it owes.
fn check_field(field: &Field, diagnostics: &mut Diagnostics)
    ensures
        final(diagnostics)@ == old(diagnostics)@ + snake_case_field_diags(field@),
{
    proof {
        assert(old(diagnostics)@ + Seq::<DiagnosticView>::empty() =~= old(diagnostics)@);
    }
    if is_snake_case_str(field.name.as_str()) {
        return ;
    }
    let pushed: Diagnostic;
    match find_map_attr(&field.attributes) {
        Option::None => {
            pushed = Diagnostic::new_attribute_validation_error(
                "Missing attribute",
                "Map",
                field.span,
            );
        },
        Option::Some(j) => {
            let attr = &field.attributes[j];
            proof {
                assert(field@.attributes =~= Seq::new(
                    field.attributes@.len(),
                    |k: int| field.attributes@[k]@,
                ));
                assert(attr@.arguments.len() == attr.arguments@.len());
            }
            if attr.arguments.len() == 0 {
                pushed = Diagnostic::new_attribute_validation_error(
                    "Attribute is empty",
                    "Map",
                    field.span,
                );
            } else {
                match &attr.arguments[0] {
                    Argument::StringValue(value) => {
                        proof {
                            assert(attr@.arguments.first() == attr.arguments@[0int]@);
                        }
                        if is_snake_case_str(value.as_str()) {
                            return ;
                        }
                        pushed = Diagnostic::new_attribute_validation_error(
                            "Map attribute is not camel case",
                            "Map",
                            field.span,
                        );
                    },
                    Argument::Other => {
                        proof {
                            assert(attr@.arguments.first() == attr.arguments@[0int]@);
                        }
                        pushed = Diagnostic::new_attribute_validation_error(
                            "Attribute has incorrect value, expected string",
                            "Map",
                            field.span,
                        );
                    },
                }
            }
        },
    }
    let ghost before = diagnostics@;
    let ghost d = pushed@;
    diagnostics.push_error(pushed);
    proof {
        assert(diagnostics@ =~= before + seq![d]);
    }
}

/// Checks the fields of one model in source order.
fn check_fields(fields: &Vec<Field>, diagnostics: &mut Diagnostics)
    ensures
        final(diagnostics)@ == old(diagnostics)@ + snake_case_fields_diags(
            Seq::new(fields@.len(), |k: int| fields@[k]@),
        ),
{
    let ghost fieldsv = Seq::new(fields@.len(), |k: int| fields@[k]@);
    let mut i: usize = 0;
    proof {
        assert(fieldsv.take(0int) =~= Seq::<FieldView>::empty());
        assert(diagnostics@ =~= old(diagnostics)@ + snake_case_fields_diags(
            fieldsv.take(0int),
        ));
    }
    while i < fields.len()
        invariant
            i <= fields@.len(),
            fieldsv == Seq::new(fields@.len(), |k: int| fields@[k]@),
            diagnostics@ == old(diagnostics)@ + snake_case_fields_diags(fieldsv.take(i as int)),
        decreases fields@.len() - i,
    {
        check_field(&fields[i], diagnostics);
        i = i + 1;
        proof {
            assert(fieldsv.take(i as int).drop_last() =~= fieldsv.take(i as int - 1));
            assert(fieldsv.take(i as int).last() == fieldsv[i as int - 1]);
            assert(old(diagnostics)@ + snake_case_fields_diags(fieldsv.take(i as int - 1))
                + snake_case_field_diags(fieldsv[i as int - 1]) =~= old(diagnostics)@
                + snake_case_fields_diags(fieldsv.take(i as int)));
        }
    }
    proof {
        assert(fieldsv.take(fieldsv.len() as int) =~= fieldsv);
    }
}

/// Every field whose name is not snake_case must carry a `map` attribute
/// whose first argument is a snake_case string literal.
pub struct RequireSnakeCaseMap {}

impl Rule for RequireSnakeCaseMap {
    open spec fn diags(tops: Seq<TopView>) -> Seq<DiagnosticView> {
        snake_case_diags(tops)
    }

    fn check(schema: &SchemaAst, diagnostics: &mut Diagnostics) {
        let mut i: usize = 0;
        proof {
            assert(schema@.take(0int) =~= Seq::<TopView>::empty());
            assert(diagnostics@ =~= old(diagnostics)@ + snake_case_diags(schema@.take(0int)));
        }
        while i < schema.tops.len()
            invariant
                i <= schema.tops@.len(),
                schema@.len() == schema.tops@.len(),
                diagnostics@ == old(diagnostics)@ + snake_case_diags(schema@.take(i as int)),
            decreases schema.tops@.len() - i,
        {
            let ghost before = diagnostics@;
            match &schema.tops[i] {
                Top::Model(model) => {
                    check_fields(&model.fields, diagnostics);
                    proof {
                        assert(diagnostics@ =~= before + snake_case_top_diags(
                            schema@[i as int],
                        ));
                    }
                },
                _ => {},
            }
            i = i + 1;
            proof {
                assert(schema@.take(i as int).drop_last() =~= schema@.take(i as int - 1));
                assert(schema@.take(i as int).last() == schema@[i as int - 1]);
                assert(old(diagnostics)@ + snake_case_diags(schema@.take(i as int - 1))
                    + snake_case_top_diags(schema@[i as int - 1]) =~= old(diagnostics)@
                    + snake_case_diags(schema@.take(i as int)));
            }
        }
        proof {
            assert(schema@.take(schema@.len() as int) =~= schema@);
        }
    }
}

} // verus!
