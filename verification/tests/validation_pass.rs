use schema_lints::ast::{Argument, Attribute, Field, Model, SchemaAst, Span, Top};
use schema_lints::diagnostics::{Diagnostic, DiagnosticKind, Diagnostics};
use schema_lints::run_all_rules;

fn vp_attr(name: &str, arguments: Vec<Argument>) -> Attribute {
    Attribute { name: name.to_string(), arguments }
}

fn vp_map_attr(value: &str) -> Attribute {
    vp_attr("map", vec![Argument::StringValue(value.to_string())])
}

fn vp_field(name: &str, attributes: Vec<Attribute>, start: usize) -> Field {
    Field { name: name.to_string(), attributes, span: Span { start, end: start + 1 } }
}

fn vp_user_model(fields: Vec<Field>) -> SchemaAst {
    SchemaAst {
        tops: vec![Top::Model(Model {
            name: "User".to_string(),
            fields,
            span: Span { start: 0, end: 300 },
        })],
    }
}

fn vp_full_user_model() -> SchemaAst {
    vp_user_model(vec![
        vp_field("id", vec![], 10),
        vp_field("email", vec![], 30),
        vp_field("name", vec![], 50),
        vp_field("posts", vec![], 70),
        vp_field("createdAt", vec![vp_map_attr("created_at")], 90),
        vp_field("updatedAt", vec![vp_map_attr("created_at")], 120),
    ])
}

#[test]
fn a_fully_compliant_model_passes_both_rules() {
    let schema_ast = vp_full_user_model();
    let mut diagnostics = Diagnostics::new();

    run_all_rules(&schema_ast, &mut diagnostics);

    assert_eq!(diagnostics.errors().len(), 0);
}

#[test]
fn a_single_snake_case_field_still_misses_timestamps() {
    let schema_ast = vp_user_model(vec![vp_field("email", vec![], 10)]);
    let mut diagnostics = Diagnostics::new();

    run_all_rules(&schema_ast, &mut diagnostics);

    let errors = diagnostics.errors();
    assert_eq!(errors.len(), 1);
    assert_eq!(errors[0].message, "Missing timestamps");
    assert_eq!(errors[0].kind, DiagnosticKind::InvalidModel);
    assert_eq!(errors[0].span, Span { start: 0, end: 300 });
}

#[test]
fn timestamp_findings_come_before_mapping_findings() {
    // One model that violates both rules: the pass runs RequireTimestamps
    // first, so its model-level finding precedes the field-level one, even
    // though the field span starts later than the model span.
    let schema_ast = vp_user_model(vec![vp_field("createdAt", vec![], 10)]);
    let mut diagnostics = Diagnostics::new();

    run_all_rules(&schema_ast, &mut diagnostics);

    let errors = diagnostics.errors();
    assert_eq!(errors.len(), 2);
    assert_eq!(errors[0].message, "Missing timestamps");
    assert_eq!(errors[0].span, Span { start: 0, end: 300 });
    assert_eq!(errors[1].message, "Missing attribute");
    assert_eq!(errors[1].span, Span { start: 10, end: 11 });
}

#[test]
fn the_pass_keeps_what_the_sink_already_held() {
    // Parse-time diagnostics sit in the sink before the rules run; the pass
    // appends after them and never reorders or drops them.
    let schema_ast = vp_user_model(vec![vp_field("email", vec![], 10)]);
    let mut diagnostics = Diagnostics::new();
    diagnostics.push_error(Diagnostic::new_invalid_model_error(
        "unparseable construct",
        Span { start: 400, end: 410 },
    ));

    run_all_rules(&schema_ast, &mut diagnostics);

    let errors = diagnostics.errors();
    assert_eq!(errors.len(), 2);
    assert_eq!(errors[0].message, "unparseable construct");
    assert_eq!(errors[1].message, "Missing timestamps");
}

#[test]
fn two_runs_on_one_tree_emit_identical_sequences() {
    let schema_ast = vp_user_model(vec![
        vp_field("createdAt", vec![], 10),
        vp_field("updatedAt", vec![vp_attr("map", vec![])], 40),
        vp_field("postCount", vec![vp_map_attr("postCount")], 70),
    ]);

    let mut first = Diagnostics::new();
    run_all_rules(&schema_ast, &mut first);
    let mut second = Diagnostics::new();
    run_all_rules(&schema_ast, &mut second);

    assert_eq!(first.errors(), second.errors());
    assert_eq!(first.errors().len(), 3);
}
