use schema_lints::Rule;
use schema_lints::ast::{Argument, Attribute, Field, Model, SchemaAst, Span, Top};
use schema_lints::diagnostics::{DiagnosticKind, Diagnostics};
use schema_lints::require_timestamps::RequireTimestamps;

fn ts_attr(name: &str, arguments: Vec<Argument>) -> Attribute {
    Attribute { name: name.to_string(), arguments }
}

fn ts_field(name: &str, attributes: Vec<Attribute>, start: usize) -> Field {
    Field { name: name.to_string(), attributes, span: Span { start, end: start + 1 } }
}

fn ts_model(name: &str, fields: Vec<Field>, start: usize, end: usize) -> Top {
    Top::Model(Model { name: name.to_string(), fields, span: Span { start, end } })
}

#[test]
fn it_passes_when_the_model_has_timestamps() {
    let mut diagnostics = Diagnostics::new();
    let schema_ast = SchemaAst {
        tops: vec![ts_model(
            "User",
            vec![
                ts_field(
                    "createdAt",
                    vec![ts_attr("default", vec![Argument::Other])],
                    20,
                ),
                ts_field("updatedAt", vec![ts_attr("updatedAt", vec![])], 60),
            ],
            0,
            100,
        )],
    };

    RequireTimestamps::check(&schema_ast, &mut diagnostics);

    assert_eq!(diagnostics.errors().len(), 0);
}

#[test]
fn it_fails_when_the_model_does_not_have_timestamps() {
    let mut diagnostics = Diagnostics::new();
    let schema_ast = SchemaAst {
        tops: vec![ts_model(
            "User",
            vec![
                ts_field(
                    "id",
                    vec![
                        ts_attr("id", vec![]),
                        ts_attr("default", vec![Argument::Other]),
                    ],
                    20,
                ),
                ts_field("email", vec![ts_attr("unique", vec![])], 60),
                ts_field("name", vec![], 90),
                ts_field("posts", vec![], 110),
            ],
            0,
            130,
        )],
    };

    RequireTimestamps::check(&schema_ast, &mut diagnostics);

    assert_eq!(diagnostics.errors().len(), 1);
}

#[test]
fn empty_model_yields_exactly_one_model_level_diagnostic() {
    let mut diagnostics = Diagnostics::new();
    let schema_ast = SchemaAst { tops: vec![ts_model("Empty", vec![], 0, 10)] };

    RequireTimestamps::check(&schema_ast, &mut diagnostics);

    let errors = diagnostics.errors();
    assert_eq!(errors.len(), 1);
    assert_eq!(errors[0].message, "Missing timestamps");
    assert_eq!(errors[0].kind, DiagnosticKind::InvalidModel);
    assert_eq!(errors[0].span, Span { start: 0, end: 10 });
}

#[test]
fn two_created_at_fields_pass_the_literal_count() {
    // The rule counts timestamp-named fields; two `createdAt` fields reach
    // the threshold even without an `updatedAt`. That is the stated policy.
    let mut diagnostics = Diagnostics::new();
    let schema_ast = SchemaAst {
        tops: vec![ts_model(
            "User",
            vec![
                ts_field("createdAt", vec![], 20),
                ts_field("createdAt", vec![], 50),
            ],
            0,
            80,
        )],
    };

    RequireTimestamps::check(&schema_ast, &mut diagnostics);

    assert_eq!(diagnostics.errors().len(), 0);
}

#[test]
fn non_model_declarations_are_ignored_by_timestamps() {
    let mut diagnostics = Diagnostics::new();
    let schema_ast = SchemaAst {
        tops: vec![
            Top::Enum(schema_lints::ast::EnumDecl {
                name: "Role".to_string(),
                span: Span { start: 0, end: 10 },
            }),
            Top::Other,
        ],
    };

    RequireTimestamps::check(&schema_ast, &mut diagnostics);

    assert_eq!(diagnostics.errors().len(), 0);
}

#[test]
fn each_model_short_of_timestamps_gets_its_own_diagnostic() {
    let mut diagnostics = Diagnostics::new();
    let schema_ast = SchemaAst {
        tops: vec![
            ts_model("A", vec![ts_field("createdAt", vec![], 10)], 0, 30),
            ts_model("B", vec![ts_field("createdAt", vec![], 50), ts_field("updatedAt", vec![], 60)], 40, 80),
            ts_model("C", vec![], 90, 100),
        ],
    };

    RequireTimestamps::check(&schema_ast, &mut diagnostics);

    let errors = diagnostics.errors();
    assert_eq!(errors.len(), 2);
    // Emission order follows source order of the models.
    assert_eq!(errors[0].span, Span { start: 0, end: 30 });
    assert_eq!(errors[1].span, Span { start: 90, end: 100 });
}
