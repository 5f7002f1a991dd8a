//! Style lints for a parsed data-model schema.
//!
//! A schema is an ordered list of top-level declarations; the rules here walk
//! the models among them and append source-anchored diagnostics to a sink.
//! Parsing the source text and rendering the diagnostics are the business of
//! the surrounding program; this crate only inspects an already-parsed tree.

pub mod ast;
pub mod diagnostics;
pub mod require_snake_case_map;
pub mod require_timestamps;
pub mod snake;

use vstd::prelude::*;

verus! {

use crate::ast::{SchemaAst, TopView};
use crate::diagnostics::{Diagnostics, DiagnosticView};

/// The uniform capability of a style rule: inspect a schema tree, append
/// zero or more findings to the sink, and never touch anything else. Each
/// rule names the findings it owes in `diags`, a function of the schema
/// alone, so one run is exactly as good as another.
pub trait Rule {
    /// The findings this rule owes for the given schema, in emission order.
    spec fn diags(tops: Seq<TopView>) -> Seq<DiagnosticView>;

    /// Appends exactly `Self::diags(schema@)` to the sink, after whatever
    /// the sink already held.
    fn check(schema: &SchemaAst, diagnostics: &mut Diagnostics)
        ensures
            final(diagnostics)@ == old(diagnostics)@ + Self::diags(schema@),
    ;
}

/// The findings one whole validation pass owes: every rule's findings, in
/// registration order — RequireTimestamps first, then RequireSnakeCaseMap.
pub open spec fn all_rule_diags(tops: Seq<TopView>) -> Seq<DiagnosticView> {
    require_timestamps::timestamps_diags(tops) + require_snake_case_map::snake_case_diags(tops)
}

/// Runs each registered rule exactly once, in the fixed order. No rule
/// aborts the pass; everything already in the sink stays in place and the
/// rules' findings follow it.
pub fn run_all_rules(schema: &SchemaAst, diagnostics: &mut Diagnostics)
    ensures
        final(diagnostics)@ == old(diagnostics)@ + all_rule_diags(schema@),
{
    let ghost before = diagnostics@;
    require_timestamps::RequireTimestamps::check(schema, diagnostics);
    require_snake_case_map::RequireSnakeCaseMap::check(schema, diagnostics);
    proof {
        assert(diagnostics@ =~= before + all_rule_diags(schema@));
    }
}

/// Law: what a pass emits is a function of the schema tree alone, so
/// running the rule set twice over one tree, each time from a fresh sink,
/// yields identical diagnostic sequences.
pub proof fn lemma_pass_deterministic(tops1: Seq<TopView>, tops2: Seq<TopView>)
    requires
        tops1 == tops2,
    ensures
        all_rule_diags(tops1) == all_rule_diags(tops2),
{
}

} // verus!
