//! Unit tests of the parsing, URL building and response interpretation.

use cargo_scorecard::listing::{parse_dependency_list, split_lines, split_space_tokens};
use cargo_scorecard::lookup::{
    interpret_registry_response, interpret_scorecard_response, registry_url, scorecard_url,
};
use cargo_scorecard::model::{
    resolve_outcome_of, score_outcome_of, DependencyRef, LookupCause, LookupError, ResolveOutcome,
    ScoreOutcome,
};
use cargo_scorecard::orchestrator::{finish_item, plan_after_resolve, ItemLookup, ScorePlan};
use cargo_scorecard::text::strip_scheme;

#[test]
fn listing_keeps_two_token_lines_in_order() {
    let text = "serde 1.0.0\nnot-a-pair\n\n   \ntokio 1.2.3 extra\nanyhow\t1.0.1\n";
    let deps = parse_dependency_list(text);
    assert_eq!(
        deps,
        vec![
            DependencyRef { name: "serde".to_string(), version: "1.0.0".to_string() },
            DependencyRef { name: "anyhow".to_string(), version: "1.0.1".to_string() },
        ]
    );
}

#[test]
fn listing_handles_missing_trailing_newline() {
    let deps = parse_dependency_list("serde 1.0.0");
    assert_eq!(deps.len(), 1);
    assert_eq!(deps[0].name, "serde");
    assert_eq!(deps[0].version, "1.0.0");
}

#[test]
fn listing_of_empty_text_is_empty() {
    assert_eq!(parse_dependency_list(""), vec![]);
    assert_eq!(parse_dependency_list("\n\n"), vec![]);
}

#[test]
fn listing_trims_padded_lines() {
    let deps = parse_dependency_list("  serde   1.0.0  \r\n");
    assert_eq!(deps.len(), 1);
    assert_eq!(deps[0].name, "serde");
    assert_eq!(deps[0].version, "1.0.0");
}

#[test]
fn tokens_split_on_runs_of_whitespace() {
    let toks = split_space_tokens("  a \t bb  ccc ");
    assert_eq!(toks, vec!["a".to_string(), "bb".to_string(), "ccc".to_string()]);
    assert_eq!(split_space_tokens(""), Vec::<String>::new());
}

#[test]
fn lines_split_on_breaks_without_empties() {
    let lines = split_lines("one\n\ntwo\nthree");
    assert_eq!(lines, vec!["one".to_string(), "two".to_string(), "three".to_string()]);
}

#[test]
fn registry_url_appends_name() {
    assert_eq!(registry_url("serde"), "https://crates.io/api/v1/crates/serde");
}

#[test]
fn scorecard_url_strips_https_scheme() {
    assert_eq!(
        scorecard_url("https://github.com/acme/widget"),
        "https://api.securityscorecards.dev/projects/github.com/acme/widget"
    );
}

#[test]
fn scorecard_url_strips_http_scheme() {
    assert_eq!(
        scorecard_url("http://github.com/acme/widget"),
        "https://api.securityscorecards.dev/projects/github.com/acme/widget"
    );
}

#[test]
fn strip_scheme_is_single_and_ordered() {
    assert_eq!(strip_scheme("https://github.com/acme/widget"), "github.com/acme/widget");
    assert_eq!(strip_scheme("http://github.com/acme/widget"), "github.com/acme/widget");
    assert_eq!(strip_scheme("github.com/acme/widget"), "github.com/acme/widget");
    assert_eq!(strip_scheme("http://https://x"), "x");
    assert_eq!(strip_scheme("https://https://x"), "https://x");
    assert_eq!(strip_scheme(""), "");
}

#[test]
fn registry_success_with_repository() {
    let body = "{\"crate\":{\"repository\":\"https://github.com/serde-rs/serde\"}}";
    let r = interpret_registry_response("serde", 200, body);
    assert_eq!(r, Ok(Some("https://github.com/serde-rs/serde".to_string())));
}

#[test]
fn registry_success_without_repository() {
    assert_eq!(interpret_registry_response("x", 200, "{\"crate\":{\"repository\":null}}"), Ok(None));
    assert_eq!(interpret_registry_response("x", 200, "{\"crate\":{}}"), Ok(None));
    assert_eq!(interpret_registry_response("x", 200, "{}"), Ok(None));
    assert_eq!(interpret_registry_response("x", 200, "{\"crate\":{\"repository\":7}}"), Ok(None));
}

#[test]
fn registry_http_error_is_reported() {
    let r = interpret_registry_response("serde", 404, "ignored");
    assert_eq!(
        r,
        Err(LookupError { subject: "serde".to_string(), cause: LookupCause::HttpStatus(404) })
    );
    let r = interpret_registry_response("serde", 301, "ignored");
    assert!(matches!(r, Err(LookupError { cause: LookupCause::HttpStatus(301), .. })));
}

#[test]
fn registry_parse_error_is_reported() {
    let r = interpret_registry_response("serde", 200, "{broken");
    assert_eq!(r, Err(LookupError { subject: "serde".to_string(), cause: LookupCause::Parse }));
}

#[test]
fn scorecard_success_with_score() {
    let r = interpret_scorecard_response("github.com/serde-rs/serde", 200, "{\"score\":9.2}");
    assert_eq!(r, Ok(Some("9.2".to_string())));
    let r = interpret_scorecard_response("github.com/x/y", 200, "{\"score\":7}");
    assert_eq!(r, Ok(Some("7".to_string())));
}

#[test]
fn scorecard_success_without_score() {
    assert_eq!(interpret_scorecard_response("g", 200, "{}"), Ok(None));
    assert_eq!(interpret_scorecard_response("g", 200, "{\"score\":null}"), Ok(None));
    assert_eq!(interpret_scorecard_response("g", 200, "{\"score\":\"high\"}"), Ok(None));
}

#[test]
fn scorecard_errors_are_reported() {
    assert_eq!(
        interpret_scorecard_response("g", 503, "x"),
        Err(LookupError { subject: "g".to_string(), cause: LookupCause::HttpStatus(503) })
    );
    assert_eq!(
        interpret_scorecard_response("g", 200, "nonsense"),
        Err(LookupError { subject: "g".to_string(), cause: LookupCause::Parse })
    );
}

#[test]
fn outcomes_follow_results() {
    assert_eq!(
        resolve_outcome_of(Ok(Some("u".to_string()))),
        ResolveOutcome::Found("u".to_string())
    );
    assert_eq!(resolve_outcome_of(Ok(None)), ResolveOutcome::NotFound);
    let e = LookupError { subject: "s".to_string(), cause: LookupCause::Parse };
    assert_eq!(resolve_outcome_of(Err(e.clone())), ResolveOutcome::Failed(e.clone()));
    assert_eq!(score_outcome_of(Ok(Some("9.2".to_string()))), ScoreOutcome::Scored("9.2".to_string()));
    assert_eq!(score_outcome_of(Ok(None)), ScoreOutcome::NoScore);
    assert_eq!(score_outcome_of(Err(e.clone())), ScoreOutcome::Failed(e));
}

#[test]
fn plan_queries_exactly_on_found() {
    assert_eq!(
        plan_after_resolve(&ResolveOutcome::Found("https://g".to_string())),
        ScorePlan::Query("https://g".to_string())
    );
    assert_eq!(plan_after_resolve(&ResolveOutcome::NotFound), ScorePlan::Skip);
    let e = LookupError { subject: "s".to_string(), cause: LookupCause::Parse };
    assert_eq!(plan_after_resolve(&ResolveOutcome::Failed(e)), ScorePlan::Skip);
}

#[test]
fn finish_item_fills_fields_from_outcomes() {
    let d = DependencyRef { name: "serde".to_string(), version: "1.0.0".to_string() };
    let r = finish_item(
        &d,
        &ItemLookup {
            resolved: ResolveOutcome::Found("https://g".to_string()),
            scored: Some(ScoreOutcome::Scored("9.2".to_string())),
        },
    );
    assert_eq!(r.name, "serde");
    assert_eq!(r.version, "1.0.0");
    assert_eq!(r.repository, Some("https://g".to_string()));
    assert_eq!(r.security_score, Some("9.2".to_string()));
    let r = finish_item(
        &d,
        &ItemLookup {
            resolved: ResolveOutcome::Found("https://g".to_string()),
            scored: Some(ScoreOutcome::NoScore),
        },
    );
    assert_eq!(r.repository, Some("https://g".to_string()));
    assert_eq!(r.security_score, None);
    let r = finish_item(&d, &ItemLookup { resolved: ResolveOutcome::NotFound, scored: None });
    assert_eq!(r.repository, None);
    assert_eq!(r.security_score, None);
}
