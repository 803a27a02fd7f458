use lam::response::build_summary;
use lam::response::classify_response;
use lam::response::parse_response;
use lam::types::AnimeGeneratedSummary;
use lam::worker::ServiceEvent;

fn body_with_content(content: &str) -> String {
    let quoted = serde_json::to_string(content).unwrap();
    format!(
        "{{\"choices\":[{{\"message\":{{\"content\":{}}}}}],\"model\":\"m\"}}",
        quoted
    )
}

fn good_content() -> &'static str {
    "{\"summary\":\"two sentences\",\"themes\":[\"space\",\"war\"],\"genres\":[\"Sci-Fi\"]}"
}

#[test]
fn response_parses_down_the_nested_content() {
    let body = body_with_content(good_content());
    let s = parse_response(&body, 11).unwrap();
    assert_eq!(s.id, 11);
    assert_eq!(s.generated_summary.summary, "two sentences");
    assert_eq!(s.generated_summary.generated_themes, vec!["space", "war"]);
    assert_eq!(s.generated_summary.generated_genres, vec!["Sci-Fi"]);
}

#[test]
fn response_that_is_not_json_is_rejected() {
    assert!(parse_response("not json at all", 1).is_none());
}

#[test]
fn response_without_choices_is_rejected() {
    assert!(parse_response("{\"model\":\"m\"}", 11).is_none());
}

#[test]
fn response_with_non_string_content_is_rejected() {
    let body = "{\"choices\":[{\"message\":{\"content\":5}}]}";
    assert!(parse_response(body, 11).is_none());
}

#[test]
fn response_with_malformed_content_is_rejected() {
    let body = body_with_content("{broken");
    assert!(parse_response(&body, 11).is_none());
}

#[test]
fn content_missing_a_field_is_rejected() {
    assert!(parse_response(&body_with_content("{\"summary\":\"s\"}"), 1).is_none());
    assert!(parse_response(&body_with_content("{\"themes\":[],\"genres\":[]}"), 1).is_none());
}

#[test]
fn content_with_mistyped_fields_is_rejected() {
    let cases = [
        "{\"summary\":1,\"themes\":[],\"genres\":[]}",
        "{\"summary\":\"s\",\"themes\":[1],\"genres\":[]}",
        "{\"summary\":\"s\",\"themes\":\"x\",\"genres\":[]}",
        "{\"summary\":\"s\",\"themes\":[],\"genres\":[null]}",
    ];
    for content in cases {
        assert!(parse_response(&body_with_content(content), 1).is_none());
    }
}

#[test]
fn build_summary_ties_id_to_generated() {
    let g = AnimeGeneratedSummary {
        summary: String::from("s"),
        generated_genres: vec![],
        generated_themes: vec![],
    };
    let s = build_summary(3, g);
    assert_eq!(s.id, 3);
    assert_eq!(s.generated_summary.summary, "s");
}

#[test]
fn rate_limit_answer_carries_header_seconds() {
    let e = classify_response(429, Some("7"), "");
    assert_eq!(e, ServiceEvent::RateLimited { retry_after_secs: Some(7) });
}

#[test]
fn rate_limit_answer_without_header_carries_nothing() {
    let e = classify_response(429, None, "");
    assert_eq!(e, ServiceEvent::RateLimited { retry_after_secs: None });
    let e2 = classify_response(429, Some("soon"), "");
    assert_eq!(e2, ServiceEvent::RateLimited { retry_after_secs: None });
}

#[test]
fn other_failure_statuses_cost_budget() {
    assert_eq!(classify_response(500, None, ""), ServiceEvent::Failed);
    assert_eq!(classify_response(404, None, ""), ServiceEvent::Failed);
    assert_eq!(classify_response(503, None, ""), ServiceEvent::Failed);
}

#[test]
fn success_with_good_body_parses() {
    let body = body_with_content(good_content());
    match classify_response(200, None, &body) {
        ServiceEvent::Parsed(g) => {
            assert_eq!(g.summary, "two sentences");
            assert_eq!(g.generated_themes, vec!["space", "war"]);
            assert_eq!(g.generated_genres, vec!["Sci-Fi"]);
        },
        other => panic!("expected a parsed summary, got {:?}", other),
    }
}

#[test]
fn success_with_malformed_body_is_unparseable() {
    assert_eq!(classify_response(200, None, "{oops"), ServiceEvent::Unparseable);
    let body = body_with_content("{oops");
    assert_eq!(classify_response(200, None, &body), ServiceEvent::Unparseable);
}
