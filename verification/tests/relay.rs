use finance_chat::relay::{classify, relay, render_answer, UpstreamOutcome, UpstreamResult};
use finance_chat::translator::{translate, IncomingQuery};

const SENTINEL: &str = "Could not extract answer from response";

fn response(status: u16, body: &str) -> UpstreamOutcome {
    UpstreamOutcome::Response { status, body: body.to_string() }
}

#[test]
fn transport_failure_keeps_indicator_and_description() {
    let a = relay(UpstreamOutcome::TransportError {
        description: "connection refused".to_string(),
    });
    assert_eq!(a.answer_text, "Request error: connection refused");
    assert!(a.answer_text.contains("Request error"));
}

#[test]
fn status_failure_embeds_code_and_body() {
    let a = relay(response(401, "unauthorized"));
    assert_eq!(a.answer_text, "API error 401: unauthorized");
    assert!(a.answer_text.contains("401"));
    assert!(a.answer_text.contains("unauthorized"));
}

#[test]
fn status_failure_with_empty_body() {
    let a = relay(response(503, ""));
    assert_eq!(a.answer_text, "API error 503: ");
}

#[test]
fn redirect_status_is_a_status_failure() {
    let a = relay(response(301, "moved"));
    assert_eq!(a.answer_text, "API error 301: moved");
}

#[test]
fn invalid_json_is_a_parse_failure() {
    let a = relay(response(200, "this is not json"));
    assert!(a.answer_text.starts_with("Parse error: "));
    assert!(a.answer_text.len() > "Parse error: ".len());
}

#[test]
fn body_without_choices_yields_sentinel() {
    let a = relay(response(200, "{}"));
    assert_eq!(a.answer_text, SENTINEL);
    let a = relay(response(200, "{\"usage\":{\"total_tokens\":3}}"));
    assert_eq!(a.answer_text, SENTINEL);
}

#[test]
fn empty_choice_list_yields_sentinel() {
    let a = relay(response(200, "{\"choices\":[]}"));
    assert_eq!(a.answer_text, SENTINEL);
}

#[test]
fn non_string_content_yields_sentinel() {
    let a = relay(response(200, "{\"choices\":[{\"message\":{\"content\":5}}]}"));
    assert_eq!(a.answer_text, SENTINEL);
}

#[test]
fn well_formed_payload_round_trips_the_content() {
    let body = "{\"choices\":[{\"message\":{\"content\":\"Spend less on rent.\"}}]}";
    let a = relay(response(200, body));
    assert_eq!(a.answer_text, "Spend less on rent.");
}

#[test]
fn classification_of_each_outcome() {
    match classify(UpstreamOutcome::TransportError { description: "dns".to_string() }) {
        UpstreamResult::TransportFailure { description } => assert_eq!(description, "dns"),
        _ => panic!("expected a transport failure"),
    }
    match classify(response(500, "oops")) {
        UpstreamResult::StatusFailure { code, body } => {
            assert_eq!(code, 500);
            assert_eq!(body, "oops");
        }
        _ => panic!("expected a status failure"),
    }
    match classify(response(200, "not json")) {
        UpstreamResult::ParseFailure { .. } => {}
        _ => panic!("expected a parse failure"),
    }
    match classify(response(204, "{\"a\":1}")) {
        UpstreamResult::Success { payload } => assert_eq!(payload, "{\"a\":1}"),
        _ => panic!("expected a success"),
    }
}

#[test]
fn render_answer_of_each_result() {
    let a = render_answer(UpstreamResult::TransportFailure { description: "t".to_string() });
    assert_eq!(a.answer_text, "Request error: t");
    let a = render_answer(UpstreamResult::StatusFailure { code: 404, body: "gone".to_string() });
    assert_eq!(a.answer_text, "API error 404: gone");
    let a = render_answer(UpstreamResult::ParseFailure { description: "p".to_string() });
    assert_eq!(a.answer_text, "Parse error: p");
    let a = render_answer(UpstreamResult::Success {
        payload: "{\"choices\":[{\"message\":{\"content\":\"hi\"}}]}".to_string(),
    });
    assert_eq!(a.answer_text, "hi");
}

#[test]
fn pipeline_is_idempotent_on_identical_inputs() {
    let body = "{\"choices\":[{\"message\":{\"content\":\"Save 10% each month.\"}}]}";
    let first = relay(response(200, body));
    let second = relay(response(200, body));
    assert_eq!(first.answer_text, second.answer_text);
}

#[test]
fn full_pipeline_twice_yields_identical_answers() {
    let make_query = || IncomingQuery {
        question: "Where does my money go?".to_string(),
        food_total_cents: 2500,
        rent_total_cents: 120000,
        entertainment_total_cents: 999,
    };
    let body = "{\"choices\":[{\"message\":{\"content\":\"Mostly rent.\"}}]}";
    let r1 = translate(&make_query());
    let r2 = translate(&make_query());
    assert_eq!(r1.model, r2.model);
    assert_eq!(r1.messages.len(), r2.messages.len());
    for (m1, m2) in r1.messages.iter().zip(r2.messages.iter()) {
        assert_eq!(m1.role, m2.role);
        assert_eq!(m1.content, m2.content);
    }
    assert_eq!(r1.max_output_tokens, r2.max_output_tokens);
    assert_eq!(r1.temperature_hundredths, r2.temperature_hundredths);
    let a1 = relay(response(200, body));
    let a2 = relay(response(200, body));
    assert_eq!(a1.answer_text, a2.answer_text);
    assert_eq!(a1.answer_text, "Mostly rent.");
}
