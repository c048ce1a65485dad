use http_dispatch::dispatch::{handle_action, inner_handle, resolve, Step, MAX_READ};
use http_dispatch::response::{
    error_response, send_response, ActionInput, Error, HandleResult, HttpResponse,
};
use http_dispatch::route::{classify, method_text, strip_query, Method, Route};

fn target(s: &str) -> Option<String> {
    Some(s.to_string())
}

fn reply(step: Step) -> (u16, String) {
    match step {
        Step::Finished(HandleResult::Response(r)) => (r.status, r.body),
        Step::Finished(HandleResult::DelegateToMcp) => panic!("delegated"),
        Step::ReadActionBody(_) => panic!("asked for the body"),
    }
}

fn settled(h: HandleResult) -> (u16, String) {
    match h {
        HandleResult::Response(r) => (r.status, r.body),
        HandleResult::DelegateToMcp => panic!("delegated"),
    }
}

#[test]
fn get_health_is_healthy() {
    let r = reply(inner_handle(&Method::Get, target("/health")));
    assert_eq!(r, (200, "healthy".to_string()));
}

#[test]
fn query_string_does_not_affect_matching() {
    let r = reply(inner_handle(&Method::Get, target("/health?x=1")));
    assert_eq!(r, (200, "healthy".to_string()));
    assert_eq!(classify(&Method::Get, strip_query("/health?x=1")), Some(Route::Health));
}

#[test]
fn get_actions_is_not_found() {
    let r = reply(inner_handle(&Method::Get, target("/actions")));
    assert_eq!(r, (404, "Route not found: GET /actions".to_string()));
}

#[test]
fn wrong_methods_on_known_paths_are_not_found() {
    let r = reply(inner_handle(&Method::Post, target("/health")));
    assert_eq!(r, (404, "Route not found: POST /health".to_string()));
    let r = reply(inner_handle(&Method::Get, target("/mcp?a=b")));
    assert_eq!(r, (404, "Route not found: GET /mcp".to_string()));
}

#[test]
fn post_actions_reads_a_bounded_body() {
    match inner_handle(&Method::Post, target("/actions")) {
        Step::ReadActionBody(limit) => assert_eq!(limit, 16 * 1024 * 1024),
        _ => panic!("expected a body read"),
    }
    assert_eq!(MAX_READ, 1u64 << 24);
}

#[test]
fn action_request_is_answered() {
    let input = ActionInput { action_id: "a1".to_string(), input: "hello".to_string() };
    let r = settled(resolve(Ok(handle_action(&input))));
    assert_eq!(r, (200, "Action a1 would be called with payload: hello".to_string()));
}

#[test]
fn missing_payload_is_invalid_input() {
    let msg = "missing field `payload` at line 1 column 18".to_string();
    let r = settled(resolve(Err(Error::InvalidInput(msg.clone()))));
    assert_eq!(r, (400, msg));
}

#[test]
fn non_json_body_is_invalid_input() {
    let msg = serde_json::from_str::<serde_json::Value>("not json").unwrap_err().to_string();
    assert!(!msg.is_empty());
    let r = settled(resolve(Err(Error::InvalidInput(msg.clone()))));
    assert_eq!(r, (400, msg));
}

#[test]
fn post_mcp_is_delegated() {
    match inner_handle(&Method::Post, target("/mcp")) {
        Step::Finished(HandleResult::DelegateToMcp) => {}
        _ => panic!("expected delegation"),
    }
    assert!(matches!(resolve(Ok(HandleResult::DelegateToMcp)), HandleResult::DelegateToMcp));
}

#[test]
fn delete_unknown_is_not_found() {
    let r = reply(inner_handle(&Method::Delete, target("/unknown")));
    assert_eq!(r, (404, "Route not found: DELETE /unknown".to_string()));
}

#[test]
fn unknown_method_keeps_its_token() {
    let r = reply(inner_handle(&Method::Other("PURGE".to_string()), target("/x?y")));
    assert_eq!(r, (404, "Route not found: PURGE /x".to_string()));
}

#[test]
fn absent_target_reads_as_empty_path() {
    let r = reply(inner_handle(&Method::Get, None));
    assert_eq!(r, (404, "Route not found: GET ".to_string()));
}

#[test]
fn method_tokens() {
    let all = [
        (Method::Get, "GET"),
        (Method::Head, "HEAD"),
        (Method::Post, "POST"),
        (Method::Put, "PUT"),
        (Method::Delete, "DELETE"),
        (Method::Connect, "CONNECT"),
        (Method::Options, "OPTIONS"),
        (Method::Trace, "TRACE"),
        (Method::Patch, "PATCH"),
    ];
    for (m, t) in all.iter() {
        assert_eq!(method_text(m), t.to_string());
    }
}

#[test]
fn strip_query_keeps_what_precedes_the_first_mark() {
    assert_eq!(strip_query("/a?b?c"), "/a");
    assert_eq!(strip_query("/plain"), "/plain");
    assert_eq!(strip_query("?only"), "");
    assert_eq!(strip_query(""), "");
    assert_eq!(strip_query("/ä?x"), "/ä");
}

#[test]
fn classification_is_exact() {
    assert_eq!(classify(&Method::Get, "/health"), Some(Route::Health));
    assert_eq!(classify(&Method::Post, "/actions"), Some(Route::Actions));
    assert_eq!(classify(&Method::Post, "/mcp"), Some(Route::Mcp));
    assert_eq!(classify(&Method::Get, "/health/"), None);
    assert_eq!(classify(&Method::Get, "/Health"), None);
    assert_eq!(classify(&Method::Get, "/"), None);
    assert_eq!(classify(&Method::Get, ""), None);
    assert_eq!(classify(&Method::Post, "/mcp/x"), None);
    assert_eq!(classify(&Method::Put, "/actions"), None);
}

#[test]
fn each_error_has_its_status() {
    let cases = vec![
        (Error::InvalidInput("a".to_string()), 400, "a"),
        (Error::FailedToReadBody("b".to_string()), 500, "b"),
        (Error::ActionCallFailed("c".to_string()), 400, "c"),
        (Error::HealthCheckFailed("d".to_string()), 400, "d"),
        (Error::McpForwardFailed("e".to_string()), 500, "e"),
        (Error::DelegateToMcp, 500, "Internal error: MCP delegation failed"),
    ];
    for (e, status, body) in cases {
        let r = error_response(e);
        assert_eq!((r.status, r.body), (status, body.to_string()));
    }
}

#[test]
fn response_is_laid_out_as_utf8() {
    let parts = send_response(HttpResponse::new(201, "héllo".to_string()));
    assert_eq!(parts.status, 201);
    assert_eq!(parts.body, "héllo".as_bytes().to_vec());
}
