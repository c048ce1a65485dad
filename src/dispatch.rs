use vstd::prelude::*;

use crate::response::{
    action_response, action_text, error_response, error_status, error_text, not_found_response,
    not_found_text, ActionInput, Error, HandleResult, HttpResponse,
};
use crate::route::{classified, classify, method_text, method_token, path_part, strip_query, Method, Route};

verus! {

/// The largest number of body bytes read for one action request (16 MiB).
pub const MAX_READ: u64 = 16777216;

/// The first step of handling a request, decided from its method and path alone.
pub enum Step {
    /// Handling is over: send this response, or delegate.
    Finished(HandleResult),
    /// The action route: read at most this many body bytes, decode them, and answer.
    ReadActionBody(u64),
}

/// What a step comes to, as values.
pub enum Plan {
    Reply(u16, Seq<char>),
    Delegate,
    ReadBody(u64),
}

/// The plan that a handle result stands for.
pub open spec fn result_plan(h: HandleResult) -> Plan {
    match h {
        HandleResult::Response(r) => Plan::Reply(r.status, r.body@),
        HandleResult::DelegateToMcp => Plan::Delegate,
    }
}

/// The plan that a step stands for.
pub open spec fn step_plan(s: Step) -> Plan {
    match s {
        Step::Finished(h) => result_plan(h),
        Step::ReadActionBody(n) => Plan::ReadBody(n),
    }
}

/// The text of an optional path-with-query; an absent one reads as empty.
pub open spec fn target_text(path_with_query: Option<String>) -> Seq<char> {
    match path_with_query {
        Some(s) => s@,
        None => Seq::empty(),
    }
}

/// What a request with this method and path-with-query is owed.
pub open spec fn planned(m: Method, path_with_query: Seq<char>) -> Plan {
    let path = path_part(path_with_query);
    match classified(m, path) {
        Some(Route::Health) => Plan::Reply(200, "healthy"@),
        Some(Route::Mcp) => Plan::Delegate,
        Some(Route::Actions) => Plan::ReadBody(MAX_READ),
        None => Plan::Reply(404, not_found_text(method_token(m), path)),
    }
}

/// Decides the first step for a request: classify it, then answer the health check,
/// delegate the MCP route, ask for the body of an action request, or report no match.
/// The request body is not needed for this decision.
pub fn inner_handle(method: &Method, path_with_query: Option<String>) -> (r: Step)
    ensures
        step_plan(r) == planned(*method, target_text(path_with_query)),
        r matches Step::Finished(HandleResult::Response(resp)) ==> resp.wf(),
{
    let target = match path_with_query {
        Some(s) => s,
        None => String::new(),
    };
    let path = strip_query(target.as_str());
    match classify(method, path) {
        Some(Route::Health) => Step::Finished(
            HandleResult::Response(HttpResponse::new(200, String::from_str("healthy"))),
        ),
        Some(Route::Mcp) => Step::Finished(HandleResult::DelegateToMcp),
        Some(Route::Actions) => Step::ReadActionBody(MAX_READ),
        None => {
            let token = method_text(method);
            Step::Finished(HandleResult::Response(not_found_response(token.as_str(), path)))
        },
    }
}

/// Settles the outcome of handling: a result stays as it is, and a failure becomes the
/// response that reports it.
pub fn resolve(result: Result<HandleResult, Error>) -> (r: HandleResult)
    ensures
        result matches Ok(h) ==> result_plan(r) == result_plan(h),
        result matches Err(e) ==> result_plan(r) == Plan::Reply(error_status(e), error_text(e)),
{
    match result {
        Ok(h) => h,
        Err(e) => HandleResult::Response(error_response(e)),
    }
}

/// Answers a decoded action request.
pub fn handle_action(input: &ActionInput) -> (r: HandleResult)
    ensures
        result_plan(r) == Plan::Reply(200, action_text(input.action_id@, input.input@)),
{
    HandleResult::Response(action_response(input))
}

} // verus!
