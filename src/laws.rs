use vstd::prelude::*;

use crate::dispatch::{planned, Plan, MAX_READ};
use crate::response::not_found_text;
use crate::route::{
    classified, lemma_query_start, method_token, path_part, Method, Route,
};

verus! {

/// A path with no query mark in it.
pub open spec fn query_free(path: Seq<char>) -> bool {
    forall|i: int| 0 <= i < path.len() ==> path[i] != '?'
}

/// One of the three paths of the route table.
pub open spec fn known_path(path: Seq<char>) -> bool {
    path == "/health"@ || path == "/actions"@ || path == "/mcp"@
}

/// Classification is total and exact: every (method, path) pair selects the health route,
/// the action route, the MCP route, or nothing, and each one under exactly its own condition.
pub proof fn classification_is_total(m: Method, path: Seq<char>)
    ensures
        classified(m, path) == Some(Route::Health) <==> (path == "/health"@ && m is Get),
        classified(m, path) == Some(Route::Actions) <==> (path == "/actions"@ && m is Post),
        classified(m, path) == Some(Route::Mcp) <==> (path == "/mcp"@ && m is Post),
        classified(m, path) is None <==> !((path == "/health"@ && m is Get) || (path
            == "/actions"@ && m is Post) || (path == "/mcp"@ && m is Post)),
{
    reveal_strlit("/health");
    reveal_strlit("/actions");
    reveal_strlit("/mcp");
    if path == "/mcp"@ {
        assert(path.len() != "/health"@.len());
        assert(path.len() != "/actions"@.len());
    }
    if path == "/actions"@ {
        assert(path.len() != "/health"@.len());
    }
}

/// A path without a query mark is its own path component.
pub proof fn lemma_path_part_query_free(path: Seq<char>)
    requires
        query_free(path),
    ensures
        path_part(path) == path,
{
    lemma_query_start(path, path.len() as int);
    assert(path.take(path.len() as int) =~= path);
}

/// A query string never changes how a request is handled: appending `?` and any query
/// to a path gives the same plan as the path alone.
pub proof fn query_is_ignored(m: Method, path: Seq<char>, query: Seq<char>)
    requires
        query_free(path),
    ensures
        planned(m, path + "?"@ + query) == planned(m, path),
{
    reveal_strlit("?");
    let s = path + "?"@ + query;
    assert forall|j: int| 0 <= j < path.len() implies s[j] != '?' by {
        assert(s[j] == path[j]);
    }
    assert(s[path.len() as int] == '?');
    lemma_query_start(s, path.len() as int);
    assert(s.take(path.len() as int) =~= path);
    lemma_path_part_query_free(path);
}

/// A known path under the wrong method is no match: it is answered with 404 and the
/// not-found text, never with another error.
pub proof fn wrong_method_is_not_found(m: Method, path_with_query: Seq<char>)
    requires
        known_path(path_part(path_with_query)),
        path_part(path_with_query) == "/health"@ ==> !(m is Get),
        path_part(path_with_query) != "/health"@ ==> !(m is Post),
    ensures
        planned(m, path_with_query) == Plan::Reply(
            404,
            not_found_text(method_token(m), path_part(path_with_query)),
        ),
{
    reveal_strlit("/health");
    reveal_strlit("/actions");
    reveal_strlit("/mcp");
    classification_is_total(m, path_part(path_with_query));
}

/// Every request that no route matches is answered with 404, whose body names the method
/// token and the path as they came.
pub proof fn no_match_is_not_found(m: Method, path_with_query: Seq<char>)
    requires
        classified(m, path_part(path_with_query)) is None,
    ensures
        planned(m, path_with_query) == Plan::Reply(
            404,
            not_found_text(method_token(m), path_part(path_with_query)),
        ),
{
}

/// `GET /health` is always answered with 200 and `healthy`, whatever the query, and
/// without reading a body.
pub proof fn health_is_always_healthy(path_with_query: Seq<char>)
    requires
        path_part(path_with_query) == "/health"@,
    ensures
        planned(Method::Get, path_with_query) == Plan::Reply(200, "healthy"@),
{
}

/// `POST /mcp` builds no response: the request is handed on to the MCP handler.
pub proof fn mcp_is_delegated(path_with_query: Seq<char>)
    requires
        path_part(path_with_query) == "/mcp"@,
    ensures
        planned(Method::Post, path_with_query) == Plan::Delegate,
{
    classification_is_total(Method::Post, path_part(path_with_query));
}

/// `POST /actions` reads the body with a ceiling of 2^24 bytes.
pub proof fn action_body_read_is_bounded(path_with_query: Seq<char>)
    requires
        path_part(path_with_query) == "/actions"@,
    ensures
        planned(Method::Post, path_with_query) == Plan::ReadBody(MAX_READ),
        MAX_READ == 0x100_0000,
{
    classification_is_total(Method::Post, path_part(path_with_query));
}

} // verus!
