use vstd::prelude::*;
use vstd::std_specs::iter::IteratorSpec;

verus! {

/// The endpoints that this router knows.
#[derive(Clone, Copy, Debug, PartialEq, Eq, Structural)]
pub enum Route {
    Health,
    Actions,
    Mcp,
}

/// An HTTP request method, as the host hands it over.
#[derive(Debug)]
pub enum Method {
    Get,
    Head,
    Post,
    Put,
    Delete,
    Connect,
    Options,
    Trace,
    Patch,
    Other(String),
}

/// The textual token of a method (`GET`, `POST`, ...); an unknown method keeps its own text.
pub open spec fn method_token(m: Method) -> Seq<char> {
    match m {
        Method::Get => "GET"@,
        Method::Head => "HEAD"@,
        Method::Post => "POST"@,
        Method::Put => "PUT"@,
        Method::Delete => "DELETE"@,
        Method::Connect => "CONNECT"@,
        Method::Options => "OPTIONS"@,
        Method::Trace => "TRACE"@,
        Method::Patch => "PATCH"@,
        Method::Other(s) => s@,
    }
}

/// Returns the textual token of the method.
pub fn method_text(m: &Method) -> (r: String)
    ensures
        r@ == method_token(*m),
{
    match m {
        Method::Get => String::from_str("GET"),
        Method::Head => String::from_str("HEAD"),
        Method::Post => String::from_str("POST"),
        Method::Put => String::from_str("PUT"),
        Method::Delete => String::from_str("DELETE"),
        Method::Connect => String::from_str("CONNECT"),
        Method::Options => String::from_str("OPTIONS"),
        Method::Trace => String::from_str("TRACE"),
        Method::Patch => String::from_str("PATCH"),
        Method::Other(s) => s.clone(),
    }
}

/// Index of the first `?` in `s`, or the length of `s` when it holds none.
pub open spec fn query_start(s: Seq<char>) -> nat
    decreases s.len(),
{
    if s.len() == 0 || s[0] == '?' {
        0
    } else {
        1 + query_start(s.drop_first())
    }
}

/// The path component of a path-with-query: everything before the first `?`.
pub open spec fn path_part(s: Seq<char>) -> Seq<char> {
    s.take(query_start(s) as int)
}

/// A position before which no `?` stands, and at which one stands or the text ends, is
/// where the query starts.
pub proof fn lemma_query_start(s: Seq<char>, i: int)
    requires
        0 <= i <= s.len(),
        forall|j: int| 0 <= j < i ==> s[j] != '?',
        i == s.len() || s[i] == '?',
    ensures
        query_start(s) == i,
    decreases i,
{
    if i > 0 {
        assert(s[0] != '?');
        let t = s.drop_first();
        assert forall|j: int| 0 <= j < i - 1 implies t[j] != '?' by {
            assert(t[j] == s[j + 1]);
        }
        if i < s.len() {
            assert(t[i - 1] == s[i]);
        }
        lemma_query_start(t, i - 1);
    }
}

/// Strips the query from a path-with-query, keeping what stands before the first `?`.
pub fn strip_query(path_with_query: &str) -> (r: &str)
    ensures
        r@ == path_part(path_with_query@),
{
    broadcast use vstd::string::group_string_axioms, vstd::string::next_postcondition;

    let n = path_with_query.unicode_len();
    let mut chars = path_with_query.chars();
    let mut i: usize = 0;
    loop
        invariant_except_break
            chars.remaining() == path_with_query@.skip(i as int),
        invariant
            n == path_with_query@.len(),
            0 <= i <= n,
            forall|j: int| 0 <= j < i ==> path_with_query@[j] != '?',
        ensures
            0 <= i <= n,
            i == n || path_with_query@[i as int] == '?',
            forall|j: int| 0 <= j < i ==> path_with_query@[j] != '?',
        decreases n - i,
    {
        match chars.next() {
            Some(c) => {
                assert(path_with_query@.skip(i as int)[0] == path_with_query@[i as int]);
                if c == '?' {
                    break;
                }
                assert(path_with_query@.skip(i as int).drop_first() =~= path_with_query@.skip(
                    i + 1,
                ));
                i = i + 1;
            },
            None => {
                break;
            },
        }
    }
    proof {
        lemma_query_start(path_with_query@, i as int);
    }
    path_with_query.substring_char(0, i)
}

/// A route pattern that matchit reads literally: non-empty, with no parameter braces.
pub open spec fn literal_route(p: Seq<char>) -> bool {
    &&& p.len() > 0
    &&& forall|i: int| 0 <= i < p.len() ==> p[i] != '{' && p[i] != '}'
}

/// A route table all of whose patterns are literal.
pub open spec fn literal_table(m: Map<Seq<char>, Route>) -> bool {
    forall|k: Seq<char>| #[trigger] m.contains_key(k) ==> literal_route(k)
}

#[verifier::external_type_specification]
#[verifier::external_body]
#[verifier::reject_recursive_types(T)]
pub struct ExRouter<T>(matchit::Router<T>);

#[verifier::external_type_specification]
#[verifier::external_body]
pub struct ExInsertError(matchit::InsertError);

/// The routes registered in a router: each pattern with the value bound to it.
pub uninterp spec fn routes_of(r: matchit::Router<Route>) -> Map<Seq<char>, Route>;

/// Relies on matchit::Router::new: a new router holds no route.
#[verifier::external_body]
fn router_new() -> (r: matchit::Router<Route>)
    ensures
        forall|k: Seq<char>| !(#[trigger] routes_of(r).contains_key(k)),
{
    matchit::Router::new()
}

/// Relies on matchit::Router::insert: among literal patterns, inserting a new one binds it,
/// and inserting one that is already there fails with a conflict and changes nothing.
#[verifier::external_body]
fn router_insert(r: &mut matchit::Router<Route>, path: &str, value: Route) -> (res: Result<
    (),
    matchit::InsertError,
>)
    requires
        literal_table(routes_of(*old(r))),
        literal_route(path@),
    ensures
        res is Ok <==> !routes_of(*old(r)).contains_key(path@),
        res is Ok ==> routes_of(*final(r)) == routes_of(*old(r)).insert(path@, value),
        res is Err ==> routes_of(*final(r)) == routes_of(*old(r)),
{
    r.insert(path, value)
}

/// Relies on matchit::Router::at: on a router of literal patterns, a path matches exactly
/// the pattern equal to it, and yields the value bound there.
#[verifier::external_body]
fn router_at(r: &matchit::Router<Route>, path: &str) -> (res: Option<Route>)
    ensures
        literal_table(routes_of(*r)) ==> res == (if routes_of(*r).contains_key(path@) {
            Some(routes_of(*r)[path@])
        } else {
            None
        }),
{
    r.at(path).ok().map(|m| *m.value)
}

/// The fixed route table: three literal paths, each bound to its route.
pub open spec fn route_map() -> Map<Seq<char>, Route> {
    map!["/health"@ => Route::Health, "/actions"@ => Route::Actions, "/mcp"@ => Route::Mcp]
}

/// Builds the router that holds the fixed route table.
pub fn route_table() -> (r: matchit::Router<Route>)
    ensures
        routes_of(r) == route_map(),
        literal_table(routes_of(r)),
{
    proof {
        reveal_strlit("/health");
        reveal_strlit("/actions");
        reveal_strlit("/mcp");
    }
    let mut router = router_new();
    let _ = router_insert(&mut router, "/health", Route::Health);
    assert("/actions"@.len() != "/health"@.len());
    let _ = router_insert(&mut router, "/actions", Route::Actions);
    assert("/mcp"@.len() != "/health"@.len());
    assert("/mcp"@.len() != "/actions"@.len());
    let _ = router_insert(&mut router, "/mcp", Route::Mcp);
    assert(routes_of(router) =~= route_map());
    router
}

/// Which route a (method, path) pair selects: a known path with the method its route
/// expects, or none.
pub open spec fn classified(m: Method, path: Seq<char>) -> Option<Route> {
    if path == "/health"@ && m is Get {
        Some(Route::Health)
    } else if path == "/actions"@ && m is Post {
        Some(Route::Actions)
    } else if path == "/mcp"@ && m is Post {
        Some(Route::Mcp)
    } else {
        None
    }
}

/// Classifies a request by method and (query-free) path against the route table.
pub fn classify(method: &Method, path: &str) -> (r: Option<Route>)
    ensures
        r == classified(*method, path@),
{
    let table = route_table();
    let found = router_at(&table, path);
    proof {
        reveal_strlit("/health");
        reveal_strlit("/actions");
        reveal_strlit("/mcp");
    }
    match (method, found) {
        (Method::Get, Some(Route::Health)) => Some(Route::Health),
        (Method::Post, Some(Route::Actions)) => Some(Route::Actions),
        (Method::Post, Some(Route::Mcp)) => Some(Route::Mcp),
        _ => None,
    }
}

} // verus!
