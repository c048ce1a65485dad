use vstd::prelude::*;
use vstd::utf8::encode_utf8;

verus! {

/// An HTTP status code as this router may send it.
pub open spec fn valid_status(status: u16) -> bool {
    100 <= status <= 599
}

/// A response ready to be sent: a status code and a UTF-8 body.
pub struct HttpResponse {
    pub status: u16,
    pub body: String,
}

impl HttpResponse {
    pub open spec fn wf(&self) -> bool {
        valid_status(self.status)
    }

    /// Builds a response from a status code and a body.
    pub fn new(status: u16, body: String) -> (r: Self)
        requires
            valid_status(status),
        ensures
            r.status == status,
            r.body@ == body@,
            r.wf(),
    {
        HttpResponse { status, body }
    }
}

/// The decoded payload of an action request.
pub struct ActionInput {
    pub action_id: String,
    pub input: String,
}

/// The ways in which handling a request can fail.
pub enum Error {
    InvalidInput(String),
    FailedToReadBody(String),
    ActionCallFailed(String),
    HealthCheckFailed(String),
    McpForwardFailed(String),
    DelegateToMcp,
}

/// What handling a request comes to: a response to send, or a hand-off to the MCP handler.
pub enum HandleResult {
    Response(HttpResponse),
    DelegateToMcp,
}

/// The status code that each kind of failure is reported with.
pub open spec fn error_status(e: Error) -> u16 {
    match e {
        Error::InvalidInput(_) => 400,
        Error::FailedToReadBody(_) => 500,
        Error::ActionCallFailed(_) => 400,
        Error::HealthCheckFailed(_) => 400,
        Error::McpForwardFailed(_) => 500,
        Error::DelegateToMcp => 500,
    }
}

/// The fixed body of a response to a failed delegation.
pub open spec fn delegation_failed_text() -> Seq<char> {
    "Internal error: MCP delegation failed"@
}

/// The body that each failure is reported with: its message, or a fixed text.
pub open spec fn error_text(e: Error) -> Seq<char> {
    match e {
        Error::InvalidInput(m) => m@,
        Error::FailedToReadBody(m) => m@,
        Error::ActionCallFailed(m) => m@,
        Error::HealthCheckFailed(m) => m@,
        Error::McpForwardFailed(m) => m@,
        Error::DelegateToMcp => delegation_failed_text(),
    }
}

/// Turns a failure into the response that reports it.
pub fn error_response(e: Error) -> (r: HttpResponse)
    ensures
        r.status == error_status(e),
        r.body@ == error_text(e),
        r.wf(),
{
    match e {
        Error::InvalidInput(m) => HttpResponse::new(400, m),
        Error::FailedToReadBody(m) => HttpResponse::new(500, m),
        Error::ActionCallFailed(m) => HttpResponse::new(400, m),
        Error::HealthCheckFailed(m) => HttpResponse::new(400, m),
        Error::McpForwardFailed(m) => HttpResponse::new(500, m),
        Error::DelegateToMcp => HttpResponse::new(
            500,
            String::from_str("Internal error: MCP delegation failed"),
        ),
    }
}

/// The body of the response to an action request.
pub open spec fn action_text(action_id: Seq<char>, input: Seq<char>) -> Seq<char> {
    "Action "@ + action_id + " would be called with payload: "@ + input
}

/// Builds the response to a decoded action request.
pub fn action_response(input: &ActionInput) -> (r: HttpResponse)
    ensures
        r.status == 200,
        r.body@ == action_text(input.action_id@, input.input@),
        r.wf(),
{
    let mut body = String::from_str("Action ");
    body.append(input.action_id.as_str());
    body.append(" would be called with payload: ");
    body.append(input.input.as_str());
    HttpResponse::new(200, body)
}

/// The body of the response to a request that no route matches.
pub open spec fn not_found_text(method: Seq<char>, path: Seq<char>) -> Seq<char> {
    "Route not found: "@ + method + " "@ + path
}

/// Builds the response to a request that no route matches.
pub fn not_found_response(method: &str, path: &str) -> (r: HttpResponse)
    ensures
        r.status == 404,
        r.body@ == not_found_text(method@, path@),
        r.wf(),
{
    let mut body = String::from_str("Route not found: ");
    body.append(method);
    body.append(" ");
    body.append(path);
    HttpResponse::new(404, body)
}

/// What goes out on the wire for a response: its status, and its body as UTF-8 bytes.
pub struct ResponseParts {
    pub status: u16,
    pub body: Vec<u8>,
}

/// Lays a response out for sending: the status code as it is, the body encoded as UTF-8.
pub fn send_response(response: HttpResponse) -> (r: ResponseParts)
    ensures
        r.status == response.status,
        r.body@ == encode_utf8(response.body@),
{
    let body = response.body.as_str().as_bytes_vec();
    ResponseParts { status: response.status, body }
}

} // verus!
