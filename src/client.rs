//! Classification of one upstream call.
use vstd::prelude::*;
use vstd::string::*;
use crate::message::RpcResponse;

verus! {

/// What one upstream call produced when it did not fail.
pub enum CallResult {
    /// The reply carries a result.
    Success(RpcResponse),
    /// The reply parsed, but its result is absent or `null`.
    NullResult(RpcResponse),
    /// A successful status with an empty or blank body.
    EmptyBody,
}

/// Why one upstream call failed.
pub enum RpcProxyError {
    HttpServerError(String),
    HttpClientError(String),
    HttpRequestFailed(String),
    Timeout,
    ParseError(String),
}

/// Server errors and timeouts are presumed transient: they are worth another
/// attempt at the same endpoint.
pub open spec fn is_retryable(e: RpcProxyError) -> bool {
    e is HttpServerError || e is Timeout
}

/// The text of an error, as it is shown in the responses of the router.
pub open spec fn error_text(e: RpcProxyError) -> Seq<char> {
    match e {
        RpcProxyError::HttpServerError(s) => "HTTP server error: "@ + s@,
        RpcProxyError::HttpClientError(s) => "HTTP client error: "@ + s@,
        RpcProxyError::HttpRequestFailed(s) => "HTTP request failed: "@ + s@,
        RpcProxyError::Timeout => "Request timed out"@,
        RpcProxyError::ParseError(s) => "Parse error: "@ + s@,
    }
}

impl RpcProxyError {
    /// Whether another attempt at the same endpoint may help.
    pub fn is_retryable(&self) -> (r: bool)
        ensures
            r == is_retryable(*self),
    {
        match self {
            RpcProxyError::HttpServerError(_) | RpcProxyError::Timeout => true,
            _ => false,
        }
    }

    /// The text of the error.
    pub fn message(&self) -> (r: String)
        ensures
            r@ == error_text(*self),
    {
        match self {
            RpcProxyError::HttpServerError(s) => String::from_str("HTTP server error: ").concat(s.as_str()),
            RpcProxyError::HttpClientError(s) => String::from_str("HTTP client error: ").concat(s.as_str()),
            RpcProxyError::HttpRequestFailed(s) => String::from_str("HTTP request failed: ").concat(s.as_str()),
            RpcProxyError::Timeout => String::from_str("Request timed out"),
            RpcProxyError::ParseError(s) => String::from_str("Parse error: ").concat(s.as_str()),
        }
    }
}

/// A character of Unicode's White_Space property, the whitespace of
/// `char::is_whitespace`.
pub open spec fn is_white(c: char) -> bool {
    let n = c as u32;
    ||| 0x9 <= n <= 0xD
    ||| n == 0x20
    ||| n == 0x85
    ||| n == 0xA0
    ||| n == 0x1680
    ||| 0x2000 <= n <= 0x200A
    ||| n == 0x2028
    ||| n == 0x2029
    ||| n == 0x202F
    ||| n == 0x205F
    ||| n == 0x3000
}

/// A body with nothing but whitespace in it, or nothing at all.
pub open spec fn is_blank(s: Seq<char>) -> bool {
    forall|i: int| 0 <= i < s.len() ==> #[trigger] is_white(s[i])
}

/// `r` is what is left of `s` once the whitespace at both of its ends is
/// taken away: `r` is `s[a..b]`, everything before `a` and from `b` on is
/// whitespace, and `r` neither starts nor ends with whitespace.
pub open spec fn trimmed_from(s: Seq<char>, r: Seq<char>) -> bool {
    exists|a: int, b: int| {
        &&& 0 <= a <= b <= s.len()
        &&& r == s.subrange(a, b)
        &&& forall|i: int| 0 <= i < a ==> #[trigger] is_white(s[i])
        &&& forall|i: int| b <= i < s.len() ==> #[trigger] is_white(s[i])
        &&& a < b ==> !is_white(s[a]) && !is_white(s[b - 1])
    }
}

/// Relies on `str::trim`: the string without the whitespace (Unicode's
/// White_Space) at both of its ends.
#[verifier::external_body]
fn trim(s: &str) -> (r: &str)
    ensures
        trimmed_from(s@, r@),
{
    s.trim()
}

/// A status in 200..=299, the only one under which a call can succeed.
pub open spec fn is_success_status(status: u16) -> bool {
    200 <= status <= 299
}

/// A status in 500..=599.
pub open spec fn is_server_status(status: u16) -> bool {
    500 <= status <= 599
}

/// A status in 400..=499.
pub open spec fn is_client_status(status: u16) -> bool {
    400 <= status <= 499
}

/// The outcome of a classified reply, with the error texts as sequences.
pub enum CallOutcome {
    Answer(RpcResponse),
    Null(RpcResponse),
    Empty,
    ServerError(Seq<char>),
    ClientError(Seq<char>),
    Failed(Seq<char>),
    ParseError(Seq<char>),
}

/// How a reply fails on its status alone, where it does: `status_text` is
/// the status as the HTTP layer writes it. A 5xx status is a server error, a
/// 4xx status a client error, and any other status outside 2xx a failed
/// request.
pub open spec fn status_outcome(status: u16, status_text: Seq<char>) -> Option<CallOutcome> {
    if is_success_status(status) {
        None
    } else if is_server_status(status) {
        Some(CallOutcome::ServerError("Server error: "@ + status_text))
    } else if is_client_status(status) {
        Some(CallOutcome::ClientError("Client error: "@ + status_text))
    } else {
        Some(CallOutcome::Failed("Unexpected status: "@ + status_text))
    }
}

/// How a reply with a 2xx status is classified: `blank` tells whether its
/// body is blank, or why the body could not be read, and `parsed` is the
/// body read as a response, or why it could not be.
pub open spec fn answer_outcome(blank: Result<bool, Seq<char>>, parsed: Result<RpcResponse, Seq<char>>) -> CallOutcome {
    match blank {
        Err(e) => CallOutcome::ParseError("Failed to read body: "@ + e),
        Ok(true) => CallOutcome::Empty,
        Ok(false) => match parsed {
            Err(e) => CallOutcome::ParseError("JSON parse error: "@ + e),
            Ok(r) => if r.result is None {
                CallOutcome::Null(r)
            } else {
                CallOutcome::Answer(r)
            },
        },
    }
}

/// How an upstream reply is classified: `status` is its HTTP status,
/// `status_text` that status as the HTTP layer writes it, `body` its body or
/// why the body could not be read, and `parsed` the body read as a response
/// or why it could not be.
pub open spec fn classified(
    status: u16,
    status_text: Seq<char>,
    body: Result<Seq<char>, Seq<char>>,
    parsed: Result<RpcResponse, Seq<char>>,
) -> CallOutcome {
    match status_outcome(status, status_text) {
        Some(o) => o,
        None => answer_outcome(
            match body {
                Ok(b) => Ok(is_blank(b)),
                Err(e) => Err(e),
            },
            parsed,
        ),
    }
}

/// `r` is the call result that `o` describes.
pub open spec fn outcome_of(r: Result<CallResult, RpcProxyError>, o: CallOutcome) -> bool {
    match o {
        CallOutcome::Answer(x) => r == Ok::<CallResult, RpcProxyError>(CallResult::Success(x)),
        CallOutcome::Null(x) => r == Ok::<CallResult, RpcProxyError>(CallResult::NullResult(x)),
        CallOutcome::Empty => r is Ok && r->Ok_0 is EmptyBody,
        CallOutcome::ServerError(t) => r is Err && r->Err_0 is HttpServerError && r->Err_0->HttpServerError_0@ == t,
        CallOutcome::ClientError(t) => r is Err && r->Err_0 is HttpClientError && r->Err_0->HttpClientError_0@ == t,
        CallOutcome::Failed(t) => r is Err && r->Err_0 is HttpRequestFailed && r->Err_0->HttpRequestFailed_0@ == t,
        CallOutcome::ParseError(t) => r is Err && r->Err_0 is ParseError && r->Err_0->ParseError_0@ == t,
    }
}

/// The view of a `Result` of strings.
pub open spec fn text_result<T>(r: Result<T, String>) -> Result<T, Seq<char>> {
    match r {
        Ok(x) => Ok(x),
        Err(e) => Err(e@),
    }
}

/// The view of a body, or of why it could not be read.
pub open spec fn body_view(r: Result<String, String>) -> Result<Seq<char>, Seq<char>> {
    match r {
        Ok(b) => Ok(b@),
        Err(e) => Err(e@),
    }
}

/// Whether a trimmed body is empty, or why the body could not be read.
pub open spec fn emptiness(trimmed: Result<&str, String>) -> Result<bool, Seq<char>> {
    match trimmed {
        Ok(t) => Ok(t@.len() == 0),
        Err(e) => Err(e@),
    }
}

/// Whether a body is blank, or why it could not be read.
pub open spec fn blankness(body: Result<String, String>) -> Result<bool, Seq<char>> {
    match body {
        Ok(b) => Ok(is_blank(b@)),
        Err(e) => Err(e@),
    }
}

/// The error that a reply's status alone makes it, where there is one: any
/// status outside 2xx.
pub fn status_error(status: u16, status_text: String) -> (r: Option<RpcProxyError>)
    ensures
        r is None <==> status_outcome(status, status_text@) is None,
        r matches Some(e) ==> outcome_of(Err(e), status_outcome(status, status_text@)->Some_0),
{
    if 200 <= status && status <= 299 {
        None
    } else if 500 <= status && status <= 599 {
        Some(RpcProxyError::HttpServerError(String::from_str("Server error: ").concat(status_text.as_str())))
    } else if 400 <= status && status <= 499 {
        Some(RpcProxyError::HttpClientError(String::from_str("Client error: ").concat(status_text.as_str())))
    } else {
        Some(RpcProxyError::HttpRequestFailed(String::from_str("Unexpected status: ").concat(status_text.as_str())))
    }
}

/// Classifies a reply with a 2xx status from its body with the whitespace
/// at both ends taken away: an empty body is no answer, a body that is no
/// response is a parse error, and a response is a success where it carries
/// a result and a null result where it does not.
pub fn classify_trimmed(trimmed: Result<&str, String>, parsed: Result<RpcResponse, String>) -> (r: Result<CallResult, RpcProxyError>)
    ensures
        outcome_of(r, answer_outcome(emptiness(trimmed), text_result(parsed))),
{
    match trimmed {
        Err(e) => Err(RpcProxyError::ParseError(String::from_str("Failed to read body: ").concat(e.as_str()))),
        Ok(t) => {
            if t.is_empty() {
                return Ok(CallResult::EmptyBody);
            }
            match parsed {
                Err(e) => Err(RpcProxyError::ParseError(String::from_str("JSON parse error: ").concat(e.as_str()))),
                Ok(r) => if r.result.is_none() {
                    Ok(CallResult::NullResult(r))
                } else {
                    Ok(CallResult::Success(r))
                },
            }
        },
    }
}

/// Classifies a reply with a 2xx status from its body: a blank body is no
/// answer, and otherwise the parsed response decides.
pub fn classify_body(body: Result<String, String>, parsed: Result<RpcResponse, String>) -> (r: Result<CallResult, RpcProxyError>)
    ensures
        outcome_of(r, answer_outcome(blankness(body), text_result(parsed))),
{
    match body {
        Err(e) => classify_trimmed(Err(e), parsed),
        Ok(b) => {
            let t = trim(b.as_str());
            proof {
                let (x, y) = choose|x: int, y: int| {
                    &&& 0 <= x <= y <= b@.len()
                    &&& t@ == b@.subrange(x, y)
                    &&& forall|i: int| 0 <= i < x ==> #[trigger] is_white(b@[i])
                    &&& forall|i: int| y <= i < b@.len() ==> #[trigger] is_white(b@[i])
                    &&& x < y ==> !is_white(b@[x]) && !is_white(b@[y - 1])
                };
                assert(t@.len() == y - x);
                if x < y {
                    assert(!is_white(b@[x]));
                } else {
                    assert(is_blank(b@));
                }
                assert((t@.len() == 0) == is_blank(b@));
            }
            classify_trimmed(Ok(t), parsed)
        },
    }
}

/// Classifies one upstream reply that arrived: any status outside 2xx is an
/// error, and a reply with a 2xx status goes by its body.
pub fn classify_reply(
    status: u16,
    status_text: String,
    body: Result<String, String>,
    parsed: Result<RpcResponse, String>,
) -> (r: Result<CallResult, RpcProxyError>)
    ensures
        outcome_of(r, classified(status, status_text@, body_view(body), text_result(parsed))),
        !is_success_status(status) ==> r is Err,
{
    match status_error(status, status_text) {
        Some(e) => Err(e),
        None => classify_body(body, parsed),
    }
}

} // verus!
