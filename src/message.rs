//! The JSON-RPC request and response as the router sees them.
use vstd::prelude::*;
use vstd::string::*;

verus! {

/// One incoming JSON-RPC call.
pub struct RpcRequest {
    pub jsonrpc: String,
    pub method: String,
    pub params: serde_json::Value,
    pub id: serde_json::Value,
}

/// The `error` member of a response.
pub enum ErrorObject {
    /// The error object exactly as an upstream sent it.
    Upstream(serde_json::Value),
    /// An error object made by the router, `{"code": code, "message": message}`.
    Local { code: i64, message: String },
}

/// One JSON-RPC response. `result` is `None` where the member is absent or
/// `null`.
pub struct RpcResponse {
    pub jsonrpc: String,
    pub result: Option<serde_json::Value>,
    pub error: Option<ErrorObject>,
    pub id: serde_json::Value,
}

/// The code of the error sent back for a method that no route serves.
pub const METHOD_NOT_FOUND: i64 = -32601;

/// The code of the error sent back when the upstreams gave no usable answer.
pub const UPSTREAM_FAILURE: i64 = -32000;

/// The protocol version that the router writes into the responses it makes.
pub open spec fn version() -> Seq<char> {
    "2.0"@
}

/// An error member, with its text as a sequence.
pub enum ErrorView {
    Upstream(serde_json::Value),
    Local { code: i64, message: Seq<char> },
}

/// A response, with its texts as sequences.
pub struct ResponseView {
    pub jsonrpc: Seq<char>,
    pub result: Option<serde_json::Value>,
    pub error: Option<ErrorView>,
    pub id: serde_json::Value,
}

impl View for ErrorObject {
    type V = ErrorView;

    open spec fn view(&self) -> ErrorView {
        match self {
            ErrorObject::Upstream(v) => ErrorView::Upstream(*v),
            ErrorObject::Local { code, message } => ErrorView::Local { code: *code, message: message@ },
        }
    }
}

impl View for RpcResponse {
    type V = ResponseView;

    open spec fn view(&self) -> ResponseView {
        ResponseView {
            jsonrpc: self.jsonrpc@,
            result: self.result,
            error: match self.error {
                Some(e) => Some(e@),
                None => None,
            },
            id: self.id,
        }
    }
}

/// The error response `{"code": code, "message": message}` that the router
/// makes for the request with this `id`.
pub open spec fn local_view(id: serde_json::Value, code: i64, message: Seq<char>) -> ResponseView {
    ResponseView {
        jsonrpc: version(),
        result: None,
        error: Some(ErrorView::Local { code, message }),
        id,
    }
}

/// Makes the error response `{"code": code, "message": message}` for the
/// request with this `id`.
pub fn local_error(id: serde_json::Value, code: i64, message: String) -> (r: RpcResponse)
    ensures
        r@ == local_view(id, code, message@),
{
    RpcResponse {
        jsonrpc: String::from_str("2.0"),
        result: None,
        error: Some(ErrorObject::Local { code, message }),
        id,
    }
}

impl RpcResponse {
    /// Whether the serialized response carries the `result` member: exactly
    /// when it carries no `error`, so that callers can branch on which of
    /// the two keys is present.
    pub fn shows_result(&self) -> (r: bool)
        ensures
            r == self.error.is_none(),
    {
        self.error.is_none()
    }
}

} // verus!
