use vstd::prelude::*;

verus! {

/// A JSON value, carried through unchanged (ids, params, results).
#[verifier::external_type_specification]
#[verifier::external_body]
pub struct ExValue(serde_json::Value);

pub const JSONRPC_VERSION: &'static str = "2.0";

pub const PARSE_ERROR_CODE: i32 = -32700;

pub const INVALID_REQUEST_ERROR_CODE: i32 = -32600;

pub const METHOD_NOT_FOUND_ERROR_CODE: i32 = -32601;

pub const INVALID_REQUEST_ERROR_MSG: &'static str = "Invalid request";

pub const FAILED_TO_PARSE_ERROR_MSG: &'static str = "Failed to parse";

pub const METHOD_NOT_FOUND_ERROR_MSG: &'static str = "Method not found";

pub const UNSUPPORTED_JSONRPC_VERSION: &'static str = "Unsupported jsonrpc version";

/// A decoded JSON-RPC request envelope.
pub struct Request {
    pub jsonrpc: String,
    pub id: serde_json::Value,
    pub method: String,
    pub params: Option<serde_json::Value>,
}

/// A JSON-RPC error object.
pub struct Error {
    pub code: i32,
    pub message: String,
    pub data: Option<serde_json::Value>,
}

/// A JSON-RPC response: exactly one of `result` and `error` is set.
pub struct Response {
    pub jsonrpc: String,
    pub id: Option<serde_json::Value>,
    pub result: Option<serde_json::Value>,
    pub error: Option<Error>,
}

/// The `params` of a notification: which subscription it belongs to, and
/// the published value.
pub struct NotificationResult {
    pub subscription: u32,
    pub result: Option<serde_json::Value>,
}

/// A server-to-client notification of a subscription.
pub struct Notification {
    pub jsonrpc: String,
    pub method: String,
    pub params: Option<NotificationResult>,
}

/// `r` is the error response with this id, code and message, and no data.
pub open spec fn is_error_response(
    r: Response,
    id: Option<serde_json::Value>,
    code: i32,
    msg: Seq<char>,
) -> bool {
    &&& r.jsonrpc@ == JSONRPC_VERSION@
    &&& r.id == id
    &&& r.result is None
    &&& r.error matches Some(e) && e.code == code && e.message@ == msg && e.data is None
}

/// `r` is the success response with this id and result.
pub open spec fn is_result_response(
    r: Response,
    id: serde_json::Value,
    result: serde_json::Value,
) -> bool {
    &&& r.jsonrpc@ == JSONRPC_VERSION@
    &&& r.id == Some(id)
    &&& r.result == Some(result)
    &&& r.error is None
}

/// `r` carries `e` as its error, for this id.
pub open spec fn is_method_error_response(r: Response, id: serde_json::Value, e: Error) -> bool {
    &&& r.jsonrpc@ == JSONRPC_VERSION@
    &&& r.id == Some(id)
    &&& r.result is None
    &&& r.error == Some(e)
}

/// The version tag every message carries.
pub fn version() -> (r: String)
    ensures
        r@ == JSONRPC_VERSION@,
{
    JSONRPC_VERSION.to_owned()
}

/// Builds the error response with this id, code and message.
pub fn error_response(id: Option<serde_json::Value>, code: i32, msg: &str) -> (r: Response)
    ensures
        is_error_response(r, id, code, msg@),
{
    Response {
        jsonrpc: version(),
        id,
        result: None,
        error: Some(Error { code, message: msg.to_owned(), data: None }),
    }
}

} // verus!
