use karyon_rpc::message::{
    Error, Request, Response, FAILED_TO_PARSE_ERROR_MSG, INVALID_REQUEST_ERROR_CODE,
    INVALID_REQUEST_ERROR_MSG, METHOD_NOT_FOUND_ERROR_CODE, METHOD_NOT_FOUND_ERROR_MSG,
    PARSE_ERROR_CODE, UNSUPPORTED_JSONRPC_VERSION,
};
use karyon_rpc::server::{
    finish_request, listener_plan, method_not_found, method_response, route, sanity_check,
    split_method, writer_action, ConfigError, ListenerKind, NewRequest, Route, SanityCheckResult,
    Scheme, SubscriptionMessage, WriterAction,
};
use karyon_rpc::task::Either;
use serde_json::Value;

fn request(version: &str, id: i64, method: &str, params: Option<Value>) -> Request {
    Request {
        jsonrpc: version.to_string(),
        id: Value::from(id),
        method: method.to_string(),
        params,
    }
}

fn expect_error(r: SanityCheckResult) -> Response {
    match r {
        SanityCheckResult::ErrRes(res) => res,
        SanityCheckResult::NewReq(_) => panic!("expected an error response"),
    }
}

fn expect_new(r: SanityCheckResult) -> NewRequest {
    match r {
        SanityCheckResult::NewReq(req) => req,
        SanityCheckResult::ErrRes(_) => panic!("expected a request to dispatch"),
    }
}

fn check_error(res: &Response, id: Option<Value>, code: i32, msg: &str) {
    assert_eq!(res.jsonrpc, "2.0");
    assert_eq!(res.id, id);
    assert!(res.result.is_none());
    let e = res.error.as_ref().unwrap();
    assert_eq!(e.code, code);
    assert_eq!(e.message, msg);
    assert!(e.data.is_none());
}

/// Dispatches a checked request against tables that hold the given methods;
/// the ordinary table's `echo.say` returns its params unchanged.
fn dispatch(req: NewRequest, pubsub: &[&str], plain: &[&str]) -> Response {
    let full = format!("{}.{}", req.srvc_name, req.method_name);
    let in_pubsub = pubsub.contains(&full.as_str());
    let in_plain = plain.contains(&full.as_str());
    let outcome = match route(in_pubsub, in_plain) {
        Route::NotFound => None,
        Route::Plain | Route::PubSub => {
            Some(Ok(req.msg.params.clone().unwrap_or(Value::Null)))
        }
    };
    finish_request(req, outcome)
}

#[test]
fn parse_error_has_null_id() {
    let res = expect_error(sanity_check(None));
    check_error(&res, None, -32700, "Failed to parse");
    assert_eq!(PARSE_ERROR_CODE, -32700);
    assert_eq!(FAILED_TO_PARSE_ERROR_MSG, "Failed to parse");
}

#[test]
fn bad_version_is_rejected_with_id() {
    let req = request("1.0", 1, "foo.bar", None);
    let res = expect_error(sanity_check(Some(req)));
    check_error(&res, Some(Value::from(1)), -32600, "Unsupported jsonrpc version");
    assert_eq!(UNSUPPORTED_JSONRPC_VERSION, "Unsupported jsonrpc version");
}

#[test]
fn bad_version_empty_string() {
    let req = request("", 7, "foo.bar", None);
    let res = expect_error(sanity_check(Some(req)));
    check_error(&res, Some(Value::from(7)), INVALID_REQUEST_ERROR_CODE, UNSUPPORTED_JSONRPC_VERSION);
}

#[test]
fn bad_method_name_is_invalid_request() {
    let req = request("2.0", 2, "foo", None);
    let res = expect_error(sanity_check(Some(req)));
    check_error(&res, Some(Value::from(2)), -32600, "Invalid request");
    assert_eq!(INVALID_REQUEST_ERROR_MSG, "Invalid request");
}

#[test]
fn empty_method_sides_are_invalid() {
    for m in [".bar", "foo.", ".", ""] {
        let req = request("2.0", 5, m, None);
        let res = expect_error(sanity_check(Some(req)));
        check_error(&res, Some(Value::from(5)), INVALID_REQUEST_ERROR_CODE, INVALID_REQUEST_ERROR_MSG);
    }
}

#[test]
fn method_not_found_with_empty_tables() {
    let req = expect_new(sanity_check(Some(request("2.0", 3, "unknown.ping", None))));
    assert_eq!(req.srvc_name, "unknown");
    assert_eq!(req.method_name, "ping");
    let res = dispatch(req, &[], &[]);
    check_error(&res, Some(Value::from(3)), -32601, "Method not found");
    assert_eq!(METHOD_NOT_FOUND_ERROR_CODE, -32601);
    assert_eq!(METHOD_NOT_FOUND_ERROR_MSG, "Method not found");
}

#[test]
fn echo_success_returns_params() {
    let params = Some(Value::String("hi".to_string()));
    let req = expect_new(sanity_check(Some(request("2.0", 4, "echo.say", params))));
    let res = dispatch(req, &[], &["echo.say"]);
    assert_eq!(res.jsonrpc, "2.0");
    assert_eq!(res.id, Some(Value::from(4)));
    assert_eq!(res.result, Some(Value::String("hi".to_string())));
    assert!(res.error.is_none());
}

#[test]
fn split_method_at_first_dot() {
    let (a, b) = split_method(&"a.b.c".to_string()).unwrap();
    assert_eq!(a, "a");
    assert_eq!(b, "b.c");
    let (a, b) = split_method(&"echo.say".to_string()).unwrap();
    assert_eq!(a, "echo");
    assert_eq!(b, "say");
    assert!(split_method(&"nodot".to_string()).is_none());
    assert!(split_method(&"a.".to_string()).is_none());
    assert!(split_method(&".a".to_string()).is_none());
}

#[test]
fn pubsub_table_is_checked_first() {
    assert!(matches!(route(true, true), Route::PubSub));
    assert!(matches!(route(true, false), Route::PubSub));
    assert!(matches!(route(false, true), Route::Plain));
    assert!(matches!(route(false, false), Route::NotFound));
}

#[test]
fn method_error_is_wrapped() {
    let err = Error { code: -1, message: "boom".to_string(), data: Some(Value::from(9)) };
    let res = method_response(Value::from(8), Err(err));
    assert_eq!(res.id, Some(Value::from(8)));
    assert!(res.result.is_none());
    let e = res.error.unwrap();
    assert_eq!(e.code, -1);
    assert_eq!(e.message, "boom");
    assert_eq!(e.data, Some(Value::from(9)));
}

#[test]
fn method_not_found_echoes_string_id() {
    let res = method_not_found(Value::String("x".to_string()));
    check_error(&res, Some(Value::String("x".to_string())), -32601, "Method not found");
}

#[test]
fn writer_sends_response_before_notification() {
    let note = SubscriptionMessage { sub_id: 1, method: "chat.msg".to_string(), result: Value::from(2) };
    let first = karyon_rpc::task::select_ready(Some(Value::from(10)), Some(Some(note)));
    match writer_action(first.unwrap()) {
        WriterAction::SendResponse(v) => assert_eq!(v, Value::from(10)),
        _ => panic!("the response must be written first"),
    }
}

#[test]
fn writer_wraps_notification() {
    let note = SubscriptionMessage { sub_id: 42, method: "chat.msg".to_string(), result: Value::from(2) };
    match writer_action(Either::Right(Some(note))) {
        WriterAction::SendNotification(n) => {
            assert_eq!(n.jsonrpc, "2.0");
            assert_eq!(n.method, "chat.msg");
            let p = n.params.unwrap();
            assert_eq!(p.subscription, 42);
            assert_eq!(p.result, Some(Value::from(2)));
        }
        _ => panic!("expected a notification"),
    }
}

#[test]
fn writer_stops_when_channel_closes() {
    assert!(matches!(writer_action(Either::Right(None)), WriterAction::Stop));
}

#[test]
fn listener_needs_tls_config() {
    assert!(matches!(listener_plan(Scheme::Tls, false, "tls://x".to_string()), Err(ConfigError::TLSConfigRequired)));
    assert!(matches!(listener_plan(Scheme::Wss, false, "wss://x".to_string()), Err(ConfigError::TLSConfigRequired)));
    assert!(matches!(listener_plan(Scheme::Tls, true, "tls://x".to_string()), Ok(ListenerKind::Tls)));
    assert!(matches!(listener_plan(Scheme::Wss, true, "wss://x".to_string()), Ok(ListenerKind::Wss)));
    assert!(matches!(listener_plan(Scheme::Tcp, false, "tcp://x".to_string()), Ok(ListenerKind::Tcp)));
    assert!(matches!(listener_plan(Scheme::Ws, false, "ws://x".to_string()), Ok(ListenerKind::Ws)));
    assert!(matches!(listener_plan(Scheme::Unix, false, "unix:/x".to_string()), Ok(ListenerKind::Unix)));
}

#[test]
fn listener_refuses_udp() {
    match listener_plan(Scheme::Udp, true, "udp://127.0.0.1:1".to_string()) {
        Err(ConfigError::UnsupportedProtocol(e)) => assert_eq!(e, "udp://127.0.0.1:1"),
        _ => panic!("expected UnsupportedProtocol"),
    }
}
