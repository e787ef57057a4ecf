use vstd::prelude::*;

use crate::message::{
    error_response, is_error_response, is_method_error_response, is_result_response, version,
    Error, Notification, NotificationResult, Request, Response, FAILED_TO_PARSE_ERROR_MSG,
    INVALID_REQUEST_ERROR_CODE, INVALID_REQUEST_ERROR_MSG, JSONRPC_VERSION,
    METHOD_NOT_FOUND_ERROR_CODE, METHOD_NOT_FOUND_ERROR_MSG, PARSE_ERROR_CODE,
    UNSUPPORTED_JSONRPC_VERSION,
};
use crate::task::Either;

verus! {

/// A request that passed the envelope checks, with its method name split
/// into the service and the method within it.
pub struct NewRequest {
    pub srvc_name: String,
    pub method_name: String,
    pub msg: Request,
}

/// The outcome of the envelope checks: a request to dispatch, or the error
/// response to send back at once.
pub enum SanityCheckResult {
    NewReq(NewRequest),
    ErrRes(Response),
}

/// `i` is the position of the first `.` in `s`.
pub open spec fn is_first_dot(s: Seq<char>, i: int) -> bool {
    &&& 0 <= i < s.len()
    &&& s[i] == '.'
    &&& forall|j: int| 0 <= j < i ==> s[j] != '.'
}

/// The service and method named by `s`: split at the first `.`, both sides
/// non-empty. Further dots belong to the method part.
pub open spec fn method_parts(s: Seq<char>) -> Option<(Seq<char>, Seq<char>)> {
    if exists|i: int| is_first_dot(s, i) {
        let i = choose|i: int| is_first_dot(s, i);
        if 0 < i && i + 1 < s.len() {
            Some((s.subrange(0, i), s.subrange(i + 1, s.len() as int)))
        } else {
            None
        }
    } else {
        None
    }
}

proof fn lemma_first_dot_unique(s: Seq<char>, i: int, k: int)
    requires
        is_first_dot(s, i),
        is_first_dot(s, k),
    ensures
        i == k,
{
    if i < k {
        assert(s[i] != '.');
    } else if k < i {
        assert(s[k] != '.');
    }
}

/// Splits a `<service>.<method>` name at its first dot; `None` where there is
/// no dot or either side is empty.
pub fn split_method(m: &String) -> (r: Option<(String, String)>)
    ensures
        r is Some <==> method_parts(m@) is Some,
        r matches Some((a, b)) ==> (a@, b@) == method_parts(m@)->0,
{
    let s = m.as_str();
    let n = s.unicode_len();
    let mut i: usize = 0;
    while i < n
        invariant
            n == s@.len(),
            s@ == m@,
            i <= n,
            forall|j: int| 0 <= j < i ==> s@[j] != '.',
        decreases n - i,
    {
        if s.get_char(i) == '.' {
            proof {
                assert(is_first_dot(m@, i as int));
                let k = choose|k: int| is_first_dot(m@, k);
                lemma_first_dot_unique(m@, i as int, k);
            }
            if 0 < i && i + 1 < n {
                let a = s.substring_char(0, i).to_owned();
                let b = s.substring_char(i + 1, n).to_owned();
                return Some((a, b));
            } else {
                return None;
            }
        }
        i = i + 1;
    }
    proof {
        assert forall|k: int| !is_first_dot(m@, k) by {
            if is_first_dot(m@, k) {
                assert(s@[k] == '.');
            }
        }
    }
    None
}

/// What the envelope checks owe for a request that decoded (`Some`) or did
/// not (`None`).
pub open spec fn sanity_check_spec(parsed: Option<Request>, r: SanityCheckResult) -> bool {
    match parsed {
        None => r matches SanityCheckResult::ErrRes(res) && is_error_response(
            res,
            None,
            PARSE_ERROR_CODE,
            FAILED_TO_PARSE_ERROR_MSG@,
        ),
        Some(req) => if req.jsonrpc@ != JSONRPC_VERSION@ {
            r matches SanityCheckResult::ErrRes(res) && is_error_response(
                res,
                Some(req.id),
                INVALID_REQUEST_ERROR_CODE,
                UNSUPPORTED_JSONRPC_VERSION@,
            )
        } else if method_parts(req.method@) is None {
            r matches SanityCheckResult::ErrRes(res) && is_error_response(
                res,
                Some(req.id),
                INVALID_REQUEST_ERROR_CODE,
                INVALID_REQUEST_ERROR_MSG@,
            )
        } else {
            r matches SanityCheckResult::NewReq(nr) && nr.msg == req && (
            nr.srvc_name@,
            nr.method_name@,
            ) == method_parts(req.method@)->0
        },
    }
}

/// Checks a request envelope: that it decoded, that its version is "2.0",
/// and that its method names a service and a method.
pub fn sanity_check(parsed: Option<Request>) -> (r: SanityCheckResult)
    ensures
        sanity_check_spec(parsed, r),
{
    let req = match parsed {
        Some(req) => req,
        None => {
            return SanityCheckResult::ErrRes(
                error_response(None, PARSE_ERROR_CODE, FAILED_TO_PARSE_ERROR_MSG),
            );
        },
    };
    if req.jsonrpc != version() {
        return SanityCheckResult::ErrRes(
            error_response(Some(req.id), INVALID_REQUEST_ERROR_CODE, UNSUPPORTED_JSONRPC_VERSION),
        );
    }
    match split_method(&req.method) {
        None => SanityCheckResult::ErrRes(
            error_response(Some(req.id), INVALID_REQUEST_ERROR_CODE, INVALID_REQUEST_ERROR_MSG),
        ),
        Some((srvc_name, method_name)) => SanityCheckResult::NewReq(
            NewRequest { srvc_name, method_name, msg: req },
        ),
    }
}

/// Which table serves a method.
pub enum Route {
    PubSub,
    Plain,
    NotFound,
}

/// Picks the table that serves a method: the pub/sub one when it has the
/// method, else the ordinary one when it has it, else none.
pub fn route(in_pubsub: bool, in_plain: bool) -> (r: Route)
    ensures
        in_pubsub ==> r is PubSub,
        !in_pubsub && in_plain ==> r is Plain,
        !in_pubsub && !in_plain ==> r is NotFound,
{
    if in_pubsub {
        Route::PubSub
    } else if in_plain {
        Route::Plain
    } else {
        Route::NotFound
    }
}

/// Wraps what a method returned into the response for request `id`.
pub fn method_response(id: serde_json::Value, outcome: Result<serde_json::Value, Error>) -> (r:
    Response)
    ensures
        outcome matches Ok(v) ==> is_result_response(r, id, v),
        outcome matches Err(e) ==> is_method_error_response(r, id, e),
{
    match outcome {
        Ok(v) => Response { jsonrpc: version(), id: Some(id), result: Some(v), error: None },
        Err(e) => Response { jsonrpc: version(), id: Some(id), result: None, error: Some(e) },
    }
}

/// The response for a request whose method no table serves.
pub fn method_not_found(id: serde_json::Value) -> (r: Response)
    ensures
        is_error_response(r, Some(id), METHOD_NOT_FOUND_ERROR_CODE, METHOD_NOT_FOUND_ERROR_MSG@),
{
    error_response(Some(id), METHOD_NOT_FOUND_ERROR_CODE, METHOD_NOT_FOUND_ERROR_MSG)
}

/// The response owed to a dispatched request with this id, given what the
/// dispatch produced.
pub open spec fn finish_spec(
    id: serde_json::Value,
    outcome: Option<Result<serde_json::Value, Error>>,
    r: Response,
) -> bool {
    match outcome {
        None => is_error_response(
            r,
            Some(id),
            METHOD_NOT_FOUND_ERROR_CODE,
            METHOD_NOT_FOUND_ERROR_MSG@,
        ),
        Some(Ok(v)) => is_result_response(r, id, v),
        Some(Err(e)) => is_method_error_response(r, id, e),
    }
}

/// The response to a request that was routed and, where a table served it,
/// run: `outcome` is `None` exactly when no table serves the method.
pub fn finish_request(
    req: NewRequest,
    outcome: Option<Result<serde_json::Value, Error>>,
) -> (r: Response)
    ensures
        finish_spec(req.msg.id, outcome, r),
{
    match outcome {
        None => method_not_found(req.msg.id),
        Some(o) => method_response(req.msg.id, o),
    }
}

/// A response carries the version tag and exactly one of a result and an error.
pub open spec fn is_single_response(r: Response) -> bool {
    &&& r.jsonrpc@ == JSONRPC_VERSION@
    &&& (r.result is Some) != (r.error is Some)
}

/// Every request gets exactly one response, which echoes its id where the
/// request decoded: either the envelope checks answer it at once, or it is
/// dispatched and the dispatch outcome is wrapped.
pub proof fn lemma_one_response_per_request(
    parsed: Option<Request>,
    checked: SanityCheckResult,
    outcome: Option<Result<serde_json::Value, Error>>,
    r: Response,
)
    requires
        sanity_check_spec(parsed, checked),
        checked matches SanityCheckResult::NewReq(nr) ==> finish_spec(nr.msg.id, outcome, r),
    ensures
        checked matches SanityCheckResult::ErrRes(res) ==> is_single_response(res) && (
        parsed matches Some(q) ==> res.id == Some(q.id)) && (parsed is None ==> res.id is None),
        checked is NewReq ==> is_single_response(r) && r.id == Some(parsed->0.id),
{
}

/// A value published on a subscription, as the subscription channel hands
/// it to the connection's writer.
pub struct SubscriptionMessage {
    pub sub_id: u32,
    pub method: String,
    pub result: serde_json::Value,
}

/// What the connection's writer does next.
pub enum WriterAction {
    /// Write this encoded response.
    SendResponse(serde_json::Value),
    /// Write this notification.
    SendNotification(Notification),
    /// The subscription channel closed: stop writing.
    Stop,
}

/// `n` is the notification that carries the published value `m`.
pub open spec fn is_notification_of(n: Notification, m: SubscriptionMessage) -> bool {
    &&& n.jsonrpc@ == JSONRPC_VERSION@
    &&& n.method@ == m.method@
    &&& n.params matches Some(p) && p.subscription == m.sub_id && p.result == Some(m.result)
}

/// The notification that carries a published value.
pub fn notification_of(m: SubscriptionMessage) -> (n: Notification)
    ensures
        is_notification_of(n, m),
{
    Notification {
        jsonrpc: version(),
        method: m.method,
        params: Some(NotificationResult { subscription: m.sub_id, result: Some(m.result) }),
    }
}

/// Decides the writer's next step from the arm that won its select: a queued
/// response (left), or a message from the subscription channel (right, `None`
/// once the channel closed).
pub fn writer_action(ev: Either<serde_json::Value, Option<SubscriptionMessage>>) -> (a:
    WriterAction)
    ensures
        ev matches Either::Left(v) ==> a == WriterAction::SendResponse(v),
        ev matches Either::Right(None) ==> a is Stop,
        ev matches Either::Right(Some(m)) ==> (a matches WriterAction::SendNotification(n)
            && is_notification_of(n, m)),
{
    match ev {
        Either::Left(v) => WriterAction::SendResponse(v),
        Either::Right(None) => WriterAction::Stop,
        Either::Right(Some(m)) => WriterAction::SendNotification(notification_of(m)),
    }
}

/// The transport an endpoint names.
pub enum Scheme {
    Tcp,
    Tls,
    Ws,
    Wss,
    Unix,
    Udp,
}

/// The kind of listener the server opens.
pub enum ListenerKind {
    Tcp,
    Tls,
    Ws,
    Wss,
    Unix,
}

/// Why the server cannot start.
pub enum ConfigError {
    TLSConfigRequired,
    UnsupportedProtocol(String),
}

/// Picks the listener for an endpoint: TLS transports need a TLS
/// configuration, and datagram endpoints are refused, naming the endpoint.
pub fn listener_plan(scheme: Scheme, has_tls_config: bool, endpoint: String) -> (r: Result<
    ListenerKind,
    ConfigError,
>)
    ensures
        scheme is Tcp ==> r == Ok::<ListenerKind, ConfigError>(ListenerKind::Tcp),
        scheme is Ws ==> r == Ok::<ListenerKind, ConfigError>(ListenerKind::Ws),
        scheme is Unix ==> r == Ok::<ListenerKind, ConfigError>(ListenerKind::Unix),
        scheme is Tls ==> r == (if has_tls_config {
            Ok::<ListenerKind, ConfigError>(ListenerKind::Tls)
        } else {
            Err(ConfigError::TLSConfigRequired)
        }),
        scheme is Wss ==> r == (if has_tls_config {
            Ok::<ListenerKind, ConfigError>(ListenerKind::Wss)
        } else {
            Err(ConfigError::TLSConfigRequired)
        }),
        scheme is Udp ==> (r matches Err(ConfigError::UnsupportedProtocol(e)) && e@ == endpoint@),
{
    match scheme {
        Scheme::Tcp => Ok(ListenerKind::Tcp),
        Scheme::Ws => Ok(ListenerKind::Ws),
        Scheme::Unix => Ok(ListenerKind::Unix),
        Scheme::Tls => if has_tls_config {
            Ok(ListenerKind::Tls)
        } else {
            Err(ConfigError::TLSConfigRequired)
        },
        Scheme::Wss => if has_tls_config {
            Ok(ListenerKind::Wss)
        } else {
            Err(ConfigError::TLSConfigRequired)
        },
        Scheme::Udp => Err(ConfigError::UnsupportedProtocol(endpoint)),
    }
}

} // verus!
