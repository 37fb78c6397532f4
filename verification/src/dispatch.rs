//! Route dispatch and the rejection normalizer.
//!
//! A request is matched against the fixed route table; a matched business
//! route hands a decoded payload to its handler, and every other outcome
//! (unmatched route, disallowed method, body that failed structural
//! decode) is normalized into the one error-envelope shape with the status
//! the table below assigns.  No request leaves without exactly one
//! envelope-shaped, correctly-statused response.

use vstd::prelude::*;
use vstd::string::*;

use crate::envelope::encode_err_envelope;
use crate::envelope::spec_err_envelope;
use crate::errors::ErrorKind;
use crate::errors::LogEvent;
use crate::errors::Severity;
use crate::handler::SubscriptionNewProps;

verus! {

/// The HTTP methods this service distinguishes.
#[derive(Clone, Copy, Debug, PartialEq, Eq, Structural)]
pub enum Method {
    Get,
    Post,
    Put,
    Delete,
    Patch,
    Head,
    Options,
}

/// The business routes of the route table.
#[derive(Clone, Copy, Debug, PartialEq, Eq, Structural)]
pub enum RouteId {
    Test,
    Test2,
}

/// A finished HTTP response: a status code and the exact body text.
pub struct Response {
    pub status: u16,
    pub body: String,
}

/// A failure that no handler produced, caught by the terminal normalizer.
pub enum Rejection {
    RouteNotFound,
    BodyDeserialize,
    MethodDisallowed,
    Handler(ErrorKind),
    Internal(String),
}

/// The error kind each rejection normalizes to.
pub open spec fn spec_rejection_kind(r: Rejection) -> ErrorKind {
    match r {
        Rejection::RouteNotFound => ErrorKind::NotFound,
        Rejection::BodyDeserialize => ErrorKind::DecodeError,
        Rejection::MethodDisallowed => ErrorKind::MethodNotAllowed,
        Rejection::Handler(k) => k,
        Rejection::Internal(_) => ErrorKind::Unknown,
    }
}

/// The HTTP status each rejection normalizes to.
pub open spec fn spec_rejection_status(r: Rejection) -> u16 {
    match r {
        Rejection::RouteNotFound => 404,
        Rejection::BodyDeserialize => 400,
        Rejection::MethodDisallowed => 405,
        Rejection::Handler(_) => 400,
        Rejection::Internal(_) => 500,
    }
}

/// The terminal normalizer: every rejection becomes exactly one error
/// envelope with the status of its kind.  Only an unrecognized fault is
/// unexpected, and only it comes back with a diagnostic, carrying the raw
/// fault detail.
pub fn handle_rejection(r: &Rejection) -> (out: (Response, Option<LogEvent>))
    ensures
        out.0.status == spec_rejection_status(*r),
        out.0.body@ == spec_err_envelope(spec_rejection_kind(*r)),
        !(*r is Internal) ==> out.1 is None,
        *r matches Rejection::Internal(detail) ==> (out.1 matches Some(ev) && ev.msg@
            == "intercepted unknown error kind"@ && ev.source is Some && ev.source.unwrap()
            == detail && ev.severity == Severity::Error),
{
    match r {
        Rejection::RouteNotFound => (
            Response { status: 404, body: encode_err_envelope(&ErrorKind::NotFound) },
            None,
        ),
        Rejection::BodyDeserialize => (
            Response { status: 400, body: encode_err_envelope(&ErrorKind::DecodeError) },
            None,
        ),
        Rejection::MethodDisallowed => (
            Response { status: 405, body: encode_err_envelope(&ErrorKind::MethodNotAllowed) },
            None,
        ),
        Rejection::Handler(k) => (Response { status: 400, body: encode_err_envelope(k) }, None),
        Rejection::Internal(detail) => {
            let ev = LogEvent {
                msg: "intercepted unknown error kind".to_owned(),
                source: Some(detail.clone()),
                severity: Severity::Error,
            };
            (Response { status: 500, body: encode_err_envelope(&ErrorKind::Unknown) }, Some(ev))
        },
    }
}

/// The exact body of the unauthenticated info endpoint.
pub open spec fn spec_info_body() -> Seq<char> {
    "{\"version\":\"0.1\",\"name\":\"innexgo-exams-service\"}"@
}

/// The static, unauthenticated info endpoint.
pub fn api_info() -> (r: Response)
    ensures
        r.status == 200,
        r.body@ == spec_info_body(),
{
    let mut b = "{\"version\":\"0.1\",\"name\":\"".to_owned();
    b.append(crate::service_name().as_str());
    b.append("\"}");
    proof {
        reveal_strlit("{\"version\":\"0.1\",\"name\":\"");
        reveal_strlit("innexgo-exams-service");
        reveal_strlit("\"}");
        reveal_strlit("{\"version\":\"0.1\",\"name\":\"innexgo-exams-service\"}");
        assert(b@ =~= spec_info_body());
    }
    Response { status: 200, body: b }
}

/// The info route: the single segment `info`.
pub open spec fn spec_is_info_path(path: Seq<String>) -> bool {
    path.len() == 1 && path[0]@ == "info"@
}

/// The first business route: `public/test/test`.
pub open spec fn spec_is_test_path(path: Seq<String>) -> bool {
    path.len() == 3 && path[0]@ == "public"@ && path[1]@ == "test"@ && path[2]@ == "test"@
}

/// The second business route: `public/test/test2`.
pub open spec fn spec_is_test2_path(path: Seq<String>) -> bool {
    path.len() == 3 && path[0]@ == "public"@ && path[1]@ == "test"@ && path[2]@ == "test2"@
}

/// A path the route table knows.
pub open spec fn spec_known_path(path: Seq<String>) -> bool {
    spec_is_info_path(path) || spec_is_test_path(path) || spec_is_test2_path(path)
}

fn seg_eq(s: &String, lit: &str) -> (r: bool)
    ensures
        r == (s@ == lit@),
{
    let owned: String = lit.to_owned();
    *s == owned
}

/// What the dispatch layer decided for one request: either a finished
/// response (with the diagnostic owed for it, if any), or a handler to
/// invoke with its decoded payload.
pub enum Dispatch {
    Done(Response, Option<LogEvent>),
    Invoke(RouteId, SubscriptionNewProps),
}

/// The dispatch decision finished the request as this rejection says.
pub open spec fn spec_rejected(d: Dispatch, r: Rejection) -> bool {
    &&& d matches Dispatch::Done(resp, log)
    &&& resp.status == spec_rejection_status(r)
    &&& resp.body@ == spec_err_envelope(spec_rejection_kind(r))
    &&& log is None
}

/// Match one request against the route table and decide its fate.
///
/// `body` carries the request body's structural decode outcome for the
/// business routes: the typed payload, or nothing when decoding failed.
/// The info route never reads it.  In order: an unmatched path is not
/// found; a matched path with the wrong method is a disallowed method; a
/// matched business route with an undecodable body is a decode error; and
/// only a matched business route with a decoded body reaches its handler,
/// with exactly that payload.
pub fn dispatch_request(method: &Method, path: &Vec<String>, body: Option<
    SubscriptionNewProps,
>) -> (d: Dispatch)
    ensures
        spec_is_info_path(path@) && *method == Method::Get ==> (d matches Dispatch::Done(
            resp,
            log,
        ) && resp.status == 200 && resp.body@ == spec_info_body() && log is None),
        spec_is_info_path(path@) && *method != Method::Get ==> spec_rejected(
            d,
            Rejection::MethodDisallowed,
        ),
        spec_is_test_path(path@) && *method == Method::Post && body is Some ==> d
            == Dispatch::Invoke(RouteId::Test, body.unwrap()),
        spec_is_test2_path(path@) && *method == Method::Post && body is Some ==> d
            == Dispatch::Invoke(RouteId::Test2, body.unwrap()),
        spec_known_path(path@) && !spec_is_info_path(path@) && *method == Method::Post && body
            is None ==> spec_rejected(d, Rejection::BodyDeserialize),
        spec_known_path(path@) && !spec_is_info_path(path@) && *method != Method::Post
            ==> spec_rejected(d, Rejection::MethodDisallowed),
        !spec_known_path(path@) ==> spec_rejected(d, Rejection::RouteNotFound),
        d matches Dispatch::Done(resp, _) ==> (resp.body@ == spec_info_body() || (exists|k:
            ErrorKind| resp.body@ == spec_err_envelope(k))),
        d matches Dispatch::Invoke(rid, p) ==> (*method == Method::Post && body == Some(p) && (rid
            == RouteId::Test ==> spec_is_test_path(path@)) && (rid == RouteId::Test2
            ==> spec_is_test2_path(path@))),
{
    proof {
        reveal_strlit("test");
        reveal_strlit("test2");
        assert("test"@.len() != "test2"@.len());
        assert("test"@ != "test2"@);
    }
    let n: usize = path.len();
    if n == 1 && seg_eq(&path[0], "info") {
        if let Method::Get = method {
            let resp = api_info();
            Dispatch::Done(resp, None)
        } else {
            let (resp, log) = handle_rejection(&Rejection::MethodDisallowed);
            Dispatch::Done(resp, log)
        }
    } else if n == 3 && seg_eq(&path[0], "public") && seg_eq(&path[1], "test") && seg_eq(
        &path[2],
        "test",
    ) {
        if let Method::Post = method {
            match body {
                Some(props) => Dispatch::Invoke(RouteId::Test, props),
                None => {
                    let (resp, log) = handle_rejection(&Rejection::BodyDeserialize);
                    Dispatch::Done(resp, log)
                },
            }
        } else {
            let (resp, log) = handle_rejection(&Rejection::MethodDisallowed);
            Dispatch::Done(resp, log)
        }
    } else if n == 3 && seg_eq(&path[0], "public") && seg_eq(&path[1], "test") && seg_eq(
        &path[2],
        "test2",
    ) {
        if let Method::Post = method {
            match body {
                Some(props) => Dispatch::Invoke(RouteId::Test2, props),
                None => {
                    let (resp, log) = handle_rejection(&Rejection::BodyDeserialize);
                    Dispatch::Done(resp, log)
                },
            }
        } else {
            let (resp, log) = handle_rejection(&Rejection::MethodDisallowed);
            Dispatch::Done(resp, log)
        }
    } else {
        let (resp, log) = handle_rejection(&Rejection::RouteNotFound);
        Dispatch::Done(resp, log)
    }
}

} // verus!
