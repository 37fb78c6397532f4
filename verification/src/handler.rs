//! The one business operation, as a state machine of plain values.
//!
//! A business handler validates the caller's api key against the external
//! identity service, then inserts one subscription record over the shared
//! database connection, and answers with the new record.  Both outside
//! calls suspend, so the handler is written here as its decisions: each
//! step takes the outcome of the previous outside call and says what to do
//! next.  The surrounding runtime performs the calls and feeds the
//! outcomes back in; every value of every outcome is covered below.

use vstd::prelude::*;
use vstd::string::*;

use crate::dispatch::Response;
use crate::envelope::encode_err_envelope;
use crate::envelope::encode_ok_envelope;
use crate::envelope::i64_to_dec;
use crate::envelope::spec_dec_i64;
use crate::envelope::spec_err_envelope;
use crate::envelope::spec_ok_envelope;
use crate::errors::AuthError;
use crate::errors::ErrorKind;
use crate::errors::LogEvent;
use crate::errors::Severity;
use crate::errors::report_auth_err;
use crate::errors::report_postgres_err;
use crate::errors::spec_auth_diag;
use crate::errors::spec_auth_translation;

verus! {

/// The typed request payload of the subscription endpoints.
pub struct SubscriptionNewProps {
    pub api_key: String,
    pub subscription_kind: i64,
}

/// The typed response payload: one subscription record.
pub struct Subscription {
    pub subscription_id: i64,
    pub creation_time: i64,
    pub creator_user_id: i64,
    pub subscription_kind: i64,
    pub max_uses: i64,
    pub payment_id: i64,
}

/// A database failure, reduced to the plain values this core reads of it:
/// its display text and the text of its underlying cause, if any.
pub struct DbFault {
    pub msg: String,
    pub source: Option<String>,
}

/// What the handler asks its surroundings to do next: perform one outside
/// call, or send the finished response (emitting the diagnostic first,
/// when one is attached).
pub enum HandlerStep {
    ValidateApiKey(String),
    AddSubscription { creator_user_id: i64, subscription_kind: i64, max_uses: i64, payment_id: i64 },
    Finish(Response, Option<LogEvent>),
}

/// The exact JSON text of a subscription record.
pub open spec fn spec_subscription_json(s: Subscription) -> Seq<char> {
    "{\"subscription_id\":"@ + spec_dec_i64(s.subscription_id as int) + ",\"creation_time\":"@
        + spec_dec_i64(s.creation_time as int) + ",\"creator_user_id\":"@ + spec_dec_i64(
        s.creator_user_id as int,
    ) + ",\"subscription_kind\":"@ + spec_dec_i64(s.subscription_kind as int) + ",\"max_uses\":"@
        + spec_dec_i64(s.max_uses as int) + ",\"payment_id\":"@ + spec_dec_i64(
        s.payment_id as int,
    ) + "}"@
}

pub fn encode_subscription(s: &Subscription) -> (r: String)
    ensures
        r@ == spec_subscription_json(*s),
{
    let mut t = "{\"subscription_id\":".to_owned();
    t.append(i64_to_dec(s.subscription_id).as_str());
    t.append(",\"creation_time\":");
    t.append(i64_to_dec(s.creation_time).as_str());
    t.append(",\"creator_user_id\":");
    t.append(i64_to_dec(s.creator_user_id).as_str());
    t.append(",\"subscription_kind\":");
    t.append(i64_to_dec(s.subscription_kind).as_str());
    t.append(",\"max_uses\":");
    t.append(i64_to_dec(s.max_uses).as_str());
    t.append(",\"payment_id\":");
    t.append(i64_to_dec(s.payment_id).as_str());
    t.append("}");
    proof {
        assert(t@ =~= spec_subscription_json(*s));
    }
    t
}

/// First step: the handler always begins by validating the caller's api
/// key, and hands out exactly the key the request carried.
pub fn handler_begin(props: &SubscriptionNewProps) -> (s: HandlerStep)
    ensures
        s matches HandlerStep::ValidateApiKey(k) && k == props.api_key,
{
    HandlerStep::ValidateApiKey(props.api_key.clone())
}

/// Second step, on the identity service's answer.  A validated caller
/// leads to exactly one insertion, for that caller, with the requested
/// subscription kind, one permitted use and no payment.  A failed
/// validation short-circuits: the error is translated through the auth
/// table and the handler finishes with a client-facing error envelope.
pub fn handler_auth_result(props: &SubscriptionNewProps, r: &Result<i64, AuthError>) -> (s:
    HandlerStep)
    ensures
        r matches Ok(user_id) ==> s == (HandlerStep::AddSubscription {
            creator_user_id: *user_id,
            subscription_kind: props.subscription_kind,
            max_uses: 1,
            payment_id: 0,
        }),
        r matches Err(e) ==> (s matches HandlerStep::Finish(resp, log) && resp.status == 400
            && resp.body@ == spec_err_envelope(spec_auth_translation(*e)) && spec_auth_diag(
            *e,
            log,
        )),
{
    match r {
        Ok(user_id) => HandlerStep::AddSubscription {
            creator_user_id: *user_id,
            subscription_kind: props.subscription_kind,
            max_uses: 1,
            payment_id: 0,
        },
        Err(e) => {
            let (kind, log) = report_auth_err(e);
            let resp = Response { status: 400, body: encode_err_envelope(&kind) };
            HandlerStep::Finish(resp, log)
        },
    }
}

/// Last step, on the database's answer.  A created record is rendered and
/// wrapped in a success envelope; a database failure folds into the
/// internal-error kind, with an error-level diagnostic carrying the
/// failure's text, and nothing of the failure reaches the client.
pub fn handler_db_result(r: Result<Subscription, DbFault>) -> (s: HandlerStep)
    ensures
        r matches Ok(sub) ==> (s matches HandlerStep::Finish(resp, log) && resp.status == 200
            && resp.body@ == spec_ok_envelope(spec_subscription_json(sub)) && log is None),
        r matches Err(f) ==> (s matches HandlerStep::Finish(resp, log) && resp.status == 400
            && resp.body@ == spec_err_envelope(ErrorKind::InternalServerError) && log is Some
            && log.unwrap().msg == f.msg && log.unwrap().source == f.source
            && log.unwrap().severity == Severity::Error),
{
    match r {
        Ok(sub) => {
            let payload = encode_subscription(&sub);
            let resp = Response { status: 200, body: encode_ok_envelope(payload.as_str()) };
            HandlerStep::Finish(resp, None)
        },
        Err(f) => {
            let (kind, ev) = report_postgres_err(f.msg, f.source);
            let resp = Response { status: 400, body: encode_err_envelope(&kind) };
            HandlerStep::Finish(resp, Some(ev))
        },
    }
}

} // verus!
