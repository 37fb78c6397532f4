//! The closed error taxonomy, and the translation of origin-specific
//! failures into it.
//!
//! Two translation tables live here: identity-service errors into local
//! kinds (note the deliberate exchange of the two api-key kinds, which a
//! regression test pins), and database failures, which always fold into a
//! single internal-error kind so that no schema or query detail leaks.
//! Errors considered unexpected come back paired with a structured
//! diagnostic entry for the caller to emit; expected client-facing kinds
//! come back with none.

use vstd::prelude::*;
use vstd::string::*;

verus! {

/// The closed set of error kinds this service can report to a client.
#[derive(Clone, Copy, Debug, PartialEq, Eq, Structural)]
pub enum ErrorKind {
    NotFound,
    DecodeError,
    MethodNotAllowed,
    ApiKeyUnauthorized,
    ApiKeyNonexistent,
    AuthInternalServerError,
    AuthBadRequest,
    AuthOther,
    InternalServerError,
    Unknown,
}

/// The error vocabulary of the external identity service, as plain values.
#[derive(Clone, Copy, Debug, PartialEq, Eq, Structural)]
pub enum AuthError {
    ApiKeyNonexistent,
    ApiKeyUnauthorized,
    InternalServerError,
    MethodNotAllowed,
    BadRequest,
    NotFound,
    DecodeError,
    Unknown,
}

/// Severity of a diagnostic entry.
#[derive(Clone, Copy, Debug, PartialEq, Eq, Structural)]
pub enum Severity {
    Info,
    Warning,
    Error,
}

/// A structured diagnostic entry.  This core never performs I/O, so it
/// hands such entries to its caller, which emits them.
pub struct LogEvent {
    pub msg: String,
    pub source: Option<String>,
    pub severity: Severity,
}

/// The wire label of an error kind: the exact text the envelope carries.
pub open spec fn spec_error_kind_label(k: ErrorKind) -> Seq<char> {
    match k {
        ErrorKind::NotFound => "NotFound"@,
        ErrorKind::DecodeError => "DecodeError"@,
        ErrorKind::MethodNotAllowed => "MethodNotAllowed"@,
        ErrorKind::ApiKeyUnauthorized => "ApiKeyUnauthorized"@,
        ErrorKind::ApiKeyNonexistent => "ApiKeyNonexistent"@,
        ErrorKind::AuthInternalServerError => "AuthInternalServerError"@,
        ErrorKind::AuthBadRequest => "AuthBadRequest"@,
        ErrorKind::AuthOther => "AuthOther"@,
        ErrorKind::InternalServerError => "InternalServerError"@,
        ErrorKind::Unknown => "Unknown"@,
    }
}

pub fn error_kind_label(k: &ErrorKind) -> (r: String)
    ensures
        r@ == spec_error_kind_label(*k),
{
    match k {
        ErrorKind::NotFound => "NotFound".to_owned(),
        ErrorKind::DecodeError => "DecodeError".to_owned(),
        ErrorKind::MethodNotAllowed => "MethodNotAllowed".to_owned(),
        ErrorKind::ApiKeyUnauthorized => "ApiKeyUnauthorized".to_owned(),
        ErrorKind::ApiKeyNonexistent => "ApiKeyNonexistent".to_owned(),
        ErrorKind::AuthInternalServerError => "AuthInternalServerError".to_owned(),
        ErrorKind::AuthBadRequest => "AuthBadRequest".to_owned(),
        ErrorKind::AuthOther => "AuthOther".to_owned(),
        ErrorKind::InternalServerError => "InternalServerError".to_owned(),
        ErrorKind::Unknown => "Unknown".to_owned(),
    }
}

/// The label of an identity-service error, used in diagnostics.
pub open spec fn spec_auth_error_label(e: AuthError) -> Seq<char> {
    match e {
        AuthError::ApiKeyNonexistent => "ApiKeyNonexistent"@,
        AuthError::ApiKeyUnauthorized => "ApiKeyUnauthorized"@,
        AuthError::InternalServerError => "InternalServerError"@,
        AuthError::MethodNotAllowed => "MethodNotAllowed"@,
        AuthError::BadRequest => "BadRequest"@,
        AuthError::NotFound => "NotFound"@,
        AuthError::DecodeError => "DecodeError"@,
        AuthError::Unknown => "Unknown"@,
    }
}

pub fn auth_error_label(e: &AuthError) -> (r: String)
    ensures
        r@ == spec_auth_error_label(*e),
{
    match e {
        AuthError::ApiKeyNonexistent => "ApiKeyNonexistent".to_owned(),
        AuthError::ApiKeyUnauthorized => "ApiKeyUnauthorized".to_owned(),
        AuthError::InternalServerError => "InternalServerError".to_owned(),
        AuthError::MethodNotAllowed => "MethodNotAllowed".to_owned(),
        AuthError::BadRequest => "BadRequest".to_owned(),
        AuthError::NotFound => "NotFound".to_owned(),
        AuthError::DecodeError => "DecodeError".to_owned(),
        AuthError::Unknown => "Unknown".to_owned(),
    }
}

/// How each identity-service error translates into a local kind.  The two
/// api-key kinds are deliberately exchanged with respect to their names;
/// a regression test pins this exact behaviour.
pub open spec fn spec_auth_translation(e: AuthError) -> ErrorKind {
    match e {
        AuthError::ApiKeyNonexistent => ErrorKind::ApiKeyUnauthorized,
        AuthError::ApiKeyUnauthorized => ErrorKind::ApiKeyNonexistent,
        AuthError::InternalServerError => ErrorKind::AuthInternalServerError,
        AuthError::MethodNotAllowed => ErrorKind::AuthBadRequest,
        AuthError::BadRequest => ErrorKind::AuthBadRequest,
        _ => ErrorKind::AuthOther,
    }
}

/// An identity-service error counts as expected when it only tells the
/// client about its own api key; everything else deserves a diagnostic.
pub open spec fn spec_auth_err_expected(e: AuthError) -> bool {
    e == AuthError::ApiKeyNonexistent || e == AuthError::ApiKeyUnauthorized
}

/// The diagnostic owed for an identity-service error: none for an
/// expected error, and otherwise an error-level entry naming the local
/// kind and the original error.
pub open spec fn spec_auth_diag(e: AuthError, log: Option<LogEvent>) -> bool {
    if spec_auth_err_expected(e) {
        log is None
    } else {
        log is Some && {
            let ev = log.unwrap();
            &&& ev.msg@ == spec_error_kind_label(spec_auth_translation(e))
            &&& ev.source is Some
            &&& ev.source.unwrap()@ == "auth service: "@ + spec_auth_error_label(e)
            &&& ev.severity == Severity::Error
        }
    }
}

/// Translate an identity-service error into the local taxonomy.  Expected
/// kinds come back silent; every other kind comes back with an error-level
/// diagnostic naming both the local kind and the original error.
pub fn report_auth_err(e: &AuthError) -> (r: (ErrorKind, Option<LogEvent>))
    ensures
        r.0 == spec_auth_translation(*e),
        spec_auth_diag(*e, r.1),
{
    match e {
        AuthError::ApiKeyNonexistent => (ErrorKind::ApiKeyUnauthorized, None),
        AuthError::ApiKeyUnauthorized => (ErrorKind::ApiKeyNonexistent, None),
        _ => {
            let kind = match e {
                AuthError::InternalServerError => ErrorKind::AuthInternalServerError,
                AuthError::MethodNotAllowed => ErrorKind::AuthBadRequest,
                AuthError::BadRequest => ErrorKind::AuthBadRequest,
                _ => ErrorKind::AuthOther,
            };
            let source = "auth service: ".to_owned().concat(auth_error_label(e).as_str());
            let ev = LogEvent {
                msg: error_kind_label(&kind),
                source: Some(source),
                severity: Severity::Error,
            };
            (kind, Some(ev))
        },
    }
}

/// Fold a database failure into the single internal-error kind, so no
/// query or schema detail reaches a client, and pair it with an
/// error-level diagnostic carrying the failure's own text.
pub fn report_postgres_err(msg: String, source: Option<String>) -> (r: (ErrorKind, LogEvent))
    ensures
        r.0 == ErrorKind::InternalServerError,
        r.1.msg == msg,
        r.1.source == source,
        r.1.severity == Severity::Error,
{
    (ErrorKind::InternalServerError, LogEvent { msg, source, severity: Severity::Error })
}

} // verus!
