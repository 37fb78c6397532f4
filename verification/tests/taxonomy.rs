use innexgo_exams_service::envelope::Envelope;
use innexgo_exams_service::envelope::encode_envelope;
use innexgo_exams_service::envelope::encode_err_envelope;
use innexgo_exams_service::envelope::encode_ok_envelope;
use innexgo_exams_service::envelope::i64_to_dec;
use innexgo_exams_service::envelope::u64_to_dec;
use innexgo_exams_service::errors::AuthError;
use innexgo_exams_service::errors::ErrorKind;
use innexgo_exams_service::errors::Severity;
use innexgo_exams_service::errors::error_kind_label;
use innexgo_exams_service::errors::report_auth_err;
use innexgo_exams_service::errors::report_postgres_err;
use innexgo_exams_service::handler::Subscription;
use innexgo_exams_service::handler::encode_subscription;
use innexgo_exams_service::service_name;

#[test]
fn the_two_api_key_kinds_are_exchanged() {
    // Regression pin: the identity service's nonexistent-key error comes
    // back as the unauthorized kind, and the other way around.
    let (kind, log) = report_auth_err(&AuthError::ApiKeyNonexistent);
    assert_eq!(kind, ErrorKind::ApiKeyUnauthorized);
    assert!(log.is_none());
    let (kind, log) = report_auth_err(&AuthError::ApiKeyUnauthorized);
    assert_eq!(kind, ErrorKind::ApiKeyNonexistent);
    assert!(log.is_none());
}

#[test]
fn auth_translation_table_is_exact() {
    let cases = [
        (AuthError::InternalServerError, ErrorKind::AuthInternalServerError),
        (AuthError::MethodNotAllowed, ErrorKind::AuthBadRequest),
        (AuthError::BadRequest, ErrorKind::AuthBadRequest),
        (AuthError::NotFound, ErrorKind::AuthOther),
        (AuthError::DecodeError, ErrorKind::AuthOther),
        (AuthError::Unknown, ErrorKind::AuthOther),
    ];
    for (auth_err, expected) in cases {
        let (kind, log) = report_auth_err(&auth_err);
        assert_eq!(kind, expected);
        let log = log.expect("an unexpected identity-service error must be logged");
        assert_eq!(log.severity, Severity::Error);
        assert_eq!(log.msg, error_kind_label(&expected));
        assert!(log.source.unwrap().starts_with("auth service: "));
    }
}

#[test]
fn auth_diagnostic_names_the_original_error() {
    let (_, log) = report_auth_err(&AuthError::InternalServerError);
    let src = log.unwrap().source.unwrap();
    assert_eq!(src, "auth service: InternalServerError");
}

#[test]
fn database_failures_fold_to_internal_server_error() {
    let (kind, log) = report_postgres_err("syntax error at or near".to_string(), None);
    assert_eq!(kind, ErrorKind::InternalServerError);
    assert_eq!(log.msg, "syntax error at or near");
    assert_eq!(log.source, None);
    assert_eq!(log.severity, Severity::Error);
}

#[test]
fn error_labels_are_the_wire_names() {
    assert_eq!(error_kind_label(&ErrorKind::NotFound), "NotFound");
    assert_eq!(error_kind_label(&ErrorKind::DecodeError), "DecodeError");
    assert_eq!(error_kind_label(&ErrorKind::MethodNotAllowed), "MethodNotAllowed");
    assert_eq!(error_kind_label(&ErrorKind::ApiKeyUnauthorized), "ApiKeyUnauthorized");
    assert_eq!(error_kind_label(&ErrorKind::ApiKeyNonexistent), "ApiKeyNonexistent");
    assert_eq!(error_kind_label(&ErrorKind::AuthInternalServerError), "AuthInternalServerError");
    assert_eq!(error_kind_label(&ErrorKind::AuthBadRequest), "AuthBadRequest");
    assert_eq!(error_kind_label(&ErrorKind::AuthOther), "AuthOther");
    assert_eq!(error_kind_label(&ErrorKind::InternalServerError), "InternalServerError");
    assert_eq!(error_kind_label(&ErrorKind::Unknown), "Unknown");
}

#[test]
fn envelopes_have_the_stable_wire_shape() {
    assert_eq!(encode_err_envelope(&ErrorKind::NotFound), "{\"Err\":\"NotFound\"}");
    assert_eq!(encode_ok_envelope("{\"x\":1}"), "{\"Ok\":{\"x\":1}}");
    assert_eq!(
        encode_envelope(&Envelope::Success("true".to_string())),
        "{\"Ok\":true}"
    );
    assert_eq!(
        encode_envelope(&Envelope::Failure(ErrorKind::Unknown)),
        "{\"Err\":\"Unknown\"}"
    );
}

#[test]
fn an_envelope_is_never_both_ok_and_err() {
    // The success and failure shapes differ on every payload and kind.
    let kinds = [ErrorKind::NotFound, ErrorKind::Unknown, ErrorKind::DecodeError];
    let payloads = ["\"NotFound\"", "{\"Err\":\"NotFound\"}", "null"];
    for k in kinds {
        for p in payloads {
            assert_ne!(encode_ok_envelope(p), encode_err_envelope(&k));
        }
    }
}

#[test]
fn decimal_rendering_is_exact() {
    assert_eq!(u64_to_dec(0), "0");
    assert_eq!(u64_to_dec(7), "7");
    assert_eq!(u64_to_dec(10), "10");
    assert_eq!(u64_to_dec(1234567890123456789), "1234567890123456789");
    assert_eq!(i64_to_dec(0), "0");
    assert_eq!(i64_to_dec(-1), "-1");
    assert_eq!(i64_to_dec(i64::MAX), "9223372036854775807");
    assert_eq!(i64_to_dec(i64::MIN), "-9223372036854775808");
}

#[test]
fn subscription_payload_renders_as_json() {
    let sub = Subscription {
        subscription_id: 1,
        creation_time: -5,
        creator_user_id: 42,
        subscription_kind: 1,
        max_uses: 1,
        payment_id: 0,
    };
    let text = encode_subscription(&sub);
    let v: serde_json::Value = serde_json::from_str(&text).unwrap();
    assert_eq!(v["subscription_id"], 1);
    assert_eq!(v["creation_time"], -5);
    assert_eq!(v["creator_user_id"], 42);
    assert_eq!(v["subscription_kind"], 1);
    assert_eq!(v["max_uses"], 1);
    assert_eq!(v["payment_id"], 0);
}

#[test]
fn the_service_reports_its_name() {
    assert_eq!(service_name(), "innexgo-exams-service");
}
