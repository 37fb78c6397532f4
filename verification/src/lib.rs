//! Core of a small HTTP service: request dispatch and error translation.
//!
//! Every business endpoint decodes a typed request, consults the external
//! identity service, performs one database operation, and answers with a
//! uniform JSON envelope.  The decision logic of that pipeline lives here,
//! verified; the surrounding I/O (the HTTP server, the identity service
//! client, the database connection) stays outside and feeds this core with
//! plain values.

use vstd::prelude::*;

pub mod dispatch;
pub mod envelope;
pub mod errors;
pub mod guard;
pub mod handler;

verus! {

/// Immutable process-wide configuration, constructed once at startup and
/// passed by reference into every component.
#[derive(Clone)]
pub struct Config {
    pub site_external_url: String,
}

/// The service's name, as the info endpoint reports it.
pub fn service_name() -> (r: String)
    ensures
        r@ == "innexgo-exams-service"@,
{
    "innexgo-exams-service".to_owned()
}

} // verus!
