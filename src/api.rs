//! The values that cross the library's front door: requests, responses and
//! the health report.

use vstd::prelude::*;

verus! {

/// The answer to a health probe.
#[derive(Debug)]
pub struct HealthStatus {
    pub status: &'static str,
}

/// A request to store a secret: the plain text and the passphrase to seal it
/// under.
#[derive(Debug)]
pub struct EncryptRequest {
    pub plain_text: String,
    pub key: String,
}

/// The handle of a stored secret.
#[derive(Debug)]
pub struct EncryptResponse {
    pub id: String,
}

/// The reply to a request to store a secret: the handle, or what went wrong.
#[derive(Debug)]
pub enum EncryptApiResponse {
    Created(EncryptResponse),
    Failed(String),
}

/// A request to read a secret back: its handle and the passphrase.
#[derive(Debug)]
pub struct DecryptParams {
    pub id: String,
    pub key: String,
}

/// Reports that the service answers.
pub fn health_handler() -> (r: HealthStatus)
    ensures
        r.status@ == "healthy"@,
{
    HealthStatus { status: "healthy" }
}

} // verus!
