//! The system endpoints.
use vstd::prelude::*;

verus! {

/// The body of the health check answer.
pub struct Healthz {
    pub message: String,
}

/// The answers of the health check endpoint.
pub enum HealthResponse {
    Healthy(Healthz),
}

/// The system endpoints.
pub struct SystemApi;

impl SystemApi {
    /// The health check: always answers that the server is online.
    pub fn healthz(&self) -> (r: HealthResponse)
        ensures
            r matches HealthResponse::Healthy(h) && h.message@ == "server online"@,
    {
        HealthResponse::Healthy(Healthz { message: String::from_str("server online") })
    }
}

impl HealthResponse {
    /// The HTTP status of the answer.
    pub fn status_code(&self) -> (r: u16)
        ensures
            r == 200,
    {
        match self {
            HealthResponse::Healthy(_) => 200,
        }
    }
}

} // verus!
