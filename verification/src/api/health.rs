//! Liveness probe.

use vstd::prelude::*;

verus! {

/// Reply of `GET /api/health`.
#[derive(Debug, Clone)]
pub struct HealthResponse {
    pub status: &'static str,
    pub version: &'static str,
}

/// The health reply: status `ok` and the version of the running build.
pub fn health_check(version: &'static str) -> (r: HealthResponse)
    ensures
        r.status@ == "ok"@,
        r.version@ == version@,
{
    HealthResponse { status: "ok", version }
}

} // verus!
