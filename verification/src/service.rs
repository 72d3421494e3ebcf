//! What the manager answers about itself.

use vstd::prelude::*;

verus! {

/// The answer to a health check.
#[derive(Clone, Debug)]
pub struct HealthResponse {
    pub status: String,
    pub timestamp: String,
}

/// The answer to a health check made at the time `timestamp`.
pub fn health_check(timestamp: String) -> (r: HealthResponse)
    ensures
        r.status@ == "ok"@,
        r.timestamp == timestamp,
{
    HealthResponse { status: "ok".to_owned(), timestamp }
}

/// The version of the manager.
pub const CURRENT_VERSION: &'static str = "1.0.0";

/// The answer to a check for updates.
#[derive(Clone, Debug)]
pub struct UpdateCheckResponse {
    pub has_update: bool,
    pub current_version: String,
    pub latest_version: String,
    pub download_url: Option<String>,
}

/// The answer to a check for updates: there is never one, and the latest
/// version is the current one.
pub fn check_updates() -> (r: UpdateCheckResponse)
    ensures
        !r.has_update,
        r.current_version@ == CURRENT_VERSION@,
        r.latest_version@ == CURRENT_VERSION@,
        r.download_url is None,
{
    UpdateCheckResponse {
        has_update: false,
        current_version: CURRENT_VERSION.to_owned(),
        latest_version: CURRENT_VERSION.to_owned(),
        download_url: None,
    }
}

/// A request to update the manager.
#[derive(Clone, Debug)]
pub struct PerformUpdateRequest {
    pub update_type: String,
}

/// What is said of a request to update.
pub const NO_UPDATES: &'static str = "Update feature not implemented yet";

/// The answer to a request to update: it is always refused.
pub fn perform_update(request: &PerformUpdateRequest) -> (r: Result<String, String>)
    ensures
        r matches Err(e) && e@ == NO_UPDATES@,
{
    Err(NO_UPDATES.to_owned())
}

} // verus!
