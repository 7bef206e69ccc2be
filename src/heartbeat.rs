use vstd::prelude::*;
use vstd::string::StringExecFns;

verus! {

/// Seconds between two liveness reports.
pub const HEARTBEAT_INTERVAL_SECS: u64 = 30;

/// Body of a liveness report.
pub struct HeartbeatRequest {
    pub device_fingerprint: String,
    pub app_version: String,
}

/// The server's record of this device.
pub struct HeartbeatResponse {
    pub status: String,
    pub first_seen: String,
    pub last_seen: String,
    pub app_version: String,
}

/// What the user sees of the liveness reports.
pub struct HeartbeatStatus {
    pub status: Option<HeartbeatResponse>,
    pub is_loading: bool,
    pub error: Option<String>,
}

/// Where and as whom liveness is reported.
pub struct HeartbeatConfig {
    pub url: String,
    pub token: String,
    pub device_fingerprint: String,
    pub app_version: String,
}

impl HeartbeatConfig {
    /// Reports to the endpoint `path` of `server_url`.
    pub fn new(
        server_url: &str,
        path: &str,
        token: String,
        device_fingerprint: String,
        app_version: String,
    ) -> (r: Self)
        ensures
            r.url@ == server_url@ + path@,
            r.token == token,
            r.device_fingerprint == device_fingerprint,
            r.app_version == app_version,
    {
        HeartbeatConfig {
            url: server_url.to_owned().concat(path),
            token,
            device_fingerprint,
            app_version,
        }
    }

    /// The body of the next report.
    pub fn request(&self) -> (r: HeartbeatRequest)
        ensures
            r.device_fingerprint == self.device_fingerprint,
            r.app_version == self.app_version,
    {
        HeartbeatRequest {
            device_fingerprint: self.device_fingerprint.clone(),
            app_version: self.app_version.clone(),
        }
    }
}

impl HeartbeatStatus {
    /// No report made or kept: the state after a stop.
    pub fn stopped() -> (r: Self)
        ensures
            r.status is None,
            !r.is_loading,
            r.error is None,
    {
        HeartbeatStatus { status: None, is_loading: false, error: None }
    }

    /// The state after a report that the server answered with `response`.
    pub fn succeeded(response: HeartbeatResponse) -> (r: Self)
        ensures
            r.status == Some(response),
            !r.is_loading,
            r.error is None,
    {
        HeartbeatStatus { status: Some(response), is_loading: false, error: None }
    }

    /// The state after a failed report: the last record is kept, marked
    /// `offline`, with the error beside it.
    pub fn failed(self, error: String) -> (r: Self)
        ensures
            match self.status {
                Some(p) => r.status matches Some(q) && q.status@ == "offline"@ && q.first_seen
                    == p.first_seen && q.last_seen == p.last_seen && q.app_version
                    == p.app_version,
                None => r.status is None,
            },
            !r.is_loading,
            r.error == Some(error),
    {
        let status = match self.status {
            Some(p) => Some(
                HeartbeatResponse {
                    status: "offline".to_owned(),
                    first_seen: p.first_seen,
                    last_seen: p.last_seen,
                    app_version: p.app_version,
                },
            ),
            None => None,
        };
        HeartbeatStatus { status, is_loading: false, error: Some(error) }
    }
}

} // verus!
