//! Health reports of the service and its database pools.
use vstd::prelude::*;
use crate::text::str_eq;

verus! {

/// State of one component.
#[derive(Debug, Clone, PartialEq, Eq)]
pub struct ComponentStatus {
    /// `ok`, `error` or `unknown`.
    pub status: String,
    /// What failed, for an `error`.
    pub error: Option<String>,
    /// Round-trip time in milliseconds, for an `ok` probe.
    pub latency_ms: Option<u128>,
}

/// The components a health report covers.
#[derive(Debug, Clone, PartialEq, Eq)]
pub struct HealthComponents {
    /// The write pool.
    pub write_db: ComponentStatus,
    /// The read pool.
    pub read_db: ComponentStatus,
    /// The JWT key store.
    pub jwt_keys: ComponentStatus,
}

/// A health report.
#[derive(Debug, Clone, PartialEq, Eq)]
pub struct HealthResponse {
    /// `ok` or `degraded`.
    pub status: String,
    /// Name of the service.
    pub service: String,
    /// Version of the service.
    pub version: String,
    /// The components.
    pub components: HealthComponents,
    /// When the report was made (RFC 3339).
    pub timestamp: String,
}

/// The service name in health reports.
pub open spec fn service_name() -> Seq<char> {
    "wnav_master_api"@
}

impl ComponentStatus {
    /// The state of a pool from a probe: `ok` with its latency when the probe answered,
    /// `error` with a fixed message when it failed.
    pub fn from_probe(latency_ms: Option<u128>) -> (res: Self)
        ensures
            latency_ms is Some ==> (res.status@ == "ok"@ && res.error is None && res.latency_ms
                == latency_ms),
            latency_ms is None ==> (res.status@ == "error"@ && res.latency_ms is None && (res.error matches Some(e) && e@ == "DB connection failed"@)),
    {
        match latency_ms {
            Some(l) => ComponentStatus { status: "ok".to_owned(), error: None, latency_ms: Some(l) },
            None => ComponentStatus {
                status: "error".to_owned(),
                error: Some("DB connection failed".to_owned()),
                latency_ms: None,
            },
        }
    }

    /// A component that is fine without a probe.
    pub fn ok() -> (res: Self)
        ensures
            res.status@ == "ok"@,
            res.error is None,
            res.latency_ms is None,
    {
        ComponentStatus { status: "ok".to_owned(), error: None, latency_ms: None }
    }

    /// A component that was not probed.
    pub fn unknown() -> (res: Self)
        ensures
            res.status@ == "unknown"@,
            res.error is None,
            res.latency_ms is None,
    {
        ComponentStatus { status: "unknown".to_owned(), error: None, latency_ms: None }
    }
}

/// The lightweight liveness report: the service answers; the pools are not probed.
pub fn liveness_report(version: &str, timestamp: String) -> (res: HealthResponse)
    ensures
        res.status@ == "ok"@,
        res.service@ == service_name(),
        res.version@ == version@,
        res.timestamp == timestamp,
        res.components.write_db.status@ == "unknown"@,
        res.components.read_db.status@ == "unknown"@,
        res.components.jwt_keys.status@ == "ok"@,
        res.components.write_db.error is None && res.components.write_db.latency_ms is None,
        res.components.read_db.error is None && res.components.read_db.latency_ms is None,
        res.components.jwt_keys.error is None && res.components.jwt_keys.latency_ms is None,
{
    HealthResponse {
        status: "ok".to_owned(),
        service: "wnav_master_api".to_owned(),
        version: version.to_owned(),
        components: HealthComponents {
            write_db: ComponentStatus::unknown(),
            read_db: ComponentStatus::unknown(),
            jwt_keys: ComponentStatus::ok(),
        },
        timestamp,
    }
}

/// The detailed report from the probes of both pools, and its HTTP status: `ok` and 200
/// when both pools are ok, `degraded` and 503 otherwise.
pub fn readiness_report(
    version: &str,
    timestamp: String,
    write_db: ComponentStatus,
    read_db: ComponentStatus,
) -> (res: (HealthResponse, u16))
    ensures
        ({
            let all_ok = write_db.status@ == "ok"@ && read_db.status@ == "ok"@;
            &&& all_ok ==> (res.0.status@ == "ok"@ && res.1 == 200)
            &&& !all_ok ==> (res.0.status@ == "degraded"@ && res.1 == 503)
        }),
        res.0.service@ == service_name(),
        res.0.version@ == version@,
        res.0.timestamp == timestamp,
        res.0.components.write_db == write_db,
        res.0.components.read_db == read_db,
        res.0.components.jwt_keys.status@ == "ok"@,
        res.0.components.jwt_keys.error is None && res.0.components.jwt_keys.latency_ms is None,
{
    let all_ok = str_eq(write_db.status.as_str(), "ok") && str_eq(read_db.status.as_str(), "ok");
    let status = if all_ok { "ok".to_owned() } else { "degraded".to_owned() };
    let http: u16 = if all_ok { 200 } else { 503 };
    let report = HealthResponse {
        status,
        service: "wnav_master_api".to_owned(),
        version: version.to_owned(),
        components: HealthComponents { write_db, read_db, jwt_keys: ComponentStatus::ok() },
        timestamp,
    };
    (report, http)
}

} // verus!
