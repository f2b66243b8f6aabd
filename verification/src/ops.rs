//! Operations endpoints: metrics, public configuration, dead-letter requeue and roles.
use vstd::prelude::*;
use crate::text::{decimal, u64_to_string};

verus! {

/// Prometheus text of the service metrics.
#[derive(Debug, Clone, PartialEq, Eq)]
pub struct MetricsResponse {
    pub metrics_text: String,
}

/// Settings the master SPA reads at start-up; never anything confidential.
#[derive(Debug, Clone, PartialEq, Eq)]
pub struct PublicConfigResponse {
    /// Base URL of the API.
    pub api_base_url: String,
    /// Where the OpenAPI schema is served.
    pub openapi_url: String,
    /// Session timeout in minutes.
    pub session_timeout_min: u64,
    /// Polling interval in milliseconds.
    pub polling_interval_ms: u64,
}

/// Request to requeue a dead-lettered event.
#[derive(Debug, Clone, PartialEq, Eq)]
pub struct RequeueRequest {
    /// Why the event is requeued.
    pub reason: Option<String>,
}

/// Request to replace a user's roles.
#[derive(Debug, Clone, PartialEq, Eq)]
pub struct AssignRolesRequest {
    pub roles: Vec<String>,
}

/// The metrics text for the sizes of the write and read pools.
pub open spec fn spec_metrics_text(write_pool_size: u32, read_pool_size: u32) -> Seq<char> {
    "# HELP wnav_master_api_db_write_pool_size write connection pool size\n# TYPE wnav_master_api_db_write_pool_size gauge\nwnav_master_api_db_write_pool_size "@
        + decimal(write_pool_size as nat)
        + "\n\n# HELP wnav_master_api_db_read_pool_size read connection pool size\n# TYPE wnav_master_api_db_read_pool_size gauge\nwnav_master_api_db_read_pool_size "@
        + decimal(read_pool_size as nat)
        + "\n\n# HELP wnav_master_api_up master API uptime indicator\n# TYPE wnav_master_api_up gauge\nwnav_master_api_up 1\n"@
}

/// Renders the metrics of the service in the Prometheus text format.
pub fn metrics_response(write_pool_size: u32, read_pool_size: u32) -> (res: MetricsResponse)
    ensures
        res.metrics_text@ == spec_metrics_text(write_pool_size, read_pool_size),
{
    let mut t = "# HELP wnav_master_api_db_write_pool_size write connection pool size\n# TYPE wnav_master_api_db_write_pool_size gauge\nwnav_master_api_db_write_pool_size ".to_owned();
    let w = u64_to_string(write_pool_size as u64);
    t.append(w.as_str());
    t.append("\n\n# HELP wnav_master_api_db_read_pool_size read connection pool size\n# TYPE wnav_master_api_db_read_pool_size gauge\nwnav_master_api_db_read_pool_size ");
    let r = u64_to_string(read_pool_size as u64);
    t.append(r.as_str());
    t.append("\n\n# HELP wnav_master_api_up master API uptime indicator\n# TYPE wnav_master_api_up gauge\nwnav_master_api_up 1\n");
    MetricsResponse { metrics_text: t }
}

/// The backup indicator of the system metrics: yellow while dead-lettered events wait,
/// green otherwise.
pub fn backup_status(dlq_count: i64) -> (res: &'static str)
    ensures
        dlq_count > 0 ==> res@ == "yellow"@,
        dlq_count <= 0 ==> res@ == "green"@,
{
    if dlq_count > 0 {
        "yellow"
    } else {
        "green"
    }
}

} // verus!
