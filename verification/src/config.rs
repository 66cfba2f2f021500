//! The validated configuration that a run consumes.

use vstd::prelude::*;

verus! {

/// Parameters of one run, echoed verbatim into the report.
#[derive(Debug, Clone, Copy, PartialEq, Eq)]
pub struct RunConfig {
    /// Attempts made per job.
    pub attempts: u32,
    /// Successes a job needs to count as ok.
    pub min_successes: u32,
    /// Deadline of a single attempt, in milliseconds.
    pub timeout_ms: u64,
    /// Ceiling on concurrently running jobs.
    pub parallelism: usize,
}

#[derive(Debug, Clone, PartialEq, Eq)]
pub struct ClientConfig {
    pub location_label: String,
    pub app_channel: String,
}

#[derive(Debug, Clone, PartialEq, Eq)]
pub struct ReportingConfig {
    pub enabled: bool,
    pub report_url: String,
    pub timeout_ms: u64,
}

#[derive(Debug, Clone, PartialEq, Eq)]
pub struct ControlHttpProbe {
    pub enabled: bool,
    pub url: String,
    pub expect_body: Option<String>,
}

#[derive(Debug, Clone, PartialEq, Eq)]
pub struct TcpTarget {
    pub name: String,
    pub host: String,
    pub port: u16,
}

#[derive(Debug, Clone, PartialEq, Eq)]
pub struct JsonRpcTarget {
    pub name: String,
    pub url: String,
    pub method: String,
}

#[derive(Debug, Clone, PartialEq, Eq)]
pub struct Discv5Target {
    pub name: String,
    pub enr: String,
}

#[derive(Debug, Clone, PartialEq, Eq)]
pub struct ProbesConfig {
    pub control_http: ControlHttpProbe,
    pub tcp: Vec<TcpTarget>,
    pub https_jsonrpc: Vec<JsonRpcTarget>,
    pub wss_jsonrpc: Vec<JsonRpcTarget>,
    pub discv5_ping: Vec<Discv5Target>,
}

#[derive(Debug, Clone, PartialEq, Eq)]
pub struct Config {
    pub run: RunConfig,
    pub client: ClientConfig,
    pub reporting: ReportingConfig,
    pub probes: ProbesConfig,
}

impl RunConfig {
    /// A run makes at least one attempt per job and admits at least one job
    /// at a time.
    pub open spec fn valid(&self) -> bool {
        self.attempts >= 1 && self.parallelism >= 1
    }

    /// Whether these parameters describe a run that can make progress.
    pub fn is_valid(&self) -> (r: bool)
        ensures
            r == self.valid(),
    {
        self.attempts >= 1 && self.parallelism >= 1
    }
}

} // verus!
