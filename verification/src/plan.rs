//! A whole run: plan the jobs, run them, assemble the report.

use crate::config::{ClientConfig, Config, RunConfig};
use crate::model::{now_ms, ClientInfo, ProbeRun, Report};
use crate::probes::{build_jobs, is_run_of, job_views, planned_jobs, run_jobs, ProbeFn};
use vstd::prelude::*;

verus! {

/// A fresh random identifier from `uuid::Uuid::new_v4`, in its hyphenated
/// form. Which identifier comes back is left open; its text is 36
/// characters long.
#[verifier::external_body]
fn fresh_run_id() -> (r: String)
    ensures
        r@.len() == 36,
{
    uuid::Uuid::new_v4().to_string()
}

/// The client descriptor of a run: the platform as given, the labels from
/// the configuration.
pub fn client_info(os: &str, arch: &str, client: &ClientConfig) -> (r: ClientInfo)
    ensures
        r.os@ == os@,
        r.arch@ == arch@,
        r.location_label@ == client.location_label@,
        r.app_channel@ == client.app_channel@,
{
    ClientInfo {
        os: String::from_str(os),
        arch: String::from_str(arch),
        location_label: client.location_label.clone(),
        app_channel: client.app_channel.clone(),
    }
}

/// Combines run metadata, client descriptor, run parameters and the
/// records of all jobs into one report.
pub fn assemble_report(
    run_id: String,
    started_at_ms: u128,
    finished_at_ms: u128,
    client: ClientInfo,
    run: RunConfig,
    results: Vec<ProbeRun>,
) -> (r: Report)
    ensures
        r.run_id == run_id,
        r.started_at_ms == started_at_ms,
        r.finished_at_ms == finished_at_ms,
        r.client == client,
        r.run == run,
        r.results == results,
{
    Report { run_id, started_at_ms, finished_at_ms, client, run, results }
}

/// What holds of the report of a run of `cfg` on the platform `os`/`arch`:
/// it echoes the run parameters and the client labels, and holds one record
/// per planned job, in plan order, each with exactly `cfg.run.attempts`
/// attempts and their summary.
pub open spec fn reports_run(r: Report, cfg: Config, os: Seq<char>, arch: Seq<char>) -> bool {
    &&& r.run == cfg.run
    &&& r.client.os@ == os
    &&& r.client.arch@ == arch
    &&& r.client.location_label@ == cfg.client.location_label@
    &&& r.client.app_channel@ == cfg.client.app_channel@
    &&& r.results@.len() == planned_jobs(cfg, true).len()
    &&& forall|i: int|
        0 <= i < r.results@.len() ==> {
            &&& (#[trigger] r.results@[i]).kind == planned_jobs(cfg, true)[i].kind
            &&& r.results@[i].target@ == planned_jobs(cfg, true)[i].target_label
            &&& r.results@[i].attempts@.len() == cfg.run.attempts
            &&& r.results@[i].summary == crate::model::summary_of(
                r.results@[i].attempts@,
                cfg.run.min_successes,
            )
        }
}

/// Runs the plan of `cfg` with `prober` and returns its report. The clock
/// is read immediately before the jobs are planned and immediately after
/// the last job has finished; the identifier is fresh. Failures of probes
/// are recorded in the report and never fail the run.
pub fn run_plan<P: ProbeFn>(cfg: Config, os: &str, arch: &str, prober: &P) -> (r: Report)
    ensures
        reports_run(r, cfg, os@, arch@),
        r.run_id@.len() == 36,
{
    let started_at_ms = now_ms();
    let run_id = fresh_run_id();
    let client = client_info(os, arch, &cfg.client);
    let jobs = build_jobs(&cfg);
    let ghost planned = job_views(jobs@);
    let ghost job_seq = jobs@;
    let results = run_jobs(&cfg.run, jobs, prober);
    let finished_at_ms = now_ms();
    proof {
        assert forall|i: int| 0 <= i < results@.len() implies {
            &&& (#[trigger] results@[i]).kind == planned[i].kind
            &&& results@[i].target@ == planned[i].target_label
        } by {
            assert(is_run_of(results@[i], job_seq[i], cfg.run));
            assert(planned[i] == job_seq[i]@);
        }
    }
    assemble_report(run_id, started_at_ms, finished_at_ms, client, cfg.run, results)
}

} // verus!
