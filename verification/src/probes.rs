//! Probe capabilities, job planning and the execution of jobs.

use crate::config::{Config, ControlHttpProbe, Discv5Target, JsonRpcTarget, RunConfig, TcpTarget};
use crate::model::{count_ok, summarize_attempts, summary_of, AttemptResult, ProbeKind, ProbeRun};
use crate::probes::discv5_ping::Discv5PingProbe;
use crate::probes::dns::{failed_with, failure_attempt, format_address, socket_address, DnsResolveProbe};
use crate::probes::http_control::HttpControlProbe;
use crate::probes::https_jsonrpc::HttpsJsonRpcProbe;
use crate::probes::tcp::TcpConnectProbe;
use crate::probes::wss_jsonrpc::WssJsonRpcProbe;
use vstd::prelude::*;
use vstd::string::StringExecFns;

pub mod discv5_ping;
pub mod dns;
pub mod http_control;
pub mod https_jsonrpc;
pub mod tcp;
pub mod wss_jsonrpc;

verus! {

/// The closed set of probe capabilities, one per protocol.
#[derive(Debug, Clone, PartialEq, Eq)]
pub enum Probe {
    DnsResolve(DnsResolveProbe),
    TcpConnect(TcpConnectProbe),
    HttpControl(HttpControlProbe),
    HttpsJsonRpc(HttpsJsonRpcProbe),
    WssJsonRpc(WssJsonRpcProbe),
    Discv5Ping(Discv5PingProbe),
}

/// The mathematical value of a [`Probe`].
pub ghost enum ProbeView {
    DnsResolve { host: Seq<char>, port: u16 },
    TcpConnect { host: Seq<char>, port: u16 },
    HttpControl { url: Seq<char>, expect_body: Option<Seq<char>> },
    HttpsJsonRpc { url: Seq<char>, method: Seq<char> },
    WssJsonRpc { url: Seq<char>, method: Seq<char> },
    Discv5Ping { enr: Seq<char> },
}

impl View for Probe {
    type V = ProbeView;

    open spec fn view(&self) -> ProbeView {
        match *self {
            Probe::DnsResolve(p) => ProbeView::DnsResolve { host: p.host@, port: p.port },
            Probe::TcpConnect(p) => ProbeView::TcpConnect { host: p.host@, port: p.port },
            Probe::HttpControl(p) => ProbeView::HttpControl {
                url: p.url@,
                expect_body: match p.expect_body {
                    Some(b) => Some(b@),
                    None => None,
                },
            },
            Probe::HttpsJsonRpc(p) => ProbeView::HttpsJsonRpc { url: p.url@, method: p.method@ },
            Probe::WssJsonRpc(p) => ProbeView::WssJsonRpc { url: p.url@, method: p.method@ },
            Probe::Discv5Ping(p) => ProbeView::Discv5Ping { enr: p.enr@ },
        }
    }
}

impl Probe {
    /// The kind under which this capability is reported.
    pub open spec fn spec_kind(&self) -> ProbeKind {
        match *self {
            Probe::DnsResolve(_) => ProbeKind::DnsResolve,
            Probe::TcpConnect(_) => ProbeKind::TcpConnect,
            Probe::HttpControl(_) => ProbeKind::HttpControl,
            Probe::HttpsJsonRpc(_) => ProbeKind::HttpsJsonRpc,
            Probe::WssJsonRpc(_) => ProbeKind::WssJsonRpc,
            Probe::Discv5Ping(_) => ProbeKind::Discv5Ping,
        }
    }

    /// The kind under which this capability is reported.
    #[verifier::when_used_as_spec(spec_kind)]
    pub fn kind(&self) -> (k: ProbeKind)
        ensures
            k == self.spec_kind(),
    {
        match self {
            Probe::DnsResolve(_) => ProbeKind::DnsResolve,
            Probe::TcpConnect(_) => ProbeKind::TcpConnect,
            Probe::HttpControl(_) => ProbeKind::HttpControl,
            Probe::HttpsJsonRpc(_) => ProbeKind::HttpsJsonRpc,
            Probe::WssJsonRpc(_) => ProbeKind::WssJsonRpc,
            Probe::Discv5Ping(_) => ProbeKind::Discv5Ping,
        }
    }
}

/// One unit of work: what to probe, under which kind and label.
#[derive(Debug, Clone, PartialEq, Eq)]
pub struct ProbeJob {
    pub kind: ProbeKind,
    /// Human-readable; stable, never parsed back.
    pub target_label: String,
    pub run: Probe,
}

/// The mathematical value of a [`ProbeJob`].
pub ghost struct JobView {
    pub kind: ProbeKind,
    pub target_label: Seq<char>,
    pub run: ProbeView,
}

impl View for ProbeJob {
    type V = JobView;

    open spec fn view(&self) -> JobView {
        JobView { kind: self.kind, target_label: self.target_label@, run: self.run@ }
    }
}

/// The capability interface: whoever carries out probes implements it.
pub trait ProbeFn {
    /// Performs exactly one attempt of `probe`, bounded by `timeout_ms`,
    /// and always completes with a value.
    fn run(&self, probe: &Probe, timeout_ms: u64) -> AttemptResult;
}

/// `what (name)`.
pub open spec fn labelled(what: Seq<char>, name: Seq<char>) -> Seq<char> {
    what + " ("@ + name + ")"@
}

/// Renders `what (name)`.
pub fn format_label(what: &str, name: &str) -> (r: String)
    ensures
        r@ == labelled(what@, name@),
{
    let mut s = String::from_str(what);
    s.append(" (");
    s.append(name);
    s.append(")");
    s
}

/// The job of the control HTTP probe, labelled by its URL.
pub open spec fn control_job(c: ControlHttpProbe) -> JobView {
    JobView {
        kind: ProbeKind::HttpControl,
        target_label: c.url@,
        run: ProbeView::HttpControl {
            url: c.url@,
            expect_body: match c.expect_body {
                Some(b) => Some(b@),
                None => None,
            },
        },
    }
}

/// The resolution job of a TCP target.
pub open spec fn dns_job(t: TcpTarget) -> JobView {
    JobView {
        kind: ProbeKind::DnsResolve,
        target_label: labelled(t.host@, t.name@),
        run: ProbeView::DnsResolve { host: t.host@, port: t.port },
    }
}

/// The connect job of a TCP target.
pub open spec fn tcp_job(t: TcpTarget) -> JobView {
    JobView {
        kind: ProbeKind::TcpConnect,
        target_label: labelled(socket_address(t.host@, t.port), t.name@),
        run: ProbeView::TcpConnect { host: t.host@, port: t.port },
    }
}

/// The job of a JSON-RPC target over HTTPS.
pub open spec fn https_job(t: JsonRpcTarget) -> JobView {
    JobView {
        kind: ProbeKind::HttpsJsonRpc,
        target_label: labelled(t.url@, t.name@),
        run: ProbeView::HttpsJsonRpc { url: t.url@, method: t.method@ },
    }
}

/// The job of a JSON-RPC target over a websocket.
pub open spec fn wss_job(t: JsonRpcTarget) -> JobView {
    JobView {
        kind: ProbeKind::WssJsonRpc,
        target_label: labelled(t.url@, t.name@),
        run: ProbeView::WssJsonRpc { url: t.url@, method: t.method@ },
    }
}

/// The job of a discovery-ping target.
pub open spec fn discv5_job(t: Discv5Target) -> JobView {
    JobView {
        kind: ProbeKind::Discv5Ping,
        target_label: labelled(t.enr@, t.name@),
        run: ProbeView::Discv5Ping { enr: t.enr@ },
    }
}

/// One job if the control probe is enabled, none otherwise.
pub open spec fn control_jobs(c: ControlHttpProbe) -> Seq<JobView> {
    if c.enabled {
        seq![control_job(c)]
    } else {
        Seq::empty()
    }
}

/// For each TCP target in turn, its resolution job and then its connect job.
pub open spec fn tcp_jobs(ts: Seq<TcpTarget>) -> Seq<JobView> {
    Seq::new(
        2 * ts.len(),
        |i: int|
            if i % 2 == 0 {
                dns_job(ts[i / 2])
            } else {
                tcp_job(ts[i / 2])
            },
    )
}

/// One job per JSON-RPC target over HTTPS, in order.
pub open spec fn https_jobs(ts: Seq<JsonRpcTarget>) -> Seq<JobView> {
    Seq::new(ts.len(), |i: int| https_job(ts[i]))
}

/// One job per JSON-RPC target over a websocket, in order.
pub open spec fn wss_jobs(ts: Seq<JsonRpcTarget>) -> Seq<JobView> {
    Seq::new(ts.len(), |i: int| wss_job(ts[i]))
}

/// One job per discovery-ping target, in order.
pub open spec fn discv5_jobs(ts: Seq<Discv5Target>) -> Seq<JobView> {
    Seq::new(ts.len(), |i: int| discv5_job(ts[i]))
}

/// The jobs of a configuration, in construction order: the control probe,
/// the TCP targets, the HTTPS targets, the websocket targets and, where
/// discovery is available, the discovery targets.
pub open spec fn planned_jobs(cfg: Config, discovery: bool) -> Seq<JobView> {
    control_jobs(cfg.probes.control_http) + tcp_jobs(cfg.probes.tcp@) + https_jobs(
        cfg.probes.https_jsonrpc@,
    ) + wss_jobs(cfg.probes.wss_jsonrpc@) + if discovery {
        discv5_jobs(cfg.probes.discv5_ping@)
    } else {
        Seq::empty()
    }
}

/// The values of a list of jobs.
pub open spec fn job_views(jobs: Seq<ProbeJob>) -> Seq<JobView> {
    Seq::new(jobs.len(), |i: int| jobs[i]@)
}

fn push_control_jobs(jobs: &mut Vec<ProbeJob>, c: &ControlHttpProbe)
    ensures
        job_views(final(jobs)@) == job_views(old(jobs)@) + control_jobs(*c),
{
    if c.enabled {
        jobs.push(
            ProbeJob {
                kind: ProbeKind::HttpControl,
                target_label: c.url.clone(),
                run: Probe::HttpControl(
                    HttpControlProbe { url: c.url.clone(), expect_body: c.expect_body.clone() },
                ),
            },
        );
    }
    assert(job_views(jobs@) =~= job_views(old(jobs)@) + control_jobs(*c));
}

fn push_tcp_jobs(jobs: &mut Vec<ProbeJob>, ts: &Vec<TcpTarget>)
    ensures
        job_views(final(jobs)@) == job_views(old(jobs)@) + tcp_jobs(ts@),
{
    let ghost n0 = jobs@.len() as int;
    let mut k: usize = 0;
    while k < ts.len()
        invariant
            k <= ts@.len(),
            jobs@.len() == n0 + 2 * k,
            n0 == old(jobs)@.len(),
            forall|i: int| 0 <= i < n0 ==> (#[trigger] jobs@[i])@ == old(jobs)@[i]@,
            forall|i: int| n0 <= i < n0 + 2 * k ==> (#[trigger] jobs@[i])@ == tcp_jobs(ts@)[i - n0],
        decreases ts@.len() - k,
    {
        let t = &ts[k];
        let address = format_address(t.host.as_str(), t.port);
        jobs.push(
            ProbeJob {
                kind: ProbeKind::DnsResolve,
                target_label: format_label(t.host.as_str(), t.name.as_str()),
                run: Probe::DnsResolve(DnsResolveProbe { host: t.host.clone(), port: t.port }),
            },
        );
        jobs.push(
            ProbeJob {
                kind: ProbeKind::TcpConnect,
                target_label: format_label(address.as_str(), t.name.as_str()),
                run: Probe::TcpConnect(TcpConnectProbe { host: t.host.clone(), port: t.port }),
            },
        );
        k = k + 1;
    }
    assert(job_views(jobs@) =~= job_views(old(jobs)@) + tcp_jobs(ts@));
}

fn push_https_jobs(jobs: &mut Vec<ProbeJob>, ts: &Vec<JsonRpcTarget>)
    ensures
        job_views(final(jobs)@) == job_views(old(jobs)@) + https_jobs(ts@),
{
    let ghost n0 = jobs@.len() as int;
    let mut k: usize = 0;
    while k < ts.len()
        invariant
            k <= ts@.len(),
            jobs@.len() == n0 + k,
            n0 == old(jobs)@.len(),
            forall|i: int| 0 <= i < n0 ==> (#[trigger] jobs@[i])@ == old(jobs)@[i]@,
            forall|i: int| n0 <= i < n0 + k ==> (#[trigger] jobs@[i])@ == https_job(ts@[i - n0]),
        decreases ts@.len() - k,
    {
        let t = &ts[k];
        jobs.push(
            ProbeJob {
                kind: ProbeKind::HttpsJsonRpc,
                target_label: format_label(t.url.as_str(), t.name.as_str()),
                run: Probe::HttpsJsonRpc(
                    HttpsJsonRpcProbe { url: t.url.clone(), method: t.method.clone() },
                ),
            },
        );
        k = k + 1;
    }
    assert(job_views(jobs@) =~= job_views(old(jobs)@) + https_jobs(ts@));
}

fn push_wss_jobs(jobs: &mut Vec<ProbeJob>, ts: &Vec<JsonRpcTarget>)
    ensures
        job_views(final(jobs)@) == job_views(old(jobs)@) + wss_jobs(ts@),
{
    let ghost n0 = jobs@.len() as int;
    let mut k: usize = 0;
    while k < ts.len()
        invariant
            k <= ts@.len(),
            jobs@.len() == n0 + k,
            n0 == old(jobs)@.len(),
            forall|i: int| 0 <= i < n0 ==> (#[trigger] jobs@[i])@ == old(jobs)@[i]@,
            forall|i: int| n0 <= i < n0 + k ==> (#[trigger] jobs@[i])@ == wss_job(ts@[i - n0]),
        decreases ts@.len() - k,
    {
        let t = &ts[k];
        jobs.push(
            ProbeJob {
                kind: ProbeKind::WssJsonRpc,
                target_label: format_label(t.url.as_str(), t.name.as_str()),
                run: Probe::WssJsonRpc(
                    WssJsonRpcProbe { url: t.url.clone(), method: t.method.clone() },
                ),
            },
        );
        k = k + 1;
    }
    assert(job_views(jobs@) =~= job_views(old(jobs)@) + wss_jobs(ts@));
}

fn push_discv5_jobs(jobs: &mut Vec<ProbeJob>, ts: &Vec<Discv5Target>)
    ensures
        job_views(final(jobs)@) == job_views(old(jobs)@) + discv5_jobs(ts@),
{
    let ghost n0 = jobs@.len() as int;
    let mut k: usize = 0;
    while k < ts.len()
        invariant
            k <= ts@.len(),
            jobs@.len() == n0 + k,
            n0 == old(jobs)@.len(),
            forall|i: int| 0 <= i < n0 ==> (#[trigger] jobs@[i])@ == old(jobs)@[i]@,
            forall|i: int| n0 <= i < n0 + k ==> (#[trigger] jobs@[i])@ == discv5_job(ts@[i - n0]),
        decreases ts@.len() - k,
    {
        let t = &ts[k];
        jobs.push(
            ProbeJob {
                kind: ProbeKind::Discv5Ping,
                target_label: format_label(t.enr.as_str(), t.name.as_str()),
                run: Probe::Discv5Ping(Discv5PingProbe { enr: t.enr.clone() }),
            },
        );
        k = k + 1;
    }
    assert(job_views(jobs@) =~= job_views(old(jobs)@) + discv5_jobs(ts@));
}

/// Plans the jobs of a configuration; `discovery` says whether the
/// discovery-ping capability is available. No network activity, no failure:
/// an empty list is a valid plan.
pub fn build_jobs_for(cfg: &Config, discovery: bool) -> (jobs: Vec<ProbeJob>)
    ensures
        job_views(jobs@) == planned_jobs(*cfg, discovery),
{
    let mut jobs: Vec<ProbeJob> = Vec::new();
    assert(job_views(jobs@) =~= Seq::empty());
    push_control_jobs(&mut jobs, &cfg.probes.control_http);
    push_tcp_jobs(&mut jobs, &cfg.probes.tcp);
    push_https_jobs(&mut jobs, &cfg.probes.https_jsonrpc);
    push_wss_jobs(&mut jobs, &cfg.probes.wss_jsonrpc);
    if discovery {
        push_discv5_jobs(&mut jobs, &cfg.probes.discv5_ping);
    }
    assert(job_views(jobs@) =~= planned_jobs(*cfg, discovery));
    jobs
}

/// Plans the jobs of a configuration, discovery pings included.
pub fn build_jobs(cfg: &Config) -> (jobs: Vec<ProbeJob>)
    ensures
        job_views(jobs@) == planned_jobs(*cfg, true),
{
    build_jobs_for(cfg, true)
}

/// The kind under which a capability is reported.
pub open spec fn kind_of(p: ProbeView) -> ProbeKind {
    match p {
        ProbeView::DnsResolve { .. } => ProbeKind::DnsResolve,
        ProbeView::TcpConnect { .. } => ProbeKind::TcpConnect,
        ProbeView::HttpControl { .. } => ProbeKind::HttpControl,
        ProbeView::HttpsJsonRpc { .. } => ProbeKind::HttpsJsonRpc,
        ProbeView::WssJsonRpc { .. } => ProbeKind::WssJsonRpc,
        ProbeView::Discv5Ping { .. } => ProbeKind::Discv5Ping,
    }
}

/// Every planned job carries the kind of its capability.
pub proof fn lemma_planned_kinds_match(cfg: Config, discovery: bool)
    ensures
        forall|i: int|
            0 <= i < planned_jobs(cfg, discovery).len() ==> (#[trigger] planned_jobs(
                cfg,
                discovery,
            )[i]).kind == kind_of(planned_jobs(cfg, discovery)[i].run),
{
}

/// A plan holds one job for an enabled control probe, two per TCP target
/// and one per JSON-RPC target, plus one per discovery target where
/// discovery is available.
pub proof fn lemma_plan_length(cfg: Config, discovery: bool)
    ensures
        planned_jobs(cfg, discovery).len() == (if cfg.probes.control_http.enabled {
            1int
        } else {
            0int
        }) + 2 * cfg.probes.tcp@.len() + cfg.probes.https_jsonrpc@.len()
            + cfg.probes.wss_jsonrpc@.len() + (if discovery {
            cfg.probes.discv5_ping@.len() as int
        } else {
            0int
        }),
{
}

/// A disabled control probe contributes no job: no planned job is of the
/// control kind.
pub proof fn lemma_disabled_control_yields_none(cfg: Config, discovery: bool)
    requires
        !cfg.probes.control_http.enabled,
    ensures
        forall|i: int|
            0 <= i < planned_jobs(cfg, discovery).len() ==> (#[trigger] planned_jobs(
                cfg,
                discovery,
            )[i]).kind != ProbeKind::HttpControl,
{
}

/// An enabled control probe comes first, and each TCP target's resolution
/// job stands directly before its connect job.
pub proof fn lemma_plan_order(cfg: Config, discovery: bool, t: int)
    requires
        cfg.probes.control_http.enabled,
        0 <= t < cfg.probes.tcp@.len(),
    ensures
        planned_jobs(cfg, discovery)[0] == control_job(cfg.probes.control_http),
        planned_jobs(cfg, discovery)[1 + 2 * t] == dns_job(cfg.probes.tcp@[t]),
        planned_jobs(cfg, discovery)[2 + 2 * t] == tcp_job(cfg.probes.tcp@[t]),
{
}

/// A configuration with an enabled control probe, one TCP target and
/// nothing else plans exactly three jobs: the control probe, the target's
/// resolution, the target's connect.
pub proof fn lemma_control_and_one_tcp_target(cfg: Config, discovery: bool)
    requires
        cfg.probes.control_http.enabled,
        cfg.probes.tcp@.len() == 1,
        cfg.probes.https_jsonrpc@.len() == 0,
        cfg.probes.wss_jsonrpc@.len() == 0,
        cfg.probes.discv5_ping@.len() == 0,
    ensures
        planned_jobs(cfg, discovery) == seq![
            control_job(cfg.probes.control_http),
            dns_job(cfg.probes.tcp@[0]),
            tcp_job(cfg.probes.tcp@[0]),
        ],
        planned_jobs(cfg, discovery)[0].kind == ProbeKind::HttpControl,
        planned_jobs(cfg, discovery)[1].kind == ProbeKind::DnsResolve,
        planned_jobs(cfg, discovery)[2].kind == ProbeKind::TcpConnect,
{
    assert(planned_jobs(cfg, discovery) =~= seq![
        control_job(cfg.probes.control_http),
        dns_job(cfg.probes.tcp@[0]),
        tcp_job(cfg.probes.tcp@[0]),
    ]);
}

/// What holds of the record of a job run under `cfg`: it carries the job's
/// kind and label, exactly `cfg.attempts` attempts, and their summary.
pub open spec fn is_run_of(r: ProbeRun, job: ProbeJob, cfg: RunConfig) -> bool {
    &&& r.kind == job.kind
    &&& r.target@ == job.target_label@
    &&& r.attempts@.len() == cfg.attempts
    &&& r.summary == summary_of(r.attempts@, cfg.min_successes)
}

/// The record of a job whose attempts have been made: the job's kind and
/// label, the attempts as they are, and their summary.
pub fn record_job(job: &ProbeJob, attempts: Vec<AttemptResult>, min_successes: u32) -> (r:
    ProbeRun)
    requires
        attempts@.len() <= u32::MAX,
    ensures
        r.kind == job.kind,
        r.target@ == job.target_label@,
        r.attempts == attempts,
        r.summary == summary_of(attempts@, min_successes),
{
    let summary = summarize_attempts(attempts.as_slice(), min_successes);
    ProbeRun { kind: job.kind, target: job.target_label.clone(), attempts, summary }
}

/// Runs one job: `attempts` attempts, one after the other, none skipped
/// after an early success, each bounded by `timeout_ms`; then the summary.
pub fn run_job<P: ProbeFn>(run_cfg: &RunConfig, job: &ProbeJob, prober: &P) -> (r: ProbeRun)
    ensures
        is_run_of(r, *job, *run_cfg),
{
    let mut attempts: Vec<AttemptResult> = Vec::new();
    let mut i: u32 = 0;
    while i < run_cfg.attempts
        invariant
            i <= run_cfg.attempts,
            attempts@.len() == i,
        decreases run_cfg.attempts - i,
    {
        let a = prober.run(&job.run, run_cfg.timeout_ms);
        attempts.push(a);
        i = i + 1;
    }
    record_job(job, attempts, run_cfg.min_successes)
}

/// No attempt of these succeeded.
pub open spec fn all_failed(a: Seq<AttemptResult>) -> bool {
    forall|i: int| 0 <= i < a.len() ==> !(#[trigger] a[i]).ok
}

/// Where every attempt failed, none is counted as a success.
pub proof fn lemma_all_failed_counts_none(a: Seq<AttemptResult>)
    requires
        all_failed(a),
    ensures
        count_ok(a) == 0,
    decreases a.len(),
{
    if a.len() > 0 {
        assert(!a[a.len() - 1].ok);
        assert forall|i: int| 0 <= i < a.drop_last().len() implies !(#[trigger] a.drop_last()[i]).ok by {
            assert(a.drop_last()[i] == a[i]);
        }
        lemma_all_failed_counts_none(a.drop_last());
    }
}

/// The record of a job whose execution unit failed internally: it is kept,
/// with every attempt marked failed under the internal-error category, no
/// time measured, and the summary of those attempts.
pub fn degraded_run(run_cfg: &RunConfig, job: &ProbeJob, reason: &str) -> (r: ProbeRun)
    ensures
        is_run_of(r, *job, *run_cfg),
        forall|i: int|
            0 <= i < r.attempts@.len() ==> (#[trigger] r.attempts@[i])@ == failed_with(
                None,
                "internal_error: "@,
                reason@,
            ),
        r.summary.success_count == 0,
        r.summary.failure_count == run_cfg.attempts,
{
    let mut attempts: Vec<AttemptResult> = Vec::new();
    let mut i: u32 = 0;
    while i < run_cfg.attempts
        invariant
            i <= run_cfg.attempts,
            attempts@.len() == i,
            forall|j: int|
                0 <= j < attempts@.len() ==> (#[trigger] attempts@[j])@ == failed_with(
                    None,
                    "internal_error: "@,
                    reason@,
                ),
        decreases run_cfg.attempts - i,
    {
        attempts.push(failure_attempt(None, "internal_error: ", reason));
        i = i + 1;
    }
    proof {
        assert forall|j: int| 0 <= j < attempts@.len() implies !(#[trigger] attempts@[j]).ok by {
            assert(attempts@[j]@.ok == attempts@[j].ok);
        }
        lemma_all_failed_counts_none(attempts@);
    }
    record_job(job, attempts, run_cfg.min_successes)
}

/// Runs every job, one at a time and in order, and returns one record per
/// job. Running one job at a time respects any concurrency ceiling; a caller
/// with a scheduler of its own runs [`run_job`] per job instead.
pub fn run_jobs<P: ProbeFn>(run_cfg: &RunConfig, jobs: Vec<ProbeJob>, prober: &P) -> (out: Vec<
    ProbeRun,
>)
    ensures
        out@.len() == jobs@.len(),
        forall|i: int| 0 <= i < out@.len() ==> is_run_of(#[trigger] out@[i], jobs@[i], *run_cfg),
{
    let mut out: Vec<ProbeRun> = Vec::new();
    let mut k: usize = 0;
    while k < jobs.len()
        invariant
            k <= jobs@.len(),
            out@.len() == k,
            forall|i: int| 0 <= i < out@.len() ==> is_run_of(#[trigger] out@[i], jobs@[i], *run_cfg),
        decreases jobs@.len() - k,
    {
        let r = run_job(run_cfg, &jobs[k], prober);
        out.push(r);
        k = k + 1;
    }
    out
}

} // verus!
