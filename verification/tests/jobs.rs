use prober_core::config::{
    ClientConfig, Config, ControlHttpProbe, Discv5Target, JsonRpcTarget, ProbesConfig,
    ReportingConfig, RunConfig, TcpTarget,
};
use prober_core::model::{AttemptResult, Meta, ProbeKind};
use prober_core::probes::dns::DnsResolveProbe;
use prober_core::probes::http_control::{HttpControlProbe, HttpOutcome};
use prober_core::probes::tcp::TcpConnectProbe;
use prober_core::probes::{
    build_jobs, build_jobs_for, degraded_run, format_label, run_job, run_jobs, Probe, ProbeFn,
    ProbeJob,
};
use prober_core::run_plan;

fn config(control: bool, tcp: usize, https: usize, wss: usize, discv5: usize) -> Config {
    Config {
        run: RunConfig { attempts: 3, min_successes: 2, timeout_ms: 50, parallelism: 4 },
        client: ClientConfig { location_label: "lab".to_string(), app_channel: "dev".to_string() },
        reporting: ReportingConfig {
            enabled: false,
            report_url: "http://127.0.0.1:9/report".to_string(),
            timeout_ms: 1000,
        },
        probes: ProbesConfig {
            control_http: ControlHttpProbe {
                enabled: control,
                url: "http://example.org/ping".to_string(),
                expect_body: Some("ok".to_string()),
            },
            tcp: (0..tcp)
                .map(|i| TcpTarget {
                    name: format!("t{i}"),
                    host: format!("host{i}.example.org"),
                    port: 30303,
                })
                .collect(),
            https_jsonrpc: (0..https)
                .map(|i| JsonRpcTarget {
                    name: format!("h{i}"),
                    url: format!("https://rpc{i}.example.org"),
                    method: "eth_chainId".to_string(),
                })
                .collect(),
            wss_jsonrpc: (0..wss)
                .map(|i| JsonRpcTarget {
                    name: format!("w{i}"),
                    url: format!("wss://rpc{i}.example.org"),
                    method: "eth_blockNumber".to_string(),
                })
                .collect(),
            discv5_ping: (0..discv5)
                .map(|i| Discv5Target { name: format!("d{i}"), enr: format!("enr:-node{i}") })
                .collect(),
        },
    }
}

/// Answers every probe from a fixed script: the control probe with 200/"ok",
/// everything else with a timeout.
struct Scripted;

impl ProbeFn for Scripted {
    fn run(&self, probe: &Probe, _timeout_ms: u64) -> AttemptResult {
        match probe {
            Probe::HttpControl(p) => {
                p.conclude(HttpOutcome::Response { status: 200, body: "ok".to_string() }, 5)
            }
            Probe::TcpConnect(p) => p.conclude(prober_core::probes::tcp::TcpOutcome::TimedOut, 0),
            _ => AttemptResult {
                ok: false,
                rtt_ms: None,
                error: Some("timeout".to_string()),
                meta: Meta::Empty,
            },
        }
    }
}

#[test]
fn control_and_one_tcp_target_give_three_jobs() {
    let jobs = build_jobs(&config(true, 1, 0, 0, 0));
    let kinds: Vec<ProbeKind> = jobs.iter().map(|j| j.kind).collect();
    assert_eq!(kinds, vec![ProbeKind::HttpControl, ProbeKind::DnsResolve, ProbeKind::TcpConnect]);
    assert_eq!(jobs[0].target_label, "http://example.org/ping");
    assert_eq!(jobs[1].target_label, "host0.example.org (t0)");
    assert_eq!(jobs[2].target_label, "host0.example.org:30303 (t0)");
    assert_eq!(
        jobs[0].run,
        Probe::HttpControl(HttpControlProbe {
            url: "http://example.org/ping".to_string(),
            expect_body: Some("ok".to_string()),
        })
    );
    assert_eq!(
        jobs[1].run,
        Probe::DnsResolve(DnsResolveProbe { host: "host0.example.org".to_string(), port: 30303 })
    );
    assert_eq!(
        jobs[2].run,
        Probe::TcpConnect(TcpConnectProbe { host: "host0.example.org".to_string(), port: 30303 })
    );
}

#[test]
fn disabled_control_gives_no_control_job() {
    let jobs = build_jobs(&config(false, 2, 1, 1, 0));
    assert!(jobs.iter().all(|j| j.kind != ProbeKind::HttpControl));
    assert_eq!(jobs.len(), 6);
}

#[test]
fn empty_configuration_gives_empty_plan() {
    assert!(build_jobs(&config(false, 0, 0, 0, 0)).is_empty());
    assert!(build_jobs_for(&config(false, 0, 0, 0, 3), false).is_empty());
}

#[test]
fn jobs_come_in_construction_order() {
    let jobs = build_jobs_for(&config(true, 2, 1, 2, 1), true);
    let kinds: Vec<ProbeKind> = jobs.iter().map(|j| j.kind).collect();
    assert_eq!(
        kinds,
        vec![
            ProbeKind::HttpControl,
            ProbeKind::DnsResolve,
            ProbeKind::TcpConnect,
            ProbeKind::DnsResolve,
            ProbeKind::TcpConnect,
            ProbeKind::HttpsJsonRpc,
            ProbeKind::WssJsonRpc,
            ProbeKind::WssJsonRpc,
            ProbeKind::Discv5Ping,
        ]
    );
    assert_eq!(jobs[3].target_label, "host1.example.org (t1)");
    assert_eq!(jobs[5].target_label, "https://rpc0.example.org (h0)");
    assert_eq!(jobs[7].target_label, "wss://rpc1.example.org (w1)");
    assert_eq!(jobs[8].target_label, "enr:-node0 (d0)");
    for j in &jobs {
        assert_eq!(j.kind, j.run.kind());
    }
}

#[test]
fn discovery_jobs_only_where_available() {
    let cfg = config(false, 0, 0, 0, 2);
    assert_eq!(build_jobs_for(&cfg, false).len(), 0);
    assert_eq!(build_jobs_for(&cfg, true).len(), 2);
    assert_eq!(build_jobs(&cfg), build_jobs_for(&cfg, true));
}

#[test]
fn label_format() {
    assert_eq!(format_label("a", "b"), "a (b)");
    assert_eq!(format_label("", ""), " ()");
}

#[test]
fn every_job_gets_the_configured_attempts() {
    let cfg = config(true, 2, 1, 1, 0);
    let jobs = build_jobs(&cfg);
    let n = jobs.len();
    let runs = run_jobs(&cfg.run, jobs.clone(), &Scripted);
    assert_eq!(runs.len(), n);
    for (r, j) in runs.iter().zip(jobs.iter()) {
        assert_eq!(r.attempts.len(), 3);
        assert_eq!(r.kind, j.kind);
        assert_eq!(r.target, j.target_label);
        assert_eq!(r.summary.success_count + r.summary.failure_count, 3);
    }
    assert!(runs[0].summary.ok);
    assert_eq!(runs[0].summary.success_count, 3);
    assert_eq!(runs[0].summary.avg_rtt_ms, Some(5));
    assert!(!runs[1].summary.ok);
    assert_eq!(runs[1].summary.failure_count, 3);
    assert_eq!(runs[1].summary.min_rtt_ms, None);
}

#[test]
fn control_probe_scenario_single_attempt() {
    let run_cfg = RunConfig { attempts: 1, min_successes: 1, timeout_ms: 2000, parallelism: 1 };
    let job = ProbeJob {
        kind: ProbeKind::HttpControl,
        target_label: "http://example.org/ping".to_string(),
        run: Probe::HttpControl(HttpControlProbe {
            url: "http://example.org/ping".to_string(),
            expect_body: Some("ok".to_string()),
        }),
    };
    let r = run_job(&run_cfg, &job, &Scripted);
    assert!(r.summary.ok);
    assert_eq!(r.summary.success_count, 1);
    assert_eq!(r.attempts.len(), 1);
    assert_eq!(r.attempts[0].error, None);
}

#[test]
fn zero_attempts_give_an_empty_record() {
    let run_cfg = RunConfig { attempts: 0, min_successes: 0, timeout_ms: 1, parallelism: 1 };
    assert!(!run_cfg.is_valid());
    let jobs = build_jobs(&config(true, 0, 0, 0, 0));
    let r = run_job(&run_cfg, &jobs[0], &Scripted);
    assert!(r.attempts.is_empty());
    assert!(r.summary.ok);
}

#[test]
fn run_config_validity() {
    assert!(RunConfig { attempts: 1, min_successes: 0, timeout_ms: 0, parallelism: 1 }.is_valid());
    assert!(!RunConfig { attempts: 1, min_successes: 0, timeout_ms: 0, parallelism: 0 }.is_valid());
}

#[test]
fn faulted_job_is_kept_as_degraded_record() {
    let cfg = config(false, 1, 0, 0, 0);
    let jobs = build_jobs(&cfg);
    let r = degraded_run(&cfg.run, &jobs[1], "task panicked");
    assert_eq!(r.kind, ProbeKind::TcpConnect);
    assert_eq!(r.target, "host0.example.org:30303 (t0)");
    assert_eq!(r.attempts.len(), 3);
    for a in &r.attempts {
        assert!(!a.ok);
        assert_eq!(a.rtt_ms, None);
        assert_eq!(a.error.as_deref(), Some("internal_error: task panicked"));
    }
    assert_eq!(r.summary.success_count, 0);
    assert_eq!(r.summary.failure_count, 3);
    assert!(!r.summary.ok);
}

#[test]
fn run_plan_assembles_one_report() {
    let cfg = config(true, 1, 0, 0, 0);
    let before = prober_core::model::now_ms();
    let report = run_plan(cfg.clone(), "linux", "x86_64", &Scripted);
    assert_eq!(report.run_id.len(), 36);
    assert_eq!(report.run_id.matches('-').count(), 4);
    assert!(report.started_at_ms >= before);
    assert!(report.finished_at_ms >= report.started_at_ms);
    assert_eq!(report.client.os, "linux");
    assert_eq!(report.client.arch, "x86_64");
    assert_eq!(report.client.location_label, "lab");
    assert_eq!(report.client.app_channel, "dev");
    assert_eq!(report.run, cfg.run);
    assert_eq!(report.results.len(), 3);
    assert_eq!(report.results[0].kind, ProbeKind::HttpControl);
    assert_eq!(report.results[2].kind, ProbeKind::TcpConnect);
    assert_eq!(report.results[2].attempts[0].error.as_deref(), Some("timeout"));
    let other = run_plan(cfg, "linux", "x86_64", &Scripted);
    assert_ne!(other.run_id, report.run_id);
}

#[test]
fn record_keeps_the_attempts_as_they_are() {
    let job = ProbeJob {
        kind: ProbeKind::TcpConnect,
        target_label: "h:1 (n)".to_string(),
        run: Probe::TcpConnect(TcpConnectProbe { host: "h".to_string(), port: 1 }),
    };
    let attempts = vec![
        AttemptResult { ok: true, rtt_ms: Some(4), error: None, meta: Meta::Empty },
        AttemptResult {
            ok: false,
            rtt_ms: Some(9),
            error: Some("tcp_error: reset".to_string()),
            meta: Meta::Empty,
        },
    ];
    let r = prober_core::probes::record_job(&job, attempts.clone(), 2);
    assert_eq!(r.kind, ProbeKind::TcpConnect);
    assert_eq!(r.target, "h:1 (n)");
    assert_eq!(r.attempts, attempts);
    assert_eq!(r.summary.success_count, 1);
    assert_eq!(r.summary.failure_count, 1);
    assert_eq!(r.summary.min_rtt_ms, Some(4));
    assert_eq!(r.summary.avg_rtt_ms, Some(6));
    assert_eq!(r.summary.max_rtt_ms, Some(9));
    assert!(!r.summary.ok);
}
