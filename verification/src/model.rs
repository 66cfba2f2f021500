//! The data a run produces, and the pure aggregation of a job's attempts.

use crate::config::RunConfig;
use vstd::arithmetic::div_mod::{lemma_div_is_ordered, lemma_div_multiples_vanish, lemma_hoist_over_denominator};
use vstd::prelude::*;

verus! {

/// The six kinds of probe.
#[derive(Debug, Clone, Copy, PartialEq, Eq, Structural)]
pub enum ProbeKind {
    DnsResolve,
    TcpConnect,
    HttpControl,
    HttpsJsonRpc,
    WssJsonRpc,
    Discv5Ping,
}

/// Protocol-specific diagnostics of one attempt. Never needed for
/// correctness, only for the operator.
#[derive(Debug, Clone, PartialEq, Eq)]
pub enum Meta {
    /// Nothing to report.
    Empty,
    /// The addresses a name resolved to.
    Addrs { addrs: Vec<String> },
    /// Status and body of an HTTP response.
    Http { status: u16, body: String },
    /// Status of a JSON-RPC response over HTTP whose body is a JSON document.
    JsonRpcHttp { status: u16, response: String },
    /// Status of a JSON-RPC response over HTTP whose body is not JSON.
    JsonRpcRaw { status: u16, raw: String },
    /// The JSON document received over a websocket.
    JsonRpcWs { response: String },
    /// The descriptor of a discovery pong.
    Pong { pong: String },
}

/// The mathematical value of a [`Meta`].
pub ghost enum MetaView {
    Empty,
    Addrs { addrs: Seq<Seq<char>> },
    Http { status: u16, body: Seq<char> },
    JsonRpcHttp { status: u16, response: Seq<char> },
    JsonRpcRaw { status: u16, raw: Seq<char> },
    JsonRpcWs { response: Seq<char> },
    Pong { pong: Seq<char> },
}

impl View for Meta {
    type V = MetaView;

    open spec fn view(&self) -> MetaView {
        match *self {
            Meta::Empty => MetaView::Empty,
            Meta::Addrs { addrs } => MetaView::Addrs { addrs: addrs.deep_view() },
            Meta::Http { status, body } => MetaView::Http { status, body: body@ },
            Meta::JsonRpcHttp { status, response } => MetaView::JsonRpcHttp {
                status,
                response: response@,
            },
            Meta::JsonRpcRaw { status, raw } => MetaView::JsonRpcRaw { status, raw: raw@ },
            Meta::JsonRpcWs { response } => MetaView::JsonRpcWs { response: response@ },
            Meta::Pong { pong } => MetaView::Pong { pong: pong@ },
        }
    }
}

/// The outcome of a single attempt.
#[derive(Debug, Clone, PartialEq, Eq)]
pub struct AttemptResult {
    pub ok: bool,
    /// Round-trip time in milliseconds; absent on timeout or when nothing
    /// was measured.
    pub rtt_ms: Option<u128>,
    /// A category-prefixed message when the attempt failed.
    pub error: Option<String>,
    pub meta: Meta,
}

/// The mathematical value of an [`AttemptResult`].
pub ghost struct AttemptView {
    pub ok: bool,
    pub rtt_ms: Option<u128>,
    pub error: Option<Seq<char>>,
    pub meta: MetaView,
}

impl View for AttemptResult {
    type V = AttemptView;

    open spec fn view(&self) -> AttemptView {
        AttemptView {
            ok: self.ok,
            rtt_ms: self.rtt_ms,
            error: match self.error {
                Some(e) => Some(e@),
                None => None,
            },
            meta: self.meta@,
        }
    }
}

/// Counts and round-trip statistics of one job's attempts.
#[derive(Debug, Clone, Copy, PartialEq, Eq)]
pub struct ProbeSummary {
    pub success_count: u32,
    pub failure_count: u32,
    pub min_rtt_ms: Option<u128>,
    pub avg_rtt_ms: Option<u128>,
    pub max_rtt_ms: Option<u128>,
    pub ok: bool,
}

/// Everything recorded about one job.
#[derive(Debug, Clone, PartialEq, Eq)]
pub struct ProbeRun {
    pub kind: ProbeKind,
    pub target: String,
    pub attempts: Vec<AttemptResult>,
    pub summary: ProbeSummary,
}

/// Where the run was made from.
#[derive(Debug, Clone, PartialEq, Eq)]
pub struct ClientInfo {
    pub os: String,
    pub arch: String,
    pub location_label: String,
    pub app_channel: String,
}

/// One self-contained run: the sole unit of delivery.
#[derive(Debug, Clone, PartialEq, Eq)]
pub struct Report {
    pub run_id: String,
    pub started_at_ms: u128,
    pub finished_at_ms: u128,
    pub client: ClientInfo,
    pub run: RunConfig,
    pub results: Vec<ProbeRun>,
}

/// Milliseconds since the Unix epoch, read from `std::time::SystemTime::now`;
/// zero if the clock stands before the epoch. Nothing is claimed of the
/// value: it is whatever the clock says.
#[verifier::external_body]
pub fn now_ms() -> u128 {
    std::time::SystemTime::now()
        .duration_since(std::time::UNIX_EPOCH)
        .unwrap_or_default()
        .as_millis()
}

/// The time from `started` to `now`, zero if the clock went backwards.
pub fn elapsed_ms(started: u128, now: u128) -> (r: u128)
    ensures
        now >= started ==> r == now - started,
        now < started ==> r == 0,
{
    if now >= started {
        now - started
    } else {
        0
    }
}

/// How many of the attempts succeeded.
pub open spec fn count_ok(a: Seq<AttemptResult>) -> nat
    decreases a.len(),
{
    if a.len() == 0 {
        0
    } else {
        count_ok(a.drop_last()) + if a.last().ok {
            1nat
        } else {
            0nat
        }
    }
}

/// The round-trip times that the attempts report, in attempt order.
pub open spec fn rtts_of(a: Seq<AttemptResult>) -> Seq<u128>
    decreases a.len(),
{
    if a.len() == 0 {
        Seq::empty()
    } else {
        match a.last().rtt_ms {
            Some(r) => rtts_of(a.drop_last()).push(r),
            None => rtts_of(a.drop_last()),
        }
    }
}

/// The sum of the values.
pub open spec fn total(s: Seq<u128>) -> nat
    decreases s.len(),
{
    if s.len() == 0 {
        0
    } else {
        total(s.drop_last()) + s.last() as nat
    }
}

/// The smallest of the values (of a non-empty sequence).
pub open spec fn least(s: Seq<u128>) -> u128
    recommends
        s.len() > 0,
    decreases s.len(),
{
    if s.len() <= 1 {
        s[0]
    } else if s.last() < least(s.drop_last()) {
        s.last()
    } else {
        least(s.drop_last())
    }
}

/// The largest of the values (of a non-empty sequence).
pub open spec fn greatest(s: Seq<u128>) -> u128
    recommends
        s.len() > 0,
    decreases s.len(),
{
    if s.len() <= 1 {
        s[0]
    } else if s.last() > greatest(s.drop_last()) {
        s.last()
    } else {
        greatest(s.drop_last())
    }
}

/// The truncated arithmetic mean of the values (of a non-empty sequence).
pub open spec fn mean(s: Seq<u128>) -> nat
    recommends
        s.len() > 0,
{
    total(s) / s.len()
}

/// The summary of a job's attempts: attempts are partitioned by `ok`, the
/// round-trip statistics are taken over the attempts that report a time and
/// are absent when none does, and the job is ok when its successes reach
/// `min_successes`.
pub open spec fn summary_of(a: Seq<AttemptResult>, min_successes: u32) -> ProbeSummary {
    let r = rtts_of(a);
    ProbeSummary {
        success_count: count_ok(a) as u32,
        failure_count: (a.len() - count_ok(a)) as u32,
        min_rtt_ms: if r.len() == 0 {
            None
        } else {
            Some(least(r))
        },
        avg_rtt_ms: if r.len() == 0 {
            None
        } else {
            Some(mean(r) as u128)
        },
        max_rtt_ms: if r.len() == 0 {
            None
        } else {
            Some(greatest(r))
        },
        ok: count_ok(a) >= min_successes,
    }
}

/// No more attempts succeed than were made.
pub proof fn lemma_count_ok_bounded(a: Seq<AttemptResult>)
    ensures
        count_ok(a) <= a.len(),
    decreases a.len(),
{
    if a.len() > 0 {
        lemma_count_ok_bounded(a.drop_last());
    }
}

/// Attempts without a time contribute nothing: the reported times are empty
/// exactly when no attempt reports one, and never outnumber the attempts.
pub proof fn lemma_rtts_empty_iff(a: Seq<AttemptResult>)
    ensures
        rtts_of(a).len() <= a.len(),
        rtts_of(a).len() == 0 <==> (forall|i: int| 0 <= i < a.len() ==> a[i].rtt_ms is None),
    decreases a.len(),
{
    if a.len() > 0 {
        let b = a.drop_last();
        lemma_rtts_empty_iff(b);
        assert(forall|i: int| 0 <= i < b.len() ==> b[i] == a[i]);
        if rtts_of(a).len() == 0 {
            assert(a.last().rtt_ms is None);
            assert forall|i: int| 0 <= i < a.len() implies a[i].rtt_ms is None by {
                if i < b.len() {
                    assert(b[i] == a[i]);
                }
            }
        }
        if forall|i: int| 0 <= i < a.len() ==> a[i].rtt_ms is None {
            assert(a[a.len() - 1].rtt_ms is None);
            assert forall|i: int| 0 <= i < b.len() implies b[i].rtt_ms is None by {
                assert(b[i] == a[i]);
            }
        }
    }
}

/// Every value lies between the least and the greatest, and so does their
/// mean.
pub proof fn lemma_least_mean_greatest(s: Seq<u128>)
    requires
        s.len() > 0,
    ensures
        forall|i: int| 0 <= i < s.len() ==> least(s) <= #[trigger] s[i] <= greatest(s),
        least(s) * s.len() <= total(s) <= greatest(s) * s.len(),
        least(s) <= mean(s) <= greatest(s),
    decreases s.len(),
{
    let n = s.len() as int;
    let lo = least(s) as int;
    let hi = greatest(s) as int;
    let t = total(s) as int;
    if s.len() == 1 {
        assert(s.drop_last().len() == 0);
        assert(total(s.drop_last()) == 0);
        assert(t == s[0]);
        assert(lo * 1 == lo && hi * 1 == hi) by (nonlinear_arith);
    } else {
        let b = s.drop_last();
        lemma_least_mean_greatest(b);
        let blo = least(b) as int;
        let bhi = greatest(b) as int;
        let bt = total(b) as int;
        let x = s.last() as int;
        assert forall|i: int| 0 <= i < s.len() implies least(s) <= #[trigger] s[i] <= greatest(
            s,
        ) by {
            if i < b.len() {
                assert(b[i] == s[i]);
            }
        }
        assert(lo * n <= t <= hi * n) by (nonlinear_arith)
            requires
                blo * (n - 1) <= bt <= bhi * (n - 1),
                t == bt + x,
                lo <= blo,
                lo <= x,
                bhi <= hi,
                x <= hi,
                n >= 2,
        ;
    }
    assert(lo <= t / n <= hi) by {
        lemma_div_multiples_vanish(lo, n);
        lemma_div_multiples_vanish(hi, n);
        assert(n * lo == lo * n && n * hi == hi * n) by (nonlinear_arith);
        lemma_div_is_ordered(lo * n, t, n);
        lemma_div_is_ordered(t, hi * n, n);
    }
}

/// The counts of a summary partition the attempts, and the job is ok exactly
/// when its successes reach the threshold.
pub proof fn lemma_summary_counts(a: Seq<AttemptResult>, min_successes: u32)
    requires
        a.len() <= u32::MAX,
    ensures
        summary_of(a, min_successes).success_count + summary_of(a, min_successes).failure_count
            == a.len(),
        summary_of(a, min_successes).success_count == count_ok(a),
        summary_of(a, min_successes).ok == (summary_of(a, min_successes).success_count
            >= min_successes),
{
    lemma_count_ok_bounded(a);
}

/// No attempt reports a round-trip time.
pub open spec fn none_timed(a: Seq<AttemptResult>) -> bool {
    forall|i: int| 0 <= i < a.len() ==> a[i].rtt_ms is None
}

/// The three statistics are absent.
pub open spec fn statistics_absent(s: ProbeSummary) -> bool {
    s.min_rtt_ms is None && s.avg_rtt_ms is None && s.max_rtt_ms is None
}

/// The three statistics are present and ordered: minimum, mean, maximum.
pub open spec fn statistics_ordered(s: ProbeSummary) -> bool {
    s.min_rtt_ms is Some && s.avg_rtt_ms is Some && s.max_rtt_ms is Some && s.min_rtt_ms->0
        <= s.avg_rtt_ms->0 <= s.max_rtt_ms->0
}

/// When no attempt reports a round-trip time the three statistics are absent;
/// otherwise all three are present and ordered: minimum, mean, maximum.
pub proof fn lemma_summary_rtt_order(a: Seq<AttemptResult>, min_successes: u32)
    ensures
        none_timed(a) ==> statistics_absent(summary_of(a, min_successes)),
        !none_timed(a) ==> statistics_ordered(summary_of(a, min_successes)),
{
    lemma_rtts_empty_iff(a);
    if rtts_of(a).len() > 0 {
        lemma_least_mean_greatest(rtts_of(a));
    }
}

/// Aggregates a job's attempts into its summary.
pub fn summarize_attempts(attempts: &[AttemptResult], min_successes: u32) -> (s: ProbeSummary)
    requires
        attempts@.len() <= u32::MAX,
    ensures
        s == summary_of(attempts@, min_successes),
{
    let n = attempts.len();
    let mut ok_count: u32 = 0;
    let mut rtts: Vec<u128> = Vec::new();
    let mut lo: u128 = 0;
    let mut hi: u128 = 0;
    let mut i: usize = 0;
    while i < n
        invariant
            n == attempts@.len(),
            n <= u32::MAX,
            i <= n,
            ok_count == count_ok(attempts@.take(i as int)),
            ok_count <= i,
            rtts@ == rtts_of(attempts@.take(i as int)),
            rtts@.len() <= i,
            rtts@.len() > 0 ==> lo == least(rtts@) && hi == greatest(rtts@),
        decreases n - i,
    {
        proof {
            assert(attempts@.take(i + 1).drop_last() =~= attempts@.take(i as int));
            assert(attempts@.take(i + 1).last() == attempts@[i as int]);
        }
        if attempts[i].ok {
            ok_count = ok_count + 1;
        }
        if let Some(rtt) = attempts[i].rtt_ms {
            let ghost before = rtts@;
            let first = rtts.len() == 0;
            rtts.push(rtt);
            proof {
                assert(rtts@.drop_last() =~= before);
            }
            if first || rtt < lo {
                lo = rtt;
            }
            if first || rtt > hi {
                hi = rtt;
            }
        }
        i = i + 1;
    }
    proof {
        assert(attempts@.take(n as int) =~= attempts@);
    }
    let cnt = rtts.len();
    let fail_count: u32 = (n - ok_count as usize) as u32;
    if cnt == 0 {
        return ProbeSummary {
            success_count: ok_count,
            failure_count: fail_count,
            min_rtt_ms: None,
            avg_rtt_ms: None,
            max_rtt_ms: None,
            ok: ok_count >= min_successes,
        };
    }
    let c: u128 = cnt as u128;
    let mut q: u128 = 0;
    let mut r: u128 = 0;
    let mut j: usize = 0;
    while j < cnt
        invariant
            cnt == rtts@.len(),
            c == cnt,
            0 < cnt <= u32::MAX,
            j <= cnt,
            q * c + r == total(rtts@.take(j as int)),
            r <= j * (c - 1),
            q * c <= j * u128::MAX,
        decreases cnt - j,
    {
        let x = rtts[j];
        proof {
            assert(rtts@.take(j + 1).drop_last() =~= rtts@.take(j as int));
            assert(rtts@.take(j + 1).last() == x);
            let xq = (x / c) as int;
            let xr = (x % c) as int;
            assert(x == xq * c + xr && 0 <= xr <= c - 1 && xq >= 0) by (nonlinear_arith)
                requires
                    xq == x as int / c as int,
                    xr == x as int % c as int,
                    c > 0,
            ;
            assert((q + xq) * c == q * c + xq * c) by (nonlinear_arith);
            assert((j + 1) * u128::MAX == j * u128::MAX + u128::MAX) by (nonlinear_arith);
            assert((j + 1) * (c - 1) == j * (c - 1) + (c - 1)) by (nonlinear_arith);
            assert((j + 1) * u128::MAX <= c * u128::MAX) by (nonlinear_arith)
                requires
                    j + 1 <= c,
            ;
            assert(q + xq <= u128::MAX) by (nonlinear_arith)
                requires
                    (q + xq) * c <= c * u128::MAX,
                    c > 0,
            ;
            assert((j + 1) * (c - 1) <= 0xffff_ffff * 0xffff_ffff) by (nonlinear_arith)
                requires
                    j + 1 <= c,
                    0 < c <= 0xffff_ffff,
            ;
        }
        q = q + x / c;
        r = r + x % c;
        j = j + 1;
    }
    proof {
        assert(rtts@.take(cnt as int) =~= rtts@);
        lemma_least_mean_greatest(rtts@);
        lemma_hoist_over_denominator(r as int, q as int, c as nat);
        assert(q * c + r == r + q * c);
        assert(mean(rtts@) == q + r / c);
    }
    let avg = q + r / c;
    ProbeSummary {
        success_count: ok_count,
        failure_count: fail_count,
        min_rtt_ms: Some(lo),
        avg_rtt_ms: Some(avg),
        max_rtt_ms: Some(hi),
        ok: ok_count >= min_successes,
    }
}

} // verus!
