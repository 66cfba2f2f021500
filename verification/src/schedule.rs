//! The concurrency ceiling: which job may start, and when to wait.
//!
//! A [`Dispatcher`] hands out the jobs of a run in order, never letting more
//! than `parallelism` of them run at once. Its caller starts the job it is
//! given, waits when told to, and reports each job that finishes.

use crate::config::RunConfig;
use vstd::arithmetic::div_mod::lemma_fundamental_div_mod;
use vstd::prelude::*;

verus! {

/// What the caller does next.
#[derive(Debug, Clone, Copy, PartialEq, Eq, Structural)]
pub enum Dispatch {
    /// Start the job with this index.
    Start { job: usize },
    /// Every permit is taken, or nothing is left to start: wait for a
    /// running job to finish.
    Wait,
    /// Every job has finished.
    Done,
}

/// The progress of a run of `total` jobs under a ceiling of `parallelism`.
#[derive(Debug, Clone, Copy, PartialEq, Eq)]
pub struct Dispatcher {
    pub parallelism: usize,
    pub total: usize,
    pub started: usize,
    pub finished: usize,
}

impl Dispatcher {
    /// The jobs that hold a permit.
    pub open spec fn running(&self) -> int {
        self.started - self.finished
    }

    /// Jobs are started in order, finish only after they started, and never
    /// more than `parallelism` of them run at once.
    pub open spec fn wf(&self) -> bool {
        &&& self.parallelism >= 1
        &&& self.finished <= self.started <= self.total
        &&& self.running() <= self.parallelism
    }

    /// The next step: start the next job while one is left and a permit is
    /// free; otherwise wait while any job runs; otherwise the run is done.
    pub open spec fn decision(&self) -> Dispatch {
        if self.started < self.total && self.running() < self.parallelism {
            Dispatch::Start { job: self.started }
        } else if self.running() > 0 {
            Dispatch::Wait
        } else {
            Dispatch::Done
        }
    }

    /// A run of `total` jobs of which none has started.
    pub fn new(parallelism: usize, total: usize) -> (d: Dispatcher)
        requires
            parallelism >= 1,
        ensures
            d.wf(),
            d.parallelism == parallelism,
            d.total == total,
            d.started == 0,
            d.finished == 0,
    {
        Dispatcher { parallelism, total, started: 0, finished: 0 }
    }

    /// What to do next.
    pub fn next(&self) -> (a: Dispatch)
        requires
            self.wf(),
        ensures
            a == self.decision(),
    {
        let running = self.started - self.finished;
        if self.started < self.total && running < self.parallelism {
            Dispatch::Start { job: self.started }
        } else if running > 0 {
            Dispatch::Wait
        } else {
            Dispatch::Done
        }
    }

    /// Records that the job handed out by [`Dispatcher::next`] was started;
    /// it now holds a permit.
    pub fn start(&mut self) -> (job: usize)
        requires
            old(self).wf(),
            old(self).decision() is Start,
        ensures
            final(self).wf(),
            job == old(self).started,
            final(self).started == old(self).started + 1,
            final(self).finished == old(self).finished,
            final(self).total == old(self).total,
            final(self).parallelism == old(self).parallelism,
    {
        let job = self.started;
        self.started = self.started + 1;
        job
    }

    /// Records that a running job finished; its permit is free again.
    pub fn finish(&mut self)
        requires
            old(self).wf(),
            old(self).running() > 0,
        ensures
            final(self).wf(),
            final(self).finished == old(self).finished + 1,
            final(self).started == old(self).started,
            final(self).total == old(self).total,
            final(self).parallelism == old(self).parallelism,
    {
        self.finished = self.finished + 1;
    }
}

/// The ceiling holds in every state, the run is done exactly when every job
/// has finished, and the caller is told to wait only while a job runs: a run
/// never stalls.
pub proof fn lemma_dispatch_progress(d: Dispatcher)
    requires
        d.wf(),
    ensures
        d.running() <= d.parallelism,
        d.decision() is Done <==> d.finished == d.total,
        d.decision() is Wait ==> d.running() > 0,
        d.decision() is Start ==> d.running() < d.parallelism && d.decision()->job == d.started,
{
}

/// The number of rounds in which `job_count` jobs run, `parallelism` at a
/// time: the quotient, rounded up.
pub open spec fn rounds(job_count: nat, parallelism: nat) -> nat
    recommends
        parallelism > 0,
{
    job_count / parallelism + if job_count % parallelism == 0 {
        0nat
    } else {
        1nat
    }
}

/// The upper bound on the wall time of a run, in milliseconds: every round
/// takes at most `attempts` attempts of at most `timeout_ms` each.
pub open spec fn wall_time_bound(cfg: RunConfig, job_count: nat) -> nat {
    rounds(job_count, cfg.parallelism as nat) * (cfg.attempts as nat * cfg.timeout_ms as nat)
}

/// Computes the upper bound on the wall time of a run of `job_count` jobs;
/// `None` where the bound does not fit the result type.
pub fn wall_time_bound_ms(cfg: &RunConfig, job_count: usize) -> (r: Option<u128>)
    requires
        cfg.parallelism >= 1,
    ensures
        r == if wall_time_bound(*cfg, job_count as nat) <= u128::MAX {
            Some(wall_time_bound(*cfg, job_count as nat) as u128)
        } else {
            None
        },
{
    let whole = job_count / cfg.parallelism;
    let n: usize = if job_count % cfg.parallelism == 0 {
        whole
    } else {
        proof {
            lemma_fundamental_div_mod(job_count as int, cfg.parallelism as int);
            assert(whole < job_count) by (nonlinear_arith)
                requires
                    job_count == cfg.parallelism * whole + (job_count % cfg.parallelism) as int,
                    job_count % cfg.parallelism != 0,
                    cfg.parallelism >= 1,
                    whole >= 0,
            ;
        }
        whole + 1
    };
    let a: u128 = cfg.attempts as u128;
    let t: u128 = cfg.timeout_ms as u128;
    assert(a * t <= 0xffff_ffff * 0xffff_ffff_ffff_ffff) by (nonlinear_arith)
        requires
            0 <= a <= 0xffff_ffff,
            0 <= t <= 0xffff_ffff_ffff_ffff,
    ;
    let per_round: u128 = a * t;
    let k: u128 = n as u128;
    if per_round == 0 {
        assert(k * per_round == 0) by (nonlinear_arith)
            requires
                per_round == 0,
        ;
        Some(0)
    } else {
        let limit: u128 = u128::MAX / per_round;
        proof {
            lemma_fundamental_div_mod(u128::MAX as int, per_round as int);
        }
        if k <= limit {
            assert(k * per_round <= u128::MAX) by (nonlinear_arith)
                requires
                    k <= limit,
                    u128::MAX == per_round * limit + (u128::MAX % per_round) as int,
                    0 <= (u128::MAX % per_round) as int,
                    per_round > 0,
            ;
            Some(k * per_round)
        } else {
            assert(k * per_round > u128::MAX) by (nonlinear_arith)
                requires
                    k >= limit + 1,
                    u128::MAX == per_round * limit + (u128::MAX % per_round) as int,
                    ((u128::MAX % per_round) as int) < per_round,
                    per_round > 0,
            ;
            None
        }
    }
}

} // verus!
