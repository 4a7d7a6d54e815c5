use vstd::prelude::*;

verus! {

/// Health counters of the RPC client with failover.
#[derive(Debug, Clone, Copy, PartialEq, Eq, Structural)]
pub struct RpcHealthStatus {
    pub primary_healthy: bool,
    pub primary_failures: u64,
    pub fallback_activations: u64,
    pub total_requests: u64,
}

/// An RPC endpoint: the primary, or the fallback at an index.
#[derive(Debug, Clone, Copy, PartialEq, Eq, Structural)]
pub enum Endpoint {
    Primary,
    Fallback(usize),
}

/// What to do after an attempt.
#[derive(Debug, Clone, Copy, PartialEq, Eq, Structural)]
pub enum FailoverStep {
    /// Send the request to this endpoint next.
    Try(Endpoint),
    /// The request succeeded at this endpoint.
    Succeeded(Endpoint),
    /// Every endpoint failed.
    AllFailed,
}

/// Failover decisions of the RPC client: the primary is tried first, then
/// each fallback in order, until one answers.
pub struct RpcFailover {
    pub fallback_count: usize,
    pub primary_healthy: bool,
    pub primary_failures: u64,
    pub fallback_activations: u64,
    pub total_requests: u64,
    /// The endpoint of the attempt in flight, if a request is under way.
    pub in_flight: Option<Endpoint>,
}

/// The failover state and next step after the attempt in flight reported `ok`.
pub open spec fn spec_report(f: RpcFailover, ok: bool) -> (RpcFailover, FailoverStep) {
    match f.in_flight {
        Some(Endpoint::Primary) => if ok {
            (RpcFailover { primary_healthy: true, in_flight: None, ..f }, FailoverStep::Succeeded(Endpoint::Primary))
        } else if f.fallback_count > 0 {
            (RpcFailover {
                primary_healthy: false,
                primary_failures: (f.primary_failures + 1) as u64,
                in_flight: Some(Endpoint::Fallback(0)),
                ..f
            }, FailoverStep::Try(Endpoint::Fallback(0)))
        } else {
            (RpcFailover {
                primary_healthy: false,
                primary_failures: (f.primary_failures + 1) as u64,
                in_flight: None,
                ..f
            }, FailoverStep::AllFailed)
        },
        Some(Endpoint::Fallback(i)) => if ok {
            (RpcFailover {
                fallback_activations: (f.fallback_activations + 1) as u64,
                in_flight: None,
                ..f
            }, FailoverStep::Succeeded(Endpoint::Fallback(i)))
        } else if i + 1 < f.fallback_count {
            (RpcFailover { in_flight: Some(Endpoint::Fallback((i + 1) as usize)), ..f }, FailoverStep::Try(Endpoint::Fallback((i + 1) as usize)))
        } else {
            (RpcFailover { in_flight: None, ..f }, FailoverStep::AllFailed)
        },
        None => (f, FailoverStep::AllFailed),
    }
}

impl RpcFailover {
    /// Counters stay consistent: fallback activations never exceed primary
    /// failures, which never exceed requests; an attempt in flight is
    /// accounted for.
    pub open spec fn wf(&self) -> bool {
        match self.in_flight {
            None => self.fallback_activations <= self.primary_failures <= self.total_requests,
            Some(Endpoint::Primary) => self.fallback_activations <= self.primary_failures < self.total_requests,
            Some(Endpoint::Fallback(i)) => {
                &&& self.fallback_activations < self.primary_failures <= self.total_requests
                &&& i < self.fallback_count
            },
        }
    }

    /// A healthy client with `fallback_count` fallbacks and no requests yet.
    pub fn new(fallback_count: usize) -> (f: Self)
        ensures
            f.wf(),
            f.fallback_count == fallback_count,
            f.primary_healthy,
            f.primary_failures == 0,
            f.fallback_activations == 0,
            f.total_requests == 0,
            f.in_flight is None,
    {
        RpcFailover {
            fallback_count,
            primary_healthy: true,
            primary_failures: 0,
            fallback_activations: 0,
            total_requests: 0,
            in_flight: None,
        }
    }

    /// Starts a request: it always goes to the primary first.
    pub fn begin_request(&mut self) -> (e: Endpoint)
        requires
            old(self).wf(),
            old(self).in_flight is None,
            old(self).total_requests < u64::MAX,
        ensures
            final(self).wf(),
            e == Endpoint::Primary,
            *final(self) == (RpcFailover {
                total_requests: (old(self).total_requests + 1) as u64,
                in_flight: Some(Endpoint::Primary),
                ..*old(self)
            }),
    {
        self.total_requests = self.total_requests + 1;
        self.in_flight = Some(Endpoint::Primary);
        Endpoint::Primary
    }

    /// Reports the outcome of the attempt in flight and returns the next step.
    pub fn report(&mut self, ok: bool) -> (step: FailoverStep)
        requires
            old(self).wf(),
            old(self).in_flight is Some,
        ensures
            final(self).wf(),
            (*final(self), step) == spec_report(*old(self), ok),
    {
        match self.in_flight {
            Some(Endpoint::Primary) => {
                if ok {
                    self.primary_healthy = true;
                    self.in_flight = None;
                    FailoverStep::Succeeded(Endpoint::Primary)
                } else {
                    self.primary_failures = self.primary_failures + 1;
                    self.primary_healthy = false;
                    if self.fallback_count > 0 {
                        self.in_flight = Some(Endpoint::Fallback(0));
                        FailoverStep::Try(Endpoint::Fallback(0))
                    } else {
                        self.in_flight = None;
                        FailoverStep::AllFailed
                    }
                }
            },
            Some(Endpoint::Fallback(i)) => {
                if ok {
                    self.fallback_activations = self.fallback_activations + 1;
                    self.in_flight = None;
                    FailoverStep::Succeeded(Endpoint::Fallback(i))
                } else if i + 1 < self.fallback_count {
                    self.in_flight = Some(Endpoint::Fallback(i + 1));
                    FailoverStep::Try(Endpoint::Fallback(i + 1))
                } else {
                    self.in_flight = None;
                    FailoverStep::AllFailed
                }
            },
            None => FailoverStep::AllFailed,
        }
    }

    /// Snapshot of the health counters.
    pub fn health_check(&self) -> (h: RpcHealthStatus)
        ensures
            h == (RpcHealthStatus {
                primary_healthy: self.primary_healthy,
                primary_failures: self.primary_failures,
                fallback_activations: self.fallback_activations,
                total_requests: self.total_requests,
            }),
    {
        RpcHealthStatus {
            primary_healthy: self.primary_healthy,
            primary_failures: self.primary_failures,
            fallback_activations: self.fallback_activations,
            total_requests: self.total_requests,
        }
    }
}

impl RpcHealthStatus {
    /// Requests answered by the primary: the requests whose primary
    /// attempt did not fail.
    pub fn primary_successes(&self) -> (n: u64)
        requires
            self.primary_failures <= self.total_requests,
        ensures
            n == self.total_requests - self.primary_failures,
    {
        self.total_requests - self.primary_failures
    }
}

/// How quickly the primary endpoint answered, as logged.
#[derive(Debug, Clone, Copy, PartialEq, Eq, Structural)]
pub enum LatencyGrade {
    /// Under 150 ms.
    Excellent,
    /// From 150 ms to under 250 ms.
    Good,
    /// 250 ms or more.
    Slow,
}

pub fn latency_grade(latency_ms: u64) -> (g: LatencyGrade)
    ensures
        g == (if latency_ms < 150 {
            LatencyGrade::Excellent
        } else if latency_ms < 250 {
            LatencyGrade::Good
        } else {
            LatencyGrade::Slow
        }),
{
    if latency_ms < 150 {
        LatencyGrade::Excellent
    } else if latency_ms < 250 {
        LatencyGrade::Good
    } else {
        LatencyGrade::Slow
    }
}

/// Runs a request through the failover with the attempt outcomes in `oks`.
pub open spec fn run_request(f: RpcFailover, oks: Seq<bool>) -> (RpcFailover, FailoverStep)
    decreases oks.len(),
{
    if oks.len() == 0 {
        (f, FailoverStep::Try(f.in_flight->0))
    } else {
        let (g, step) = spec_report(f, oks[0]);
        if step is Try {
            run_request(g, oks.drop_first())
        } else {
            (g, step)
        }
    }
}

/// Law: once the primary has failed, a request whose remaining `n`
/// fallbacks all fail gives up after exactly `n` more attempts, one per
/// fallback, without counting another failure or any activation.
pub proof fn lemma_all_fail(f: RpcFailover, n: nat)
    requires
        f.wf(),
        f.in_flight is Some,
        1 <= n <= f.fallback_count,
        f.in_flight == Some(Endpoint::Fallback((f.fallback_count - n) as usize)),
    ensures
        run_request(f, Seq::new(n, |i: int| false)).1 == FailoverStep::AllFailed,
        run_request(f, Seq::new(n, |i: int| false)).0.primary_failures == f.primary_failures,
        run_request(f, Seq::new(n, |i: int| false)).0.fallback_activations == f.fallback_activations,
        run_request(f, Seq::new(n, |i: int| false)).0.in_flight is None,
    decreases n,
{
    let oks = Seq::new(n, |i: int| false);
    let (g, step) = spec_report(f, false);
    if n > 1 {
        assert(oks.drop_first() =~= Seq::new((n - 1) as nat, |i: int| false));
        lemma_all_fail(g, (n - 1) as nat);
    }
}

/// Law (primary first): the first attempt of every request goes to the
/// primary and, when it fails and fallbacks exist, the next goes to the
/// first fallback.
pub proof fn lemma_primary_then_first_fallback(f: RpcFailover)
    requires
        f.wf(),
        f.in_flight == Some(Endpoint::Primary),
        f.fallback_count > 0,
    ensures
        spec_report(f, false).1 == FailoverStep::Try(Endpoint::Fallback(0)),
        spec_report(f, false).0.primary_failures == f.primary_failures + 1,
        !spec_report(f, false).0.primary_healthy,
{
}

/// Position of the first success in `oks` (its length when none succeeded).
pub open spec fn first_success(oks: Seq<bool>) -> nat
    decreases oks.len(),
{
    if oks.len() == 0 {
        0
    } else if oks[0] {
        0
    } else {
        1 + first_success(oks.drop_first())
    }
}

/// The endpoint tried at attempt `j` of a request: the primary, then the
/// fallbacks in order.
pub open spec fn endpoint_at(j: nat) -> Endpoint {
    if j == 0 {
        Endpoint::Primary
    } else {
        Endpoint::Fallback((j - 1) as usize)
    }
}

proof fn lemma_first_success_bounded(oks: Seq<bool>)
    ensures
        first_success(oks) <= oks.len(),
        first_success(oks) < oks.len() ==> oks[first_success(oks) as int],
    decreases oks.len(),
{
    if oks.len() > 0 && !oks[0] {
        lemma_first_success_bounded(oks.drop_first());
    }
}

/// The fallback stage of a request, from fallback `i` on: the first
/// fallback that answers is the result, and only a success is counted.
proof fn lemma_fallback_run(f: RpcFailover, i: usize, oks: Seq<bool>)
    requires
        f.in_flight == Some(Endpoint::Fallback(i)),
        i < f.fallback_count,
        oks.len() == f.fallback_count - i,
        f.fallback_activations < u64::MAX,
    ensures
        run_request(f, oks).1 == (if first_success(oks) < oks.len() {
            FailoverStep::Succeeded(Endpoint::Fallback((i + first_success(oks)) as usize))
        } else {
            FailoverStep::AllFailed
        }),
        run_request(f, oks).0 == (RpcFailover {
            fallback_activations: (f.fallback_activations + (if first_success(oks) < oks.len() { 1int } else { 0 })) as u64,
            in_flight: None,
            ..f
        }),
    decreases oks.len(),
{
    let (g, step) = spec_report(f, oks[0]);
    if !oks[0] && i + 1 < f.fallback_count {
        assert(oks.drop_first().len() == g.fallback_count - (i + 1));
        lemma_fallback_run(g, (i + 1) as usize, oks.drop_first());
    }
}

/// Law: a request returns the answer of the first endpoint that succeeds,
/// trying the primary and then every fallback in order (later endpoints
/// are never tried), and fails exactly when every endpoint fails. The
/// primary's failure is counted once, a fallback's success once, and the
/// primary is healthy exactly when it answered.
pub proof fn lemma_first_success_wins(f: RpcFailover, oks: Seq<bool>)
    requires
        f.wf(),
        f.in_flight == Some(Endpoint::Primary),
        oks.len() == f.fallback_count + 1,
    ensures
        run_request(f, oks).1 == (if first_success(oks) < oks.len() {
            FailoverStep::Succeeded(endpoint_at(first_success(oks)))
        } else {
            FailoverStep::AllFailed
        }),
        run_request(f, oks).0.total_requests == f.total_requests,
        run_request(f, oks).0.primary_failures == f.primary_failures + (if oks[0] { 0int } else { 1 }),
        run_request(f, oks).0.fallback_activations == f.fallback_activations
            + (if !oks[0] && first_success(oks) < oks.len() { 1int } else { 0 }),
        run_request(f, oks).0.primary_healthy == oks[0],
        run_request(f, oks).0.in_flight is None,
{
    lemma_first_success_bounded(oks);
    let (g, step) = spec_report(f, oks[0]);
    if !oks[0] && f.fallback_count > 0 {
        let rest = oks.drop_first();
        lemma_fallback_run(g, 0, rest);
        assert(first_success(oks) == 1 + first_success(rest));
    }
}

} // verus!
