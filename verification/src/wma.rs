use vstd::prelude::*;
use crate::circuit_breaker::TradeOutcome;
use crate::signal::SignalType;
use crate::window::{RollingWindow, keep_last};

verus! {

/// Number of recent signals kept per strategy.
pub const PERFORMANCE_WINDOW: usize = 20;

/// Minimum history length (per strategy) before correlation is measured.
pub const MIN_CORRELATION_SAMPLES: usize = 10;

/// Integer part of a strategy's performance record in the weighted
/// majority consensus: trade tallies and its recent signal history.
pub struct PerformanceCounts {
    pub total_trades: usize,
    pub wins: usize,
    pub losses: usize,
    pub recent: RollingWindow<SignalType>,
}

impl PerformanceCounts {
    pub closed spec fn recent_signals(&self) -> Seq<SignalType> {
        self.recent@
    }

    /// The history window is well formed and sized for the performance window,
    /// and wins and losses never exceed the trades.
    pub closed spec fn wf(&self) -> bool {
        &&& self.recent.wf()
        &&& self.recent.spec_capacity() == PERFORMANCE_WINDOW
        &&& self.wins + self.losses <= self.total_trades
    }

    pub fn new() -> (p: Self)
        ensures
            p.wf(),
            p.total_trades == 0,
            p.wins == 0,
            p.losses == 0,
            p.recent_signals() == Seq::<SignalType>::empty(),
    {
        PerformanceCounts { total_trades: 0, wins: 0, losses: 0, recent: RollingWindow::new(PERFORMANCE_WINDOW) }
    }

    /// Tallies one trade by the sign of its profit.
    pub fn record_trade(&mut self, outcome: TradeOutcome)
        requires
            old(self).wf(),
            old(self).total_trades < usize::MAX,
        ensures
            final(self).wf(),
            final(self).total_trades == old(self).total_trades + 1,
            final(self).wins == old(self).wins + (if outcome == TradeOutcome::Profit { 1int } else { 0 }),
            final(self).losses == old(self).losses + (if outcome == TradeOutcome::Loss { 1int } else { 0 }),
            final(self).recent_signals() == old(self).recent_signals(),
    {
        self.total_trades = self.total_trades + 1;
        match outcome {
            TradeOutcome::Profit => {
                self.wins = self.wins + 1;
            },
            TradeOutcome::Loss => {
                self.losses = self.losses + 1;
            },
            TradeOutcome::Flat => {},
        }
    }

    /// Appends a signal to the recent history, keeping the last 20.
    pub fn record_signal(&mut self, signal_type: SignalType)
        requires
            old(self).wf(),
        ensures
            final(self).wf(),
            final(self).recent_signals() == keep_last(old(self).recent_signals().push(signal_type), PERFORMANCE_WINDOW as nat),
            final(self).total_trades == old(self).total_trades,
            final(self).wins == old(self).wins,
            final(self).losses == old(self).losses,
    {
        self.recent.push(signal_type);
    }

    /// The recent signals, oldest first.
    pub fn recent_signals_slice(&self) -> (r: &[SignalType])
        ensures
            r@ == self.recent_signals(),
    {
        self.recent.as_slice()
    }
}

/// Number of positions below `n` where `a` and `b` agree.
pub open spec fn agreements(a: Seq<SignalType>, b: Seq<SignalType>, n: int) -> nat
    decreases n,
{
    if n <= 0 {
        0
    } else {
        agreements(a, b, n - 1) + if a[n - 1] == b[n - 1] { 1nat } else { 0 }
    }
}

proof fn lemma_agreements_bounded(a: Seq<SignalType>, b: Seq<SignalType>, n: int)
    requires
        n >= 0,
    ensures
        agreements(a, b, n) <= n,
    decreases n,
{
    if n > 0 {
        lemma_agreements_bounded(a, b, n - 1);
    }
}

/// Counts the positions, up to the shorter history, where two strategies
/// emitted the same signal type.
pub fn count_agreements(a: &[SignalType], b: &[SignalType]) -> (r: (usize, usize))
    ensures
        r.1 == if a@.len() < b@.len() { a@.len() } else { b@.len() },
        r.0 == agreements(a@, b@, r.1 as int),
{
    let n: usize = if a.len() < b.len() {
        a.len()
    } else {
        b.len()
    };
    let mut count: usize = 0;
    let mut i: usize = 0;
    while i < n
        invariant
            n <= a@.len(),
            n <= b@.len(),
            i <= n,
            count == agreements(a@, b@, i as int),
        decreases n - i,
    {
        proof {
            lemma_agreements_bounded(a@, b@, i as int);
        }
        if a[i] == b[i] {
            count = count + 1;
        }
        i = i + 1;
    }
    (count, n)
}

/// The (agreements, compared positions) sample behind the correlation of
/// two signal histories; `None` when either history is shorter than ten
/// signals, in which case the correlation is taken as 0.
pub fn correlation_sample(a: &[SignalType], b: &[SignalType]) -> (r: Option<(usize, usize)>)
    ensures
        (a@.len() < MIN_CORRELATION_SAMPLES || b@.len() < MIN_CORRELATION_SAMPLES) ==> r is None,
        (a@.len() >= MIN_CORRELATION_SAMPLES && b@.len() >= MIN_CORRELATION_SAMPLES) ==> {
            let n = if a@.len() < b@.len() { a@.len() } else { b@.len() };
            &&& r == Some(((agreements(a@, b@, n as int)) as usize, n as usize))
            &&& n > 0
        },
{
    if a.len() < MIN_CORRELATION_SAMPLES || b.len() < MIN_CORRELATION_SAMPLES {
        return None;
    }
    Some(count_agreements(a, b))
}

/// Law: agreement is symmetric in the two strategies and never exceeds
/// the number of compared positions.
pub proof fn lemma_agreements_symmetric(a: Seq<SignalType>, b: Seq<SignalType>, n: int)
    requires
        n >= 0,
    ensures
        agreements(a, b, n) == agreements(b, a, n),
        agreements(a, b, n) <= n,
    decreases n,
{
    if n > 0 {
        lemma_agreements_symmetric(a, b, n - 1);
    }
}


/// Rounds between two recomputations of the strategy weights.
pub const UPDATE_FREQUENCY: u64 = 10;

/// Whether the weights are recomputed in the round numbered `cycles`
/// (rounds count from one).
pub open spec fn spec_update_due(cycles: u64) -> bool {
    cycles % UPDATE_FREQUENCY == 0
}

/// Round counter of the weighted-majority engine.
pub struct WmaClock {
    pub cycles: u64,
}

impl WmaClock {
    pub fn new() -> (c: Self)
        ensures
            c.cycles == 0,
    {
        WmaClock { cycles: 0 }
    }

    /// Starts a round; returns whether the weights are due for an update.
    pub fn tick(&mut self) -> (due: bool)
        requires
            old(self).cycles < u64::MAX,
        ensures
            final(self).cycles == old(self).cycles + 1,
            due == spec_update_due(final(self).cycles),
    {
        self.cycles = self.cycles + 1;
        self.cycles % UPDATE_FREQUENCY == 0
    }
}

/// Law: the weights are recomputed exactly once in every ten consecutive
/// rounds.
pub proof fn lemma_update_every_tenth_round(c: u64, k: u64)
    requires
        spec_update_due(c),
        0 < k < UPDATE_FREQUENCY,
        c + UPDATE_FREQUENCY <= u64::MAX,
    ensures
        !spec_update_due((c + k) as u64),
        spec_update_due((c + UPDATE_FREQUENCY) as u64),
{
    assert((c + k) % 10 == k) by (nonlinear_arith)
        requires
            c % 10 == 0,
            0 < k < 10,
    ;
    assert((c + 10) % 10 == 0) by (nonlinear_arith)
        requires
            c % 10 == 0,
    ;
}

/// Positions of the strategies whose signal cleared the confidence gate,
/// in signal order.
pub open spec fn spec_round_voters(passes: Seq<bool>) -> Seq<usize>
    decreases passes.len(),
{
    if passes.len() == 0 {
        Seq::empty()
    } else if passes.last() {
        spec_round_voters(passes.drop_last()).push((passes.len() - 1) as usize)
    } else {
        spec_round_voters(passes.drop_last())
    }
}

/// The voters of one round: the positions whose signal cleared the confidence threshold.
/// A new list each round, so nothing carries over from an earlier round.
pub fn select_voters(passes: &[bool]) -> (v: Vec<usize>)
    ensures
        v@ == spec_round_voters(passes@),
{
    let mut v: Vec<usize> = Vec::new();
    let mut i: usize = 0;
    while i < passes.len()
        invariant
            i <= passes@.len(),
            v@ == spec_round_voters(passes@.take(i as int)),
        decreases passes@.len() - i,
    {
        proof {
            assert(passes@.take(i as int + 1).drop_last() =~= passes@.take(i as int));
        }
        if passes[i] {
            v.push(i);
        }
        i = i + 1;
    }
    proof {
        assert(passes@.take(passes@.len() as int) =~= passes@);
    }
    v
}

/// Law: the voters of a round are exactly the positions whose signal
/// cleared the confidence threshold, each once, in increasing order.
pub proof fn lemma_round_voters_exact(passes: Seq<bool>)
    requires
        passes.len() <= usize::MAX,
    ensures
        forall|k: int| 0 <= k < spec_round_voters(passes).len() ==> {
            let p = #[trigger] spec_round_voters(passes)[k];
            p < passes.len() && passes[p as int]
        },
        forall|i: int| 0 <= i < passes.len() && passes[i] ==> spec_round_voters(passes).contains(i as usize),
        forall|a: int, b: int| 0 <= a < b < spec_round_voters(passes).len()
            ==> spec_round_voters(passes)[a] < spec_round_voters(passes)[b],
    decreases passes.len(),
{
    if passes.len() > 0 {
        let init = passes.drop_last();
        lemma_round_voters_exact(init);
        let v = spec_round_voters(passes);
        let vi = spec_round_voters(init);
        assert forall|k: int| 0 <= k < v.len() implies {
            let p = #[trigger] v[k];
            p < passes.len() && passes[p as int]
        } by {
            if k < vi.len() {
                assert(v[k] == vi[k]);
                assert(init[vi[k] as int] == passes[vi[k] as int]);
            }
        }
        assert forall|i: int| 0 <= i < passes.len() && passes[i] implies v.contains(i as usize) by {
            if i < passes.len() - 1 {
                assert(init[i] == passes[i]);
                let j = choose|j: int| 0 <= j < vi.len() && vi[j] == i as usize;
                assert(v[j] == vi[j]);
            } else {
                assert(v[v.len() - 1] == i as usize);
            }
        }
        assert forall|a: int, b: int| 0 <= a < b < v.len() implies v[a] < v[b] by {
            if b < vi.len() {
                assert(v[a] == vi[a] && v[b] == vi[b]);
            } else {
                assert(v[a] == vi[a]);
                assert(vi[a] < init.len());
            }
        }
    }
}

/// Outcome of one weighted-majority round.
#[derive(Debug, Clone, Copy, PartialEq, Eq, Structural)]
pub enum WmaVerdict {
    /// No signal cleared the confidence gate: hold.
    AllFiltered,
    /// The buy side outweighs the sell side.
    Buy,
    /// The sell side outweighs the buy side.
    Sell,
    /// Neither side wins: hold.
    NoConsensus,
}

/// The round's verdict from the number of voters and which side's
/// weighted vote won (strictly larger and positive).
pub fn wma_verdict(voters: usize, buy_wins: bool, sell_wins: bool) -> (v: WmaVerdict)
    ensures
        v == (if voters == 0 {
            WmaVerdict::AllFiltered
        } else if buy_wins {
            WmaVerdict::Buy
        } else if sell_wins {
            WmaVerdict::Sell
        } else {
            WmaVerdict::NoConsensus
        }),
        v == WmaVerdict::AllFiltered <==> voters == 0,
        v == WmaVerdict::Buy <==> (voters > 0 && buy_wins),
        v == WmaVerdict::Sell <==> (voters > 0 && !buy_wins && sell_wins),
{
    if voters == 0 {
        WmaVerdict::AllFiltered
    } else if buy_wins {
        WmaVerdict::Buy
    } else if sell_wins {
        WmaVerdict::Sell
    } else {
        WmaVerdict::NoConsensus
    }
}

} // verus!
