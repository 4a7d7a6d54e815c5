use vstd::prelude::*;
use crate::consensus::{count_bullish, count_bearish};

verus! {

/// Direction and strength class of a strategy signal.
#[derive(Debug, Clone, Copy, PartialEq, Eq, Structural)]
pub enum SignalKind {
    StrongBuy,
    Buy,
    Hold,
    Sell,
    StrongSell,
}

/// Signal class used for correlation tracking between strategies.
#[derive(Debug, Clone, Copy, PartialEq, Eq, Structural)]
pub enum SignalType {
    Buy,
    Sell,
    Hold,
}

/// EMA crossover event.
#[derive(Debug, Clone, Copy, PartialEq, Eq, Structural)]
pub enum Cross {
    /// Fast average crossed above the slow one.
    Golden,
    /// Fast average crossed below the slow one.
    Death,
}

/// RSI divergence: price and RSI moving in opposite directions.
#[derive(Debug, Clone, Copy, PartialEq, Eq, Structural)]
pub enum RSIDivergence {
    /// Bullish divergence (potential bottom).
    Bullish,
    /// Bearish divergence (potential top).
    Bearish,
    /// No divergence detected.
    NoDivergence,
}

pub open spec fn spec_is_bullish(k: SignalKind) -> bool {
    k == SignalKind::Buy || k == SignalKind::StrongBuy
}

pub open spec fn spec_is_bearish(k: SignalKind) -> bool {
    k == SignalKind::Sell || k == SignalKind::StrongSell
}

pub open spec fn spec_signal_type(k: SignalKind) -> SignalType {
    if spec_is_bullish(k) {
        SignalType::Buy
    } else if spec_is_bearish(k) {
        SignalType::Sell
    } else {
        SignalType::Hold
    }
}

impl SignalKind {
    pub fn is_bullish(&self) -> (b: bool)
        ensures
            b == spec_is_bullish(*self),
    {
        matches!(self, SignalKind::Buy | SignalKind::StrongBuy)
    }

    pub fn is_bearish(&self) -> (b: bool)
        ensures
            b == spec_is_bearish(*self),
    {
        matches!(self, SignalKind::Sell | SignalKind::StrongSell)
    }

    /// The correlation class of this signal.
    pub fn signal_type(&self) -> (t: SignalType)
        ensures
            t == spec_signal_type(*self),
    {
        if self.is_bullish() {
            SignalType::Buy
        } else if self.is_bearish() {
            SignalType::Sell
        } else {
            SignalType::Hold
        }
    }
}

/// Pairwise crossover of a fast and a slow average, from the orderings of
/// the previous and the current pair (`Less`/`Greater` as -1/1, equal as 0).
pub open spec fn spec_detect_cross(prev_order: i8, cur_order: i8) -> Option<Cross> {
    if prev_order < 0 && cur_order > 0 {
        Some(Cross::Golden)
    } else if prev_order > 0 && cur_order < 0 {
        Some(Cross::Death)
    } else {
        None
    }
}

/// Detects a crossover from how the fast average compared with the slow
/// one before (`prev_order`) and now (`cur_order`): negative for below,
/// positive for above, zero for equal or incomparable.
pub fn detect_cross(prev_order: i8, cur_order: i8) -> (c: Option<Cross>)
    ensures
        c == spec_detect_cross(prev_order, cur_order),
{
    if prev_order < 0 && cur_order > 0 {
        Some(Cross::Golden)
    } else if prev_order > 0 && cur_order < 0 {
        Some(Cross::Death)
    } else {
        None
    }
}

/// RSI divergence over the last `lookback` points, from where the
/// extremes sit in that window: the price's lowest point last and the
/// RSI's lowest point first is bullish; the price's highest point last and
/// the RSI's highest point first is bearish (bullish is checked first).
pub open spec fn spec_divergence(lookback: usize, price_min_idx: usize, rsi_min_idx: usize, price_max_idx: usize, rsi_max_idx: usize) -> RSIDivergence {
    if price_min_idx == lookback - 1 && rsi_min_idx == 0 {
        RSIDivergence::Bullish
    } else if price_max_idx == lookback - 1 && rsi_max_idx == 0 {
        RSIDivergence::Bearish
    } else {
        RSIDivergence::NoDivergence
    }
}

/// Law: a divergence is reported exactly when its pattern holds. Bullish
/// means the price made its low at the latest point of the window while
/// the RSI made its low at the first point; bearish means the same of the
/// highs, when the bullish pattern does not hold; otherwise there is no
/// divergence.
pub proof fn lemma_divergence_patterns(
    lookback: usize,
    price_min_idx: usize,
    rsi_min_idx: usize,
    price_max_idx: usize,
    rsi_max_idx: usize,
)
    ensures
        spec_divergence(lookback, price_min_idx, rsi_min_idx, price_max_idx, rsi_max_idx)
            == RSIDivergence::Bullish <==> (price_min_idx + 1 == lookback && rsi_min_idx == 0),
        spec_divergence(lookback, price_min_idx, rsi_min_idx, price_max_idx, rsi_max_idx)
            == RSIDivergence::Bearish <==> (!(price_min_idx + 1 == lookback && rsi_min_idx == 0)
            && price_max_idx + 1 == lookback && rsi_max_idx == 0),
        spec_divergence(lookback, price_min_idx, rsi_min_idx, price_max_idx, rsi_max_idx)
            == RSIDivergence::NoDivergence <==> (!(price_min_idx + 1 == lookback && rsi_min_idx == 0)
            && !(price_max_idx + 1 == lookback && rsi_max_idx == 0)),
{
}

/// Detects RSI divergence. `None` of the positions means the histories
/// were shorter than `lookback`.
pub fn detect_rsi_divergence(lookback: usize, extremes: Option<(usize, usize, usize, usize)>) -> (d: RSIDivergence)
    requires
        extremes is Some ==> lookback > 0,
    ensures
        match extremes {
            None => d == RSIDivergence::NoDivergence,
            Some((pmin, rmin, pmax, rmax)) => d == spec_divergence(lookback, pmin, rmin, pmax, rmax),
        },
{
    match extremes {
        None => RSIDivergence::NoDivergence,
        Some((pmin, rmin, pmax, rmax)) => {
            if pmin == lookback - 1 && rmin == 0 {
                RSIDivergence::Bullish
            } else if pmax == lookback - 1 && rmax == 0 {
                RSIDivergence::Bearish
            } else {
                RSIDivergence::NoDivergence
            }
        },
    }
}

/// Integer counters of a strategy's signals.
#[derive(Debug, Clone, Copy, PartialEq, Eq, Structural)]
pub struct SignalCounts {
    pub signals_generated: u64,
    pub buy_signals: u64,
    pub sell_signals: u64,
    pub hold_signals: u64,
    pub active_trades: u64,
    pub rebalances_executed: u64,
}

impl SignalCounts {
    /// Every generated signal is counted under exactly one direction.
    pub open spec fn balanced(&self) -> bool {
        self.signals_generated == self.buy_signals + self.sell_signals + self.hold_signals
    }

    /// All counters zero.
    pub fn new() -> (c: Self)
        ensures
            c == (SignalCounts {
                signals_generated: 0,
                buy_signals: 0,
                sell_signals: 0,
                hold_signals: 0,
                active_trades: 0,
                rebalances_executed: 0,
            }),
    {
        SignalCounts {
            signals_generated: 0,
            buy_signals: 0,
            sell_signals: 0,
            hold_signals: 0,
            active_trades: 0,
            rebalances_executed: 0,
        }
    }

    /// Counts one generated signal under its direction.
    pub fn record_signal(&mut self, kind: SignalKind)
        requires
            old(self).signals_generated < u64::MAX,
            old(self).buy_signals < u64::MAX,
            old(self).sell_signals < u64::MAX,
            old(self).hold_signals < u64::MAX,
        ensures
            final(self).signals_generated == old(self).signals_generated + 1,
            final(self).buy_signals == old(self).buy_signals + (if spec_is_bullish(kind) { 1int } else { 0 }),
            final(self).sell_signals == old(self).sell_signals + (if spec_is_bearish(kind) { 1int } else { 0 }),
            final(self).hold_signals == old(self).hold_signals + (if kind == SignalKind::Hold { 1int } else { 0 }),
            final(self).active_trades == old(self).active_trades,
            final(self).rebalances_executed == old(self).rebalances_executed,
            old(self).balanced() ==> final(self).balanced(),
            *final(self) == spec_record_signal(*old(self), kind),
    {
        self.signals_generated = self.signals_generated + 1;
        match kind {
            SignalKind::Buy | SignalKind::StrongBuy => {
                self.buy_signals = self.buy_signals + 1;
            },
            SignalKind::Sell | SignalKind::StrongSell => {
                self.sell_signals = self.sell_signals + 1;
            },
            SignalKind::Hold => {
                self.hold_signals = self.hold_signals + 1;
            },
        }
    }
}

/// The counters after one signal of class `k`.
pub open spec fn spec_record_signal(c: SignalCounts, k: SignalKind) -> SignalCounts {
    SignalCounts {
        signals_generated: (c.signals_generated + 1) as u64,
        buy_signals: if spec_is_bullish(k) { (c.buy_signals + 1) as u64 } else { c.buy_signals },
        sell_signals: if spec_is_bearish(k) { (c.sell_signals + 1) as u64 } else { c.sell_signals },
        hold_signals: if k == SignalKind::Hold { (c.hold_signals + 1) as u64 } else { c.hold_signals },
        ..c
    }
}

/// The counters after recording each signal of `kinds` in turn.
pub open spec fn spec_record_run(c: SignalCounts, kinds: Seq<SignalKind>) -> SignalCounts
    decreases kinds.len(),
{
    if kinds.len() == 0 {
        c
    } else {
        spec_record_signal(spec_record_run(c, kinds.drop_last()), kinds.last())
    }
}

/// Number of holds in `s`.
pub open spec fn count_holds(s: Seq<SignalKind>) -> nat
    decreases s.len(),
{
    if s.len() == 0 {
        0
    } else {
        count_holds(s.drop_last()) + if s.last() == SignalKind::Hold { 1nat } else { 0 }
    }
}

/// Law: over a run of signals, the generated count grows by the run's
/// length and each direction counter by the number of signals of that
/// direction, so the counters stay balanced.
pub proof fn lemma_counts_over_run(c: SignalCounts, kinds: Seq<SignalKind>)
    requires
        c.balanced(),
        c.signals_generated + kinds.len() <= u64::MAX,
    ensures
        spec_record_run(c, kinds).signals_generated == c.signals_generated + kinds.len(),
        spec_record_run(c, kinds).buy_signals == c.buy_signals + count_bullish(kinds),
        spec_record_run(c, kinds).sell_signals == c.sell_signals + count_bearish(kinds),
        spec_record_run(c, kinds).hold_signals == c.hold_signals + count_holds(kinds),
        spec_record_run(c, kinds).active_trades == c.active_trades,
        spec_record_run(c, kinds).rebalances_executed == c.rebalances_executed,
        spec_record_run(c, kinds).balanced(),
    decreases kinds.len(),
{
    if kinds.len() > 0 {
        lemma_counts_over_run(c, kinds.drop_last());
    }
}

} // verus!
