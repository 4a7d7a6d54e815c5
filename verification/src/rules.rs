use vstd::prelude::*;
use crate::signal::{Cross, RSIDivergence, SignalKind, SignalType, spec_signal_type};

verus! {

/// How a value compares with a reference (an average, a signal line, zero).
#[derive(Debug, Clone, Copy, PartialEq, Eq, Structural)]
pub enum Relation {
    Below,
    Level,
    Above,
}

pub open spec fn mirror_relation(r: Relation) -> Relation {
    match r {
        Relation::Below => Relation::Above,
        Relation::Level => Relation::Level,
        Relation::Above => Relation::Below,
    }
}

/// The same signal with buying and selling swapped.
pub open spec fn mirror_kind(k: SignalKind) -> SignalKind {
    match k {
        SignalKind::StrongBuy => SignalKind::StrongSell,
        SignalKind::Buy => SignalKind::Sell,
        SignalKind::Hold => SignalKind::Hold,
        SignalKind::Sell => SignalKind::Buy,
        SignalKind::StrongSell => SignalKind::StrongBuy,
    }
}

pub open spec fn mirror_prev(r: Option<Relation>) -> Option<Relation> {
    match r {
        Some(p) => Some(mirror_relation(p)),
        None => None,
    }
}

pub open spec fn mirror_cross(c: Option<Cross>) -> Option<Cross> {
    match c {
        Some(Cross::Golden) => Some(Cross::Death),
        Some(Cross::Death) => Some(Cross::Golden),
        None => None,
    }
}

// ---------------------------------------------------------------------------
// Zone strategies (RSI, mean reversion)
// ---------------------------------------------------------------------------

/// The signal of a zone strategy: the first zone the reading lies in
/// decides, in the order strong buy, buy, strong sell, sell; otherwise hold.
pub open spec fn spec_tiered_signal(strong_buy: bool, buy: bool, strong_sell: bool, sell: bool) -> SignalKind {
    if strong_buy {
        SignalKind::StrongBuy
    } else if buy {
        SignalKind::Buy
    } else if strong_sell {
        SignalKind::StrongSell
    } else if sell {
        SignalKind::Sell
    } else {
        SignalKind::Hold
    }
}

pub fn tiered_signal(strong_buy: bool, buy: bool, strong_sell: bool, sell: bool) -> (k: SignalKind)
    ensures
        k == spec_tiered_signal(strong_buy, buy, strong_sell, sell),
{
    if strong_buy {
        SignalKind::StrongBuy
    } else if buy {
        SignalKind::Buy
    } else if strong_sell {
        SignalKind::StrongSell
    } else if sell {
        SignalKind::Sell
    } else {
        SignalKind::Hold
    }
}

/// The signal of a zone strategy (RSI, mean reversion) holding `samples`
/// prices of the `needed` it waits for: hold while warming up, then the
/// zone decides.
pub open spec fn spec_zone_signal(samples: usize, needed: usize, strong_buy: bool, buy: bool, strong_sell: bool, sell: bool) -> SignalKind {
    if samples < needed {
        SignalKind::Hold
    } else {
        spec_tiered_signal(strong_buy, buy, strong_sell, sell)
    }
}

pub fn zone_signal(samples: usize, needed: usize, strong_buy: bool, buy: bool, strong_sell: bool, sell: bool) -> (k: SignalKind)
    ensures
        k == spec_zone_signal(samples, needed, strong_buy, buy, strong_sell, sell),
{
    if samples < needed {
        SignalKind::Hold
    } else {
        tiered_signal(strong_buy, buy, strong_sell, sell)
    }
}

/// Law: with consistent zones (each strong zone inside its plain zone, the
/// buy and sell zones disjoint), swapping the buy and sell zones swaps the
/// signal.
pub proof fn lemma_tiered_mirror(strong_buy: bool, buy: bool, strong_sell: bool, sell: bool)
    requires
        strong_buy ==> buy,
        strong_sell ==> sell,
        !(buy && sell),
    ensures
        spec_tiered_signal(strong_sell, sell, strong_buy, buy) == mirror_kind(spec_tiered_signal(strong_buy, buy, strong_sell, sell)),
{
}

// ---------------------------------------------------------------------------
// Crossovers (moving averages, MACD)
// ---------------------------------------------------------------------------

/// A crossover from the previous and the current relation of a fast line to
/// a slow one: golden when it was at or below and is now above, death when
/// it was at or above and is now below. No previous reading, no crossover.
pub open spec fn spec_crossover(prev: Option<Relation>, cur: Relation) -> Option<Cross> {
    match prev {
        None => None,
        Some(p) => if p != Relation::Above && cur == Relation::Above {
            Some(Cross::Golden)
        } else if p != Relation::Below && cur == Relation::Below {
            Some(Cross::Death)
        } else {
            None
        },
    }
}

pub fn crossover(prev: Option<Relation>, cur: Relation) -> (c: Option<Cross>)
    ensures
        c == spec_crossover(prev, cur),
{
    match prev {
        None => None,
        Some(p) => {
            if p != Relation::Above && cur == Relation::Above {
                Some(Cross::Golden)
            } else if p != Relation::Below && cur == Relation::Below {
                Some(Cross::Death)
            } else {
                None
            }
        },
    }
}

/// Law: a crossover happens exactly when the fast line moves to the other
/// side of the slow one, and mirroring both readings mirrors it.
pub proof fn lemma_crossover_mirror(prev: Option<Relation>, cur: Relation)
    ensures
        spec_crossover(mirror_prev(prev), mirror_relation(cur)) == mirror_cross(spec_crossover(prev, cur)),
        spec_crossover(prev, cur) == Some(Cross::Golden) ==> cur == Relation::Above && prev != Some(Relation::Above),
        spec_crossover(prev, cur) == Some(Cross::Death) ==> cur == Relation::Below && prev != Some(Relation::Below),
        prev == Some(cur) ==> spec_crossover(prev, cur) is None,
{
}

// ---------------------------------------------------------------------------
// Moving-average momentum strategy
// ---------------------------------------------------------------------------

/// Which rule of the moving-average momentum strategy fired.
#[derive(Debug, Clone, Copy, PartialEq, Eq, Structural)]
pub enum MomentumRule {
    /// Golden cross: strong buy at full size.
    GoldenCross,
    /// Death cross: strong sell at full size.
    DeathCross,
    /// Fast average above the slow one with enough confidence: buy at half size.
    Uptrend,
    /// Fast average below the slow one with enough confidence: sell at half size.
    Downtrend,
    /// Nothing to do.
    NoTrend,
    /// Fewer prices than the slow period so far: hold.
    Warmup,
}

/// The momentum strategy's decision once it holds `samples` prices of the
/// `needed` (slow period) it waits for.
pub open spec fn spec_momentum_rule(samples: usize, needed: usize, cross: Option<Cross>, fast_vs_slow: Relation, confident: bool) -> MomentumRule {
    if samples < needed {
        MomentumRule::Warmup
    } else {
        match cross {
            Some(Cross::Golden) => MomentumRule::GoldenCross,
            Some(Cross::Death) => MomentumRule::DeathCross,
            None => if fast_vs_slow == Relation::Above && confident {
                MomentumRule::Uptrend
            } else if fast_vs_slow == Relation::Below && confident {
                MomentumRule::Downtrend
            } else {
                MomentumRule::NoTrend
            },
        }
    }
}

pub open spec fn spec_momentum_kind(r: MomentumRule) -> SignalKind {
    match r {
        MomentumRule::GoldenCross => SignalKind::StrongBuy,
        MomentumRule::DeathCross => SignalKind::StrongSell,
        MomentumRule::Uptrend => SignalKind::Buy,
        MomentumRule::Downtrend => SignalKind::Sell,
        MomentumRule::NoTrend | MomentumRule::Warmup => SignalKind::Hold,
    }
}

pub fn momentum_rule(samples: usize, needed: usize, cross: Option<Cross>, fast_vs_slow: Relation, confident: bool) -> (r: MomentumRule)
    ensures
        r == spec_momentum_rule(samples, needed, cross, fast_vs_slow, confident),
{
    if samples < needed {
        return MomentumRule::Warmup;
    }
    match cross {
        Some(Cross::Golden) => MomentumRule::GoldenCross,
        Some(Cross::Death) => MomentumRule::DeathCross,
        None => {
            if fast_vs_slow == Relation::Above && confident {
                MomentumRule::Uptrend
            } else if fast_vs_slow == Relation::Below && confident {
                MomentumRule::Downtrend
            } else {
                MomentumRule::NoTrend
            }
        },
    }
}

impl MomentumRule {
    /// The signal class of the rule.
    pub fn kind(&self) -> (k: SignalKind)
        ensures
            k == spec_momentum_kind(*self),
    {
        match self {
            MomentumRule::GoldenCross => SignalKind::StrongBuy,
            MomentumRule::DeathCross => SignalKind::StrongSell,
            MomentumRule::Uptrend => SignalKind::Buy,
            MomentumRule::Downtrend => SignalKind::Sell,
            MomentumRule::NoTrend | MomentumRule::Warmup => SignalKind::Hold,
        }
    }

    /// Order size of the rule, in tenths of the base size.
    pub fn size_tenths(&self) -> (s: u8)
        ensures
            s == (match *self {
                MomentumRule::GoldenCross | MomentumRule::DeathCross => 10u8,
                MomentumRule::Uptrend | MomentumRule::Downtrend => 5u8,
                MomentumRule::NoTrend | MomentumRule::Warmup => 0u8,
            }),
    {
        match self {
            MomentumRule::GoldenCross | MomentumRule::DeathCross => 10,
            MomentumRule::Uptrend | MomentumRule::Downtrend => 5,
            MomentumRule::NoTrend | MomentumRule::Warmup => 0,
        }
    }
}

/// Law: the momentum strategy treats rising and falling markets alike.
pub proof fn lemma_momentum_mirror(samples: usize, needed: usize, cross: Option<Cross>, fast_vs_slow: Relation, confident: bool)
    ensures
        spec_momentum_kind(spec_momentum_rule(samples, needed, mirror_cross(cross), mirror_relation(fast_vs_slow), confident))
            == mirror_kind(spec_momentum_kind(spec_momentum_rule(samples, needed, cross, fast_vs_slow, confident))),
        samples >= needed && !confident && cross is None
            ==> spec_momentum_rule(samples, needed, cross, fast_vs_slow, confident) == MomentumRule::NoTrend,
        samples < needed ==> spec_momentum_rule(samples, needed, cross, fast_vs_slow, confident) == MomentumRule::Warmup,
{
}

// ---------------------------------------------------------------------------
// MACD momentum strategy
// ---------------------------------------------------------------------------

/// Market trend read from the MACD line and histogram.
#[derive(Debug, Clone, Copy, PartialEq, Eq, Structural)]
pub enum MacdTrend {
    StrongBullish,
    WeakBullish,
    Neutral,
    WeakBearish,
    StrongBearish,
}

/// Trend from the sign of the MACD line (against zero) and of the
/// histogram: a positive line with a positive histogram is strongly
/// bullish, with any other histogram weakly bullish; mirrored below zero.
pub open spec fn spec_macd_trend(line: Relation, histogram: Relation) -> MacdTrend {
    match line {
        Relation::Above => if histogram == Relation::Above {
            MacdTrend::StrongBullish
        } else {
            MacdTrend::WeakBullish
        },
        Relation::Below => if histogram == Relation::Below {
            MacdTrend::StrongBearish
        } else {
            MacdTrend::WeakBearish
        },
        Relation::Level => MacdTrend::Neutral,
    }
}

pub fn macd_trend(line: Relation, histogram: Relation) -> (t: MacdTrend)
    ensures
        t == spec_macd_trend(line, histogram),
{
    match line {
        Relation::Above => {
            if histogram == Relation::Above {
                MacdTrend::StrongBullish
            } else {
                MacdTrend::WeakBullish
            }
        },
        Relation::Below => {
            if histogram == Relation::Below {
                MacdTrend::StrongBearish
            } else {
                MacdTrend::WeakBearish
            }
        },
        Relation::Level => MacdTrend::Neutral,
    }
}

/// Which rule of the MACD momentum strategy fired.
#[derive(Debug, Clone, Copy, PartialEq, Eq, Structural)]
pub enum MacdRule {
    /// Still warming up: hold.
    Warmup,
    /// MACD crossed above its signal line: strong buy at full size.
    BullishCross,
    /// MACD crossed below its signal line: strong sell at full size.
    BearishCross,
    /// Strong uptrend with enough confidence: strong buy at 0.6.
    StrongUptrend,
    /// Weak uptrend with a positive histogram and enough confidence: buy at 0.4.
    WeakUptrend,
    /// Strong downtrend with enough confidence: sell at 0.6.
    StrongDowntrend,
    /// Weak downtrend with a negative histogram and enough confidence: sell at 0.4.
    WeakDowntrend,
    /// Nothing to do.
    NoSignal,
}

/// The MACD strategy's decision after `periods` prices (this one
/// included), before `min_warmup` of which it only holds.
pub open spec fn spec_macd_rule(
    periods: u64,
    min_warmup: u64,
    cross: Option<Cross>,
    trend: MacdTrend,
    confident: bool,
    histogram: Relation,
) -> MacdRule {
    if periods < min_warmup {
        MacdRule::Warmup
    } else {
        match cross {
            Some(Cross::Golden) => MacdRule::BullishCross,
            Some(Cross::Death) => MacdRule::BearishCross,
            None => if trend == MacdTrend::StrongBullish && confident {
                MacdRule::StrongUptrend
            } else if trend == MacdTrend::WeakBullish && confident && histogram == Relation::Above {
                MacdRule::WeakUptrend
            } else if trend == MacdTrend::StrongBearish && confident {
                MacdRule::StrongDowntrend
            } else if trend == MacdTrend::WeakBearish && confident && histogram == Relation::Below {
                MacdRule::WeakDowntrend
            } else {
                MacdRule::NoSignal
            },
        }
    }
}

pub open spec fn spec_macd_kind(r: MacdRule) -> SignalKind {
    match r {
        MacdRule::BullishCross | MacdRule::StrongUptrend => SignalKind::StrongBuy,
        MacdRule::BearishCross => SignalKind::StrongSell,
        MacdRule::WeakUptrend => SignalKind::Buy,
        MacdRule::StrongDowntrend | MacdRule::WeakDowntrend => SignalKind::Sell,
        MacdRule::Warmup | MacdRule::NoSignal => SignalKind::Hold,
    }
}

pub fn macd_rule(
    periods: u64,
    min_warmup: u64,
    cross: Option<Cross>,
    trend: MacdTrend,
    confident: bool,
    histogram: Relation,
) -> (r: MacdRule)
    ensures
        r == spec_macd_rule(periods, min_warmup, cross, trend, confident, histogram),
{
    if periods < min_warmup {
        return MacdRule::Warmup;
    }
    match cross {
        Some(Cross::Golden) => MacdRule::BullishCross,
        Some(Cross::Death) => MacdRule::BearishCross,
        None => {
            if trend == MacdTrend::StrongBullish && confident {
                MacdRule::StrongUptrend
            } else if trend == MacdTrend::WeakBullish && confident && histogram == Relation::Above {
                MacdRule::WeakUptrend
            } else if trend == MacdTrend::StrongBearish && confident {
                MacdRule::StrongDowntrend
            } else if trend == MacdTrend::WeakBearish && confident && histogram == Relation::Below {
                MacdRule::WeakDowntrend
            } else {
                MacdRule::NoSignal
            }
        },
    }
}

impl MacdRule {
    /// The signal class of the rule.
    pub fn kind(&self) -> (k: SignalKind)
        ensures
            k == spec_macd_kind(*self),
    {
        match self {
            MacdRule::BullishCross | MacdRule::StrongUptrend => SignalKind::StrongBuy,
            MacdRule::BearishCross => SignalKind::StrongSell,
            MacdRule::WeakUptrend => SignalKind::Buy,
            MacdRule::StrongDowntrend | MacdRule::WeakDowntrend => SignalKind::Sell,
            MacdRule::Warmup | MacdRule::NoSignal => SignalKind::Hold,
        }
    }

    /// Order size of the rule, in tenths of the base size.
    pub fn size_tenths(&self) -> (s: u8)
        ensures
            s == (match *self {
                MacdRule::BullishCross | MacdRule::BearishCross => 10u8,
                MacdRule::StrongUptrend | MacdRule::StrongDowntrend => 6u8,
                MacdRule::WeakUptrend | MacdRule::WeakDowntrend => 4u8,
                MacdRule::Warmup | MacdRule::NoSignal => 0u8,
            }),
    {
        match self {
            MacdRule::BullishCross | MacdRule::BearishCross => 10,
            MacdRule::StrongUptrend | MacdRule::StrongDowntrend => 6,
            MacdRule::WeakUptrend | MacdRule::WeakDowntrend => 4,
            MacdRule::Warmup | MacdRule::NoSignal => 0,
        }
    }
}

/// Law: when the trend is read from the same histogram that the weak-trend
/// rules test, those rules can never fire: a weakly bullish trend has a
/// histogram at or below zero and a weakly bearish one a histogram at or
/// above zero. Weak trends therefore always hold.
pub proof fn lemma_weak_macd_trend_holds(
    periods: u64,
    min_warmup: u64,
    line: Relation,
    histogram: Relation,
    confident: bool,
)
    ensures
        spec_macd_rule(periods, min_warmup, None, spec_macd_trend(line, histogram), confident, histogram) != MacdRule::WeakUptrend,
        spec_macd_rule(periods, min_warmup, None, spec_macd_trend(line, histogram), confident, histogram) != MacdRule::WeakDowntrend,
        (spec_macd_trend(line, histogram) == MacdTrend::WeakBullish || spec_macd_trend(line, histogram) == MacdTrend::WeakBearish)
            ==> spec_macd_kind(spec_macd_rule(periods, min_warmup, None, spec_macd_trend(line, histogram), confident, histogram)) == SignalKind::Hold,
{
}

pub open spec fn mirror_type(t: SignalType) -> SignalType {
    match t {
        SignalType::Buy => SignalType::Sell,
        SignalType::Sell => SignalType::Buy,
        SignalType::Hold => SignalType::Hold,
    }
}

/// Law: the MACD strategy trades rising and falling markets in mirrored
/// directions (a strong uptrend is a strong buy, a strong downtrend a
/// plain sell, so only the direction mirrors).
pub proof fn lemma_macd_mirror(
    periods: u64,
    min_warmup: u64,
    cross: Option<Cross>,
    line: Relation,
    histogram: Relation,
    confident: bool,
)
    ensures
        spec_signal_type(spec_macd_kind(spec_macd_rule(periods, min_warmup, mirror_cross(cross),
            spec_macd_trend(mirror_relation(line), mirror_relation(histogram)), confident, mirror_relation(histogram))))
            == mirror_type(spec_signal_type(spec_macd_kind(spec_macd_rule(periods, min_warmup, cross,
            spec_macd_trend(line, histogram), confident, histogram)))),
{
}

// ---------------------------------------------------------------------------
// Enhanced RSI strategy
// ---------------------------------------------------------------------------

/// Price against its long moving average: more than 1% above is strongly
/// bullish, above is bullish, more than 1% below strongly bearish, below is
/// bearish; unknown before the average exists or at the average itself.
#[derive(Debug, Clone, Copy, PartialEq, Eq, Structural)]
pub enum MaTrend {
    StrongBullish,
    Bullish,
    Bearish,
    StrongBearish,
    Unknown,
}

pub open spec fn mirror_ma_trend(t: MaTrend) -> MaTrend {
    match t {
        MaTrend::StrongBullish => MaTrend::StrongBearish,
        MaTrend::Bullish => MaTrend::Bearish,
        MaTrend::Bearish => MaTrend::Bullish,
        MaTrend::StrongBearish => MaTrend::StrongBullish,
        MaTrend::Unknown => MaTrend::Unknown,
    }
}

pub open spec fn mirror_divergence(d: RSIDivergence) -> RSIDivergence {
    match d {
        RSIDivergence::Bullish => RSIDivergence::Bearish,
        RSIDivergence::Bearish => RSIDivergence::Bullish,
        RSIDivergence::NoDivergence => RSIDivergence::NoDivergence,
    }
}

/// Where the RSI reading lies: below the oversold threshold, above the
/// overbought one, at or below the extreme oversold one, at or above the
/// extreme overbought one.
#[derive(Debug, Clone, Copy, PartialEq, Eq, Structural)]
pub struct RsiZones {
    pub oversold: bool,
    pub overbought: bool,
    pub extreme_oversold: bool,
    pub extreme_overbought: bool,
}

impl RsiZones {
    /// The extreme zones lie inside the plain ones, and a reading is never
    /// both oversold and overbought (thresholds in their usual order).
    pub open spec fn consistent(&self) -> bool {
        &&& self.extreme_oversold ==> self.oversold
        &&& self.extreme_overbought ==> self.overbought
        &&& !(self.oversold && self.overbought)
    }

    pub open spec fn mirrored(&self) -> RsiZones {
        RsiZones {
            oversold: self.overbought,
            overbought: self.oversold,
            extreme_oversold: self.extreme_overbought,
            extreme_overbought: self.extreme_oversold,
        }
    }
}

/// Which rule of the enhanced RSI strategy fired, in priority order.
#[derive(Debug, Clone, Copy, PartialEq, Eq, Structural)]
pub enum RsiRule {
    /// Oversold, bullish divergence and strong uptrend: strong buy at full size.
    TripleBuy,
    /// Overbought, bearish divergence and strong downtrend: strong sell at full size.
    TripleSell,
    /// Extremely oversold in an uptrend, confident: strong buy at 0.8.
    ExtremeBuy,
    /// Extremely overbought in a downtrend, confident: strong sell at 0.8.
    ExtremeSell,
    /// Oversold with bullish divergence in an uptrend, confident: buy at 0.6.
    DivergenceBuy,
    /// Overbought with bearish divergence in a downtrend, confident: sell at 0.6.
    DivergenceSell,
    /// Oversold in an uptrend, confident: buy at 0.5.
    TrendBuy,
    /// Overbought in a downtrend, confident: sell at 0.5.
    TrendSell,
    /// Nothing to do.
    NoSignal,
    /// Fewer prices than the RSI period so far: hold.
    Warmup,
}

pub open spec fn is_up(t: MaTrend) -> bool {
    t == MaTrend::Bullish || t == MaTrend::StrongBullish
}

pub open spec fn is_down(t: MaTrend) -> bool {
    t == MaTrend::Bearish || t == MaTrend::StrongBearish
}

/// The enhanced RSI strategy's decision once it holds `samples` prices of
/// the `needed` (RSI period) it waits for.
pub open spec fn spec_rsi_rule(samples: usize, needed: usize, z: RsiZones, div: RSIDivergence, trend: MaTrend, confident: bool) -> RsiRule {
    if samples < needed {
        RsiRule::Warmup
    } else if z.oversold && div == RSIDivergence::Bullish && trend == MaTrend::StrongBullish {
        RsiRule::TripleBuy
    } else if z.overbought && div == RSIDivergence::Bearish && trend == MaTrend::StrongBearish {
        RsiRule::TripleSell
    } else if z.extreme_oversold && is_up(trend) && confident {
        RsiRule::ExtremeBuy
    } else if z.extreme_overbought && is_down(trend) && confident {
        RsiRule::ExtremeSell
    } else if z.oversold && div == RSIDivergence::Bullish && is_up(trend) && confident {
        RsiRule::DivergenceBuy
    } else if z.overbought && div == RSIDivergence::Bearish && is_down(trend) && confident {
        RsiRule::DivergenceSell
    } else if z.oversold && is_up(trend) && confident {
        RsiRule::TrendBuy
    } else if z.overbought && is_down(trend) && confident {
        RsiRule::TrendSell
    } else {
        RsiRule::NoSignal
    }
}

pub open spec fn spec_rsi_kind(r: RsiRule) -> SignalKind {
    match r {
        RsiRule::TripleBuy | RsiRule::ExtremeBuy => SignalKind::StrongBuy,
        RsiRule::TripleSell | RsiRule::ExtremeSell => SignalKind::StrongSell,
        RsiRule::DivergenceBuy | RsiRule::TrendBuy => SignalKind::Buy,
        RsiRule::DivergenceSell | RsiRule::TrendSell => SignalKind::Sell,
        RsiRule::NoSignal | RsiRule::Warmup => SignalKind::Hold,
    }
}

fn trend_up(t: MaTrend) -> (b: bool)
    ensures
        b == is_up(t),
{
    t == MaTrend::Bullish || t == MaTrend::StrongBullish
}

fn trend_down(t: MaTrend) -> (b: bool)
    ensures
        b == is_down(t),
{
    t == MaTrend::Bearish || t == MaTrend::StrongBearish
}

/// The enhanced RSI strategy's decision table: the first rule that holds wins.
pub fn rsi_rule(samples: usize, needed: usize, z: RsiZones, div: RSIDivergence, trend: MaTrend, confident: bool) -> (r: RsiRule)
    ensures
        r == spec_rsi_rule(samples, needed, z, div, trend, confident),
{
    if samples < needed {
        RsiRule::Warmup
    } else if z.oversold && div == RSIDivergence::Bullish && trend == MaTrend::StrongBullish {
        RsiRule::TripleBuy
    } else if z.overbought && div == RSIDivergence::Bearish && trend == MaTrend::StrongBearish {
        RsiRule::TripleSell
    } else if z.extreme_oversold && trend_up(trend) && confident {
        RsiRule::ExtremeBuy
    } else if z.extreme_overbought && trend_down(trend) && confident {
        RsiRule::ExtremeSell
    } else if z.oversold && div == RSIDivergence::Bullish && trend_up(trend) && confident {
        RsiRule::DivergenceBuy
    } else if z.overbought && div == RSIDivergence::Bearish && trend_down(trend) && confident {
        RsiRule::DivergenceSell
    } else if z.oversold && trend_up(trend) && confident {
        RsiRule::TrendBuy
    } else if z.overbought && trend_down(trend) && confident {
        RsiRule::TrendSell
    } else {
        RsiRule::NoSignal
    }
}

impl RsiRule {
    /// The signal class of the rule.
    pub fn kind(&self) -> (k: SignalKind)
        ensures
            k == spec_rsi_kind(*self),
    {
        match self {
            RsiRule::TripleBuy | RsiRule::ExtremeBuy => SignalKind::StrongBuy,
            RsiRule::TripleSell | RsiRule::ExtremeSell => SignalKind::StrongSell,
            RsiRule::DivergenceBuy | RsiRule::TrendBuy => SignalKind::Buy,
            RsiRule::DivergenceSell | RsiRule::TrendSell => SignalKind::Sell,
            RsiRule::NoSignal | RsiRule::Warmup => SignalKind::Hold,
        }
    }

    /// Order size of the rule, in tenths of the base size.
    pub fn size_tenths(&self) -> (s: u8)
        ensures
            s == (match *self {
                RsiRule::TripleBuy | RsiRule::TripleSell => 10u8,
                RsiRule::ExtremeBuy | RsiRule::ExtremeSell => 8u8,
                RsiRule::DivergenceBuy | RsiRule::DivergenceSell => 6u8,
                RsiRule::TrendBuy | RsiRule::TrendSell => 5u8,
                RsiRule::NoSignal | RsiRule::Warmup => 0u8,
            }),
    {
        match self {
            RsiRule::TripleBuy | RsiRule::TripleSell => 10,
            RsiRule::ExtremeBuy | RsiRule::ExtremeSell => 8,
            RsiRule::DivergenceBuy | RsiRule::DivergenceSell => 6,
            RsiRule::TrendBuy | RsiRule::TrendSell => 5,
            RsiRule::NoSignal | RsiRule::Warmup => 0,
        }
    }
}

/// Law: with consistent zones, the enhanced RSI strategy treats oversold
/// and overbought markets alike, buys only when oversold, sells only when
/// overbought, and needs confidence for anything but triple confirmation.
pub proof fn lemma_rsi_rule_mirror(samples: usize, needed: usize, z: RsiZones, div: RSIDivergence, trend: MaTrend, confident: bool)
    requires
        z.consistent(),
    ensures
        spec_rsi_kind(spec_rsi_rule(samples, needed, z.mirrored(), mirror_divergence(div), mirror_ma_trend(trend), confident))
            == mirror_kind(spec_rsi_kind(spec_rsi_rule(samples, needed, z, div, trend, confident))),
        (spec_rsi_kind(spec_rsi_rule(samples, needed, z, div, trend, confident)) == SignalKind::Buy
            || spec_rsi_kind(spec_rsi_rule(samples, needed, z, div, trend, confident)) == SignalKind::StrongBuy) ==> z.oversold,
        (spec_rsi_kind(spec_rsi_rule(samples, needed, z, div, trend, confident)) == SignalKind::Sell
            || spec_rsi_kind(spec_rsi_rule(samples, needed, z, div, trend, confident)) == SignalKind::StrongSell) ==> z.overbought,
        !confident ==> (spec_rsi_rule(samples, needed, z, div, trend, confident) == RsiRule::TripleBuy
            || spec_rsi_rule(samples, needed, z, div, trend, confident) == RsiRule::TripleSell
            || spec_rsi_rule(samples, needed, z, div, trend, confident) == RsiRule::NoSignal
            || spec_rsi_rule(samples, needed, z, div, trend, confident) == RsiRule::Warmup),
{
}

/// Law (moving-average confirmation): the enhanced RSI strategy buys only
/// when the price is above its long average (bullish or strongly bullish
/// trend) and sells only when it is below (bearish or strongly bearish);
/// with the average still unknown, or before the RSI period is filled, it
/// never trades.
pub proof fn lemma_rsi_rule_needs_trend(samples: usize, needed: usize, z: RsiZones, div: RSIDivergence, trend: MaTrend, confident: bool)
    ensures
        (spec_rsi_kind(spec_rsi_rule(samples, needed, z, div, trend, confident)) == SignalKind::Buy
            || spec_rsi_kind(spec_rsi_rule(samples, needed, z, div, trend, confident)) == SignalKind::StrongBuy) ==> is_up(trend),
        (spec_rsi_kind(spec_rsi_rule(samples, needed, z, div, trend, confident)) == SignalKind::Sell
            || spec_rsi_kind(spec_rsi_rule(samples, needed, z, div, trend, confident)) == SignalKind::StrongSell) ==> is_down(trend),
        trend == MaTrend::Unknown ==> spec_rsi_kind(spec_rsi_rule(samples, needed, z, div, trend, confident)) == SignalKind::Hold,
        samples < needed ==> spec_rsi_rule(samples, needed, z, div, trend, confident) == RsiRule::Warmup,
{
}

/// Law: with no crossover and enough confidence, a strong MACD uptrend
/// (line and histogram above zero) is a strong buy and a strong downtrend a
/// sell.
pub proof fn lemma_strong_macd_trend_is_strong(periods: u64, min_warmup: u64, line: Relation, histogram: Relation)
    requires
        periods >= min_warmup,
    ensures
        line == Relation::Above && histogram == Relation::Above ==> spec_macd_kind(
            spec_macd_rule(periods, min_warmup, None, spec_macd_trend(line, histogram), true, histogram),
        ) == SignalKind::StrongBuy,
        line == Relation::Below && histogram == Relation::Below ==> spec_macd_kind(
            spec_macd_rule(periods, min_warmup, None, spec_macd_trend(line, histogram), true, histogram),
        ) == SignalKind::Sell,
{
}

} // verus!
