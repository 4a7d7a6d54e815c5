use vstd::prelude::*;
use vstd::string::*;
use crate::signal::SignalCounts;
use crate::circuit_breaker::elapsed_ms;
use crate::fee_filter::FeeFilterCounters;

verus! {

/// Default of `seed_orders_bypass`: the initial grid is placed without fee filtering.
pub fn default_seed_orders_bypass() -> (b: bool)
    ensures
        b,
{
    true
}

/// Seeding state of the grid: while seeding, orders bypass the fee filter.
#[derive(Debug, Clone, Copy, PartialEq, Eq, Structural)]
pub struct SeedGate {
    pub seed_orders_bypass: bool,
    pub orders_seeded: bool,
}

impl SeedGate {
    pub fn new(seed_orders_bypass: bool) -> (g: Self)
        ensures
            g == (SeedGate { seed_orders_bypass, orders_seeded: false }),
    {
        SeedGate { seed_orders_bypass, orders_seeded: false }
    }

    /// True while the initial grid is still being placed with the bypass on.
    pub fn is_seeding(&self) -> (b: bool)
        ensures
            b == (self.seed_orders_bypass && !self.orders_seeded),
    {
        self.seed_orders_bypass && !self.orders_seeded
    }

    /// Ends the seeding phase; returns whether this call ended it.
    pub fn mark_seeding_complete(&mut self) -> (changed: bool)
        ensures
            changed == (old(self).seed_orders_bypass && !old(self).orders_seeded),
            final(self).seed_orders_bypass == old(self).seed_orders_bypass,
            final(self).orders_seeded == (old(self).orders_seeded || old(self).seed_orders_bypass),
            !final(self).is_seeding_spec(),
    {
        if self.seed_orders_bypass && !self.orders_seeded {
            self.orders_seeded = true;
            true
        } else {
            false
        }
    }

    pub open spec fn is_seeding_spec(&self) -> bool {
        self.seed_orders_bypass && !self.orders_seeded
    }

    /// Back to the start of seeding.
    pub fn reset(&mut self)
        ensures
            *final(self) == (SeedGate { orders_seeded: false, ..*old(self) }),
    {
        self.orders_seeded = false;
    }
}

/// Why an order passes before the fee check runs.
#[derive(Debug, Clone, Copy, PartialEq, Eq, Structural)]
pub enum PlacementGate {
    FeeFilteringDisabled,
    SeedBypass,
    NoPriceYet,
    /// None of the above: the fee (or spread) check decides.
    CheckFees,
}

/// The first gates of order placement, in order: fee filtering switched
/// off, the seed bypass, no price seen yet.
pub fn placement_gate(enable_fee_filtering: bool, seed: SeedGate, has_price: bool) -> (g: PlacementGate)
    ensures
        g == (if !enable_fee_filtering {
            PlacementGate::FeeFilteringDisabled
        } else if seed.is_seeding_spec() {
            PlacementGate::SeedBypass
        } else if !has_price {
            PlacementGate::NoPriceYet
        } else {
            PlacementGate::CheckFees
        }),
{
    if !enable_fee_filtering {
        PlacementGate::FeeFilteringDisabled
    } else if seed.is_seeding() {
        PlacementGate::SeedBypass
    } else if !has_price {
        PlacementGate::NoPriceYet
    } else {
        PlacementGate::CheckFees
    }
}

/// Why the regime gate paused trading.
#[derive(Debug, Clone, Copy, PartialEq, Eq, Structural)]
pub enum PauseCause {
    NotPaused,
    VeryLowVolRegime,
    LowVolatility,
}

/// Pause state of the grid's market regime gate.
#[derive(Debug, Clone, Copy, PartialEq, Eq, Structural)]
pub struct RegimeGate {
    pub paused: bool,
    pub cause: PauseCause,
}

/// The regime pause state after one check, and whether trading may go on.
/// `very_low`: the regime is VERY_LOW_VOL; `below_min`: volatility under the minimum.
pub open spec fn spec_regime_check(
    g: RegimeGate,
    enabled: bool,
    pause_in_very_low_vol: bool,
    very_low: bool,
    below_min: bool,
) -> (RegimeGate, bool) {
    if !enabled {
        (g, true)
    } else if pause_in_very_low_vol && very_low {
        (if g.paused { g } else { RegimeGate { paused: true, cause: PauseCause::VeryLowVolRegime } }, false)
    } else if below_min {
        (if g.paused { g } else { RegimeGate { paused: true, cause: PauseCause::LowVolatility } }, false)
    } else {
        (RegimeGate { paused: false, cause: PauseCause::NotPaused }, true)
    }
}

impl RegimeGate {
    pub open spec fn wf(&self) -> bool {
        self.paused == (self.cause != PauseCause::NotPaused)
    }

    pub fn new() -> (g: Self)
        ensures
            g.wf(),
            !g.paused,
    {
        RegimeGate { paused: false, cause: PauseCause::NotPaused }
    }

    /// Checks whether trading may go on; pauses (keeping the first cause)
    /// or resumes accordingly.
    pub fn should_trade_now(&mut self, enabled: bool, pause_in_very_low_vol: bool, very_low: bool, below_min: bool) -> (ok: bool)
        requires
            old(self).wf(),
        ensures
            final(self).wf(),
            (*final(self), ok) == spec_regime_check(*old(self), enabled, pause_in_very_low_vol, very_low, below_min),
    {
        if !enabled {
            return true;
        }
        if pause_in_very_low_vol && very_low {
            if !self.paused {
                self.paused = true;
                self.cause = PauseCause::VeryLowVolRegime;
            }
            return false;
        }
        if below_min {
            if !self.paused {
                self.paused = true;
                self.cause = PauseCause::LowVolatility;
            }
            return false;
        }
        if self.paused {
            self.paused = false;
            self.cause = PauseCause::NotPaused;
        }
        true
    }
}

/// Law: what one regime check decides. A disabled gate allows trading and
/// changes nothing. An enabled gate refuses trading, and is paused
/// afterwards, when the regime is very low volatility (with pausing in it
/// switched on) or the volatility is under the minimum; a gate that was
/// already paused keeps its cause, a fresh pause records the first reason
/// that held. Otherwise an enabled gate allows trading and is unpaused.
pub proof fn lemma_regime_gate_decisions(
    g: RegimeGate,
    enabled: bool,
    pause_in_very_low_vol: bool,
    very_low: bool,
    below_min: bool,
)
    requires
        g.wf(),
    ensures
        spec_regime_check(g, enabled, pause_in_very_low_vol, very_low, below_min).0.wf(),
        !enabled ==> spec_regime_check(g, enabled, pause_in_very_low_vol, very_low, below_min) == (
        g,
        true,
        ),
        enabled ==> (spec_regime_check(g, enabled, pause_in_very_low_vol, very_low, below_min).1 <==> !(
        (pause_in_very_low_vol && very_low) || below_min)),
        enabled ==> (spec_regime_check(g, enabled, pause_in_very_low_vol, very_low, below_min).1 <==> !
        spec_regime_check(g, enabled, pause_in_very_low_vol, very_low, below_min).0.paused),
        enabled && below_min ==> !spec_regime_check(
            g,
            enabled,
            pause_in_very_low_vol,
            very_low,
            below_min,
        ).1 && spec_regime_check(g, enabled, pause_in_very_low_vol, very_low, below_min).0.paused,
        enabled && pause_in_very_low_vol && very_low ==> !spec_regime_check(
            g,
            enabled,
            pause_in_very_low_vol,
            very_low,
            below_min,
        ).1 && spec_regime_check(g, enabled, pause_in_very_low_vol, very_low, below_min).0.paused,
        enabled && g.paused && ((pause_in_very_low_vol && very_low) || below_min) ==> spec_regime_check(
            g,
            enabled,
            pause_in_very_low_vol,
            very_low,
            below_min,
        ).0 == g,
        enabled && !g.paused && pause_in_very_low_vol && very_low ==> spec_regime_check(
            g,
            enabled,
            pause_in_very_low_vol,
            very_low,
            below_min,
        ).0.cause == PauseCause::VeryLowVolRegime,
        enabled && !g.paused && !(pause_in_very_low_vol && very_low) && below_min ==> spec_regime_check(
            g,
            enabled,
            pause_in_very_low_vol,
            very_low,
            below_min,
        ).0.cause == PauseCause::LowVolatility,
        enabled && !((pause_in_very_low_vol && very_low) || below_min) ==> spec_regime_check(
            g,
            enabled,
            pause_in_very_low_vol,
            very_low,
            below_min,
        ).0 == (RegimeGate { paused: false, cause: PauseCause::NotPaused }),
{
}

/// Strategy counters of the grid: each executed rebalance counts as half
/// a buy and half a sell; signals that led to no rebalance are holds.
pub fn grid_signal_counts(signals: u64, rebalances: u64) -> (c: SignalCounts)
    ensures
        c == (SignalCounts {
            signals_generated: signals,
            buy_signals: rebalances / 2,
            sell_signals: rebalances / 2,
            hold_signals: if signals >= rebalances { (signals - rebalances) as u64 } else { 0 },
            active_trades: 0,
            rebalances_executed: rebalances,
        }),
{
    SignalCounts {
        signals_generated: signals,
        buy_signals: rebalances / 2,
        sell_signals: rebalances / 2,
        hold_signals: signals.saturating_sub(rebalances),
        active_trades: 0,
        rebalances_executed: rebalances,
    }
}

/// Wraps like an atomic counter's `fetch_add(1)`.
pub open spec fn bump(n: u64) -> u64 {
    if n == u64::MAX { 0 } else { (n + 1) as u64 }
}

/// Integer state of the grid rebalancer: seeding, the regime pause, and
/// its counts of analysed prices, executed rebalances and refused orders.
pub struct GridCore {
    pub seed: SeedGate,
    pub regime: RegimeGate,
    pub signals: u64,
    pub rebalances: u64,
    pub filtered: u64,
}

impl GridCore {
    pub open spec fn wf(&self) -> bool {
        self.regime.wf()
    }

    /// A fresh grid: seeding not yet done, not paused, nothing counted.
    pub fn new(seed_orders_bypass: bool) -> (g: Self)
        ensures
            g.wf(),
            g.seed == (SeedGate { seed_orders_bypass, orders_seeded: false }),
            !g.regime.paused,
            g.signals == 0,
            g.rebalances == 0,
            g.filtered == 0,
    {
        GridCore { seed: SeedGate::new(seed_orders_bypass), regime: RegimeGate::new(), signals: 0, rebalances: 0, filtered: 0 }
    }

    /// Counts one analysed price.
    pub fn record_signal(&mut self)
        ensures
            *final(self) == (GridCore { signals: bump(old(self).signals), ..*old(self) }),
    {
        self.signals = self.signals.wrapping_add(1);
    }

    /// Counts an executed rebalance (a fill of a grid order).
    pub fn record_rebalance(&mut self)
        ensures
            *final(self) == (GridCore { rebalances: bump(old(self).rebalances), ..*old(self) }),
    {
        self.rebalances = self.rebalances.wrapping_add(1);
    }

    /// Ends the fee (or spread) check of an order that reached it: the
    /// order is placed when it passed, and a refused order is counted.
    pub fn finish_placement(&mut self, passed: bool) -> (placed: bool)
        ensures
            placed == passed,
            *final(self) == (GridCore {
                filtered: if passed { old(self).filtered } else { bump(old(self).filtered) },
                ..*old(self)
            }),
    {
        if !passed {
            self.filtered = self.filtered.wrapping_add(1);
        }
        passed
    }

    /// The grid's strategy counters (see `grid_signal_counts`).
    pub fn stats(&self) -> (c: SignalCounts)
        ensures
            c == (SignalCounts {
                signals_generated: self.signals,
                buy_signals: self.rebalances / 2,
                sell_signals: self.rebalances / 2,
                hold_signals: if self.signals >= self.rebalances { (self.signals - self.rebalances) as u64 } else { 0 },
                active_trades: 0,
                rebalances_executed: self.rebalances,
            }),
    {
        grid_signal_counts(self.signals, self.rebalances)
    }

    /// Clears the counters, lifts any pause and starts seeding again.
    pub fn reset(&mut self)
        ensures
            final(self).wf(),
            *final(self) == (GridCore {
                seed: SeedGate { orders_seeded: false, ..old(self).seed },
                regime: RegimeGate { paused: false, cause: PauseCause::NotPaused },
                signals: 0,
                rebalances: 0,
                filtered: 0,
            }),
    {
        self.signals = 0;
        self.rebalances = 0;
        self.filtered = 0;
        self.regime = RegimeGate::new();
        self.seed.reset();
    }
}

/// Why a grid configuration is refused, in the order the checks run.
#[derive(Debug, Clone, Copy, PartialEq, Eq, Structural)]
pub enum GridConfigError {
    /// `grid_spacing` must be > 0.
    NonPositiveSpacing,
    /// With dynamic spacing, `min_spacing` must be < `max_spacing`.
    MinSpacingNotBelowMax,
    /// With dynamic spacing, `min_spacing` must be > 0.
    NonPositiveMinSpacing,
    /// With the regime gate, `min_volatility_to_trade` cannot be negative.
    NegativeMinVolatility,
    /// `order_size` must be > 0.
    NonPositiveOrderSize,
    /// Reserve balances cannot be negative.
    NegativeReserve,
    /// With the order lifecycle, `order_max_age_minutes` must be > 0.
    ZeroOrderMaxAge,
    /// With the order lifecycle, `order_refresh_interval_minutes` must be > 0.
    ZeroRefreshInterval,
    /// `fill_rate_threshold` must be > 0.
    NonPositiveFillRate,
}

/// A grid configuration as its checks see it: the switches and integer
/// settings, and the outcome of each comparison on its float settings.
#[derive(Debug, Clone, Copy, PartialEq, Eq, Structural)]
pub struct GridConfigFacts {
    pub spacing_positive: bool,
    pub enable_dynamic_spacing: bool,
    pub min_spacing_below_max: bool,
    pub min_spacing_positive: bool,
    pub enable_regime_gate: bool,
    pub min_volatility_negative: bool,
    pub order_size_positive: bool,
    pub reserves_nonnegative: bool,
    pub enable_order_lifecycle: bool,
    pub order_max_age_minutes: u64,
    pub order_refresh_interval_minutes: u64,
    pub fill_rate_positive: bool,
    pub seed_orders_bypass: bool,
    pub enable_fee_filtering: bool,
    pub grace_period_trades: u64,
}

/// The first check the configuration fails, if any.
pub open spec fn spec_config_error(c: GridConfigFacts) -> Option<GridConfigError> {
    if !c.spacing_positive {
        Some(GridConfigError::NonPositiveSpacing)
    } else if c.enable_dynamic_spacing && !c.min_spacing_below_max {
        Some(GridConfigError::MinSpacingNotBelowMax)
    } else if c.enable_dynamic_spacing && !c.min_spacing_positive {
        Some(GridConfigError::NonPositiveMinSpacing)
    } else if c.enable_regime_gate && c.min_volatility_negative {
        Some(GridConfigError::NegativeMinVolatility)
    } else if !c.order_size_positive {
        Some(GridConfigError::NonPositiveOrderSize)
    } else if !c.reserves_nonnegative {
        Some(GridConfigError::NegativeReserve)
    } else if c.enable_order_lifecycle && c.order_max_age_minutes == 0 {
        Some(GridConfigError::ZeroOrderMaxAge)
    } else if c.enable_order_lifecycle && c.order_refresh_interval_minutes == 0 {
        Some(GridConfigError::ZeroRefreshInterval)
    } else if !c.fill_rate_positive {
        Some(GridConfigError::NonPositiveFillRate)
    } else {
        None
    }
}

/// Validates a grid configuration: the first failing check, in order.
pub fn config_error(c: &GridConfigFacts) -> (e: Option<GridConfigError>)
    ensures
        e == spec_config_error(*c),
{
    if !c.spacing_positive {
        Some(GridConfigError::NonPositiveSpacing)
    } else if c.enable_dynamic_spacing && !c.min_spacing_below_max {
        Some(GridConfigError::MinSpacingNotBelowMax)
    } else if c.enable_dynamic_spacing && !c.min_spacing_positive {
        Some(GridConfigError::NonPositiveMinSpacing)
    } else if c.enable_regime_gate && c.min_volatility_negative {
        Some(GridConfigError::NegativeMinVolatility)
    } else if !c.order_size_positive {
        Some(GridConfigError::NonPositiveOrderSize)
    } else if !c.reserves_nonnegative {
        Some(GridConfigError::NegativeReserve)
    } else if c.enable_order_lifecycle && c.order_max_age_minutes == 0 {
        Some(GridConfigError::ZeroOrderMaxAge)
    } else if c.enable_order_lifecycle && c.order_refresh_interval_minutes == 0 {
        Some(GridConfigError::ZeroRefreshInterval)
    } else if !c.fill_rate_positive {
        Some(GridConfigError::NonPositiveFillRate)
    } else {
        None
    }
}

impl GridCore {
    /// Builds the grid state from a configuration, refusing an invalid one:
    /// seeding not yet done, not paused, nothing counted, and a fee filter
    /// (with its grace period) exactly when fee filtering is on.
    pub fn with_fees(c: GridConfigFacts) -> (r: Result<(GridCore, Option<FeeFilterCounters>), GridConfigError>)
        ensures
            r is Err <==> spec_config_error(c) is Some,
            r matches Err(e) ==> spec_config_error(c) == Some(e),
            r matches Ok((g, f)) ==> {
                &&& g.wf()
                &&& g.seed == (SeedGate { seed_orders_bypass: c.seed_orders_bypass, orders_seeded: false })
                &&& !g.regime.paused
                &&& g.signals == 0
                &&& g.rebalances == 0
                &&& g.filtered == 0
                &&& (f is Some <==> c.enable_fee_filtering)
                &&& c.enable_fee_filtering ==> f == Some(FeeFilterCounters {
                    grace_period_trades: c.grace_period_trades,
                    total_checks: 0,
                    trades_passed: 0,
                    trades_filtered: 0,
                    trades_executed: 0,
                })
            },
    {
        match config_error(&c) {
            Some(e) => Err(e),
            None => {
                let g = GridCore::new(c.seed_orders_bypass);
                let f = if c.enable_fee_filtering {
                    Some(FeeFilterCounters::new(c.grace_period_trades))
                } else {
                    None
                };
                Ok((g, f))
            },
        }
    }
}

/// Law: a configuration is accepted exactly when it passes every check;
/// each failing check gets it refused, and the error named is that of the
/// first check that fails, in this order: spacing, dynamic spacing bounds,
/// minimum volatility, order size, reserves, order lifecycle, fill rate.
pub proof fn lemma_config_error_exact(c: GridConfigFacts)
    ensures
        spec_config_error(c) is None <==> {
            &&& c.spacing_positive
            &&& c.enable_dynamic_spacing ==> c.min_spacing_below_max && c.min_spacing_positive
            &&& c.enable_regime_gate ==> !c.min_volatility_negative
            &&& c.order_size_positive
            &&& c.reserves_nonnegative
            &&& c.enable_order_lifecycle ==> c.order_max_age_minutes > 0
                && c.order_refresh_interval_minutes > 0
            &&& c.fill_rate_positive
        },
        !c.spacing_positive ==> spec_config_error(c) == Some(GridConfigError::NonPositiveSpacing),
        c.enable_dynamic_spacing && !c.min_spacing_below_max ==> spec_config_error(c) is Some,
        c.enable_dynamic_spacing && !c.min_spacing_positive ==> spec_config_error(c) is Some,
        c.enable_regime_gate && c.min_volatility_negative ==> spec_config_error(c) is Some,
        !c.order_size_positive ==> spec_config_error(c) is Some,
        !c.reserves_nonnegative ==> spec_config_error(c) is Some,
        c.enable_order_lifecycle && c.order_max_age_minutes == 0 ==> spec_config_error(c) is Some,
        c.enable_order_lifecycle && c.order_refresh_interval_minutes == 0 ==> spec_config_error(
            c,
        ) is Some,
        !c.fill_rate_positive ==> spec_config_error(c) is Some,
        spec_config_error(c) == Some(GridConfigError::NonPositiveSpacing) ==> !c.spacing_positive,
        spec_config_error(c) == Some(GridConfigError::MinSpacingNotBelowMax) ==> {
            &&& c.spacing_positive
            &&& c.enable_dynamic_spacing && !c.min_spacing_below_max
        },
        spec_config_error(c) == Some(GridConfigError::NonPositiveMinSpacing) ==> {
            &&& c.spacing_positive
            &&& c.enable_dynamic_spacing && c.min_spacing_below_max && !c.min_spacing_positive
        },
        spec_config_error(c) == Some(GridConfigError::NegativeMinVolatility) ==> {
            &&& c.spacing_positive
            &&& c.enable_dynamic_spacing ==> c.min_spacing_below_max && c.min_spacing_positive
            &&& c.enable_regime_gate && c.min_volatility_negative
        },
        spec_config_error(c) == Some(GridConfigError::NonPositiveOrderSize) ==> {
            &&& c.spacing_positive
            &&& c.enable_dynamic_spacing ==> c.min_spacing_below_max && c.min_spacing_positive
            &&& c.enable_regime_gate ==> !c.min_volatility_negative
            &&& !c.order_size_positive
        },
        spec_config_error(c) == Some(GridConfigError::NegativeReserve) ==> {
            &&& c.spacing_positive
            &&& c.enable_dynamic_spacing ==> c.min_spacing_below_max && c.min_spacing_positive
            &&& c.enable_regime_gate ==> !c.min_volatility_negative
            &&& c.order_size_positive
            &&& !c.reserves_nonnegative
        },
        spec_config_error(c) == Some(GridConfigError::ZeroOrderMaxAge) ==> {
            &&& c.spacing_positive
            &&& c.enable_dynamic_spacing ==> c.min_spacing_below_max && c.min_spacing_positive
            &&& c.enable_regime_gate ==> !c.min_volatility_negative
            &&& c.order_size_positive
            &&& c.reserves_nonnegative
            &&& c.enable_order_lifecycle && c.order_max_age_minutes == 0
        },
        spec_config_error(c) == Some(GridConfigError::ZeroRefreshInterval) ==> {
            &&& c.spacing_positive
            &&& c.enable_dynamic_spacing ==> c.min_spacing_below_max && c.min_spacing_positive
            &&& c.enable_regime_gate ==> !c.min_volatility_negative
            &&& c.order_size_positive
            &&& c.reserves_nonnegative
            &&& c.enable_order_lifecycle && c.order_max_age_minutes > 0
            &&& c.order_refresh_interval_minutes == 0
        },
        spec_config_error(c) == Some(GridConfigError::NonPositiveFillRate) ==> {
            &&& c.spacing_positive
            &&& c.enable_dynamic_spacing ==> c.min_spacing_below_max && c.min_spacing_positive
            &&& c.enable_regime_gate ==> !c.min_volatility_negative
            &&& c.order_size_positive
            &&& c.reserves_nonnegative
            &&& c.enable_order_lifecycle ==> c.order_max_age_minutes > 0
                && c.order_refresh_interval_minutes > 0
            &&& !c.fill_rate_positive
        },
{
}

/// Whether the order lifecycle scan is due: it is enabled and at least
/// `refresh_interval_minutes` have passed since the last scan.
pub fn lifecycle_check_due(enabled: bool, last_check_ms: u64, now_ms: u64, refresh_interval_minutes: u64) -> (b: bool)
    ensures
        b == (enabled && elapsed_ms(last_check_ms, now_ms) >= refresh_interval_minutes * 60000),
{
    if !enabled {
        return false;
    }
    let elapsed: u64 = if now_ms >= last_check_ms {
        now_ms - last_check_ms
    } else {
        0
    };
    (elapsed as u128) >= (refresh_interval_minutes as u128) * 60000
}

/// Deployment environment named in the configuration.
#[derive(Debug, Clone, Copy, PartialEq, Eq, Structural)]
pub enum Environment {
    Testing,
    Development,
    Production,
    /// Any other name: the defaults stay.
    Other,
}

pub open spec fn spec_environment_of(name: Seq<char>) -> Environment {
    if name == "testing"@ {
        Environment::Testing
    } else if name == "development"@ {
        Environment::Development
    } else if name == "production"@ {
        Environment::Production
    } else {
        Environment::Other
    }
}

/// The environment a configuration name selects.
pub fn environment_of(name: &str) -> (e: Environment)
    ensures
        e == spec_environment_of(name@),
{
    let n = String::from_str(name);
    let testing = String::from_str("testing");
    let development = String::from_str("development");
    let production = String::from_str("production");
    if n == testing {
        Environment::Testing
    } else if n == development {
        Environment::Development
    } else if n == production {
        Environment::Production
    } else {
        Environment::Other
    }
}

/// What an environment does to the minimum volatility to trade.
#[derive(Debug, Clone, Copy, PartialEq, Eq, Structural)]
pub enum VolFloorRule {
    /// Set it to zero.
    SetZero,
    /// Lower it to the volatility floor when it is above 0.5.
    LowerAboveHalfToFloor,
    /// Raise it to the volatility floor when it is below the floor.
    RaiseToFloor,
    /// Leave it.
    Keep,
}

/// The regime gate switches of the grid configuration.
#[derive(Debug, Clone, Copy, PartialEq, Eq, Structural)]
pub struct RegimeGateSettings {
    pub enable_regime_gate: bool,
    pub pause_in_very_low_vol: bool,
}

/// The regime switches after applying an environment, and its rule for
/// the minimum volatility: testing relaxes the regime check, production
/// enforces it, development only caps the minimum.
pub fn apply_environment_gate(env: Environment, s: RegimeGateSettings) -> (r: (RegimeGateSettings, VolFloorRule))
    ensures
        r == (match env {
            Environment::Testing => (RegimeGateSettings { enable_regime_gate: false, pause_in_very_low_vol: false }, VolFloorRule::SetZero),
            Environment::Development => (s, VolFloorRule::LowerAboveHalfToFloor),
            Environment::Production => (RegimeGateSettings { enable_regime_gate: true, ..s }, VolFloorRule::RaiseToFloor),
            Environment::Other => (s, VolFloorRule::Keep),
        }),
{
    match env {
        Environment::Testing => (RegimeGateSettings { enable_regime_gate: false, pause_in_very_low_vol: false }, VolFloorRule::SetZero),
        Environment::Development => (s, VolFloorRule::LowerAboveHalfToFloor),
        Environment::Production => (RegimeGateSettings { enable_regime_gate: true, ..s }, VolFloorRule::RaiseToFloor),
        Environment::Other => (s, VolFloorRule::Keep),
    }
}

/// A grid level as seen by the lifecycle scan.
#[derive(Debug, Clone, Copy, PartialEq, Eq, Structural)]
pub struct LevelState {
    pub id: u64,
    /// An unfilled buy order is waiting at this level.
    pub pending: bool,
    /// The order is older than the maximum order age.
    pub stale: bool,
}

/// Ids of the stale pending levels, in grid order.
pub open spec fn spec_stale_ids(levels: Seq<LevelState>) -> Seq<u64>
    decreases levels.len(),
{
    if levels.len() == 0 {
        Seq::empty()
    } else {
        let rest = spec_stale_ids(levels.drop_last());
        if levels.last().pending && levels.last().stale {
            rest.push(levels.last().id)
        } else {
            rest
        }
    }
}

/// Selects the levels to cancel for re-quoting: stale pending orders only;
/// levels holding a filled buy (an open position) are never selected.
pub fn select_stale_levels(levels: &[LevelState]) -> (ids: Vec<u64>)
    ensures
        ids@ == spec_stale_ids(levels@),
{
    let mut ids: Vec<u64> = Vec::new();
    let mut i: usize = 0;
    while i < levels.len()
        invariant
            i <= levels@.len(),
            ids@ == spec_stale_ids(levels@.take(i as int)),
        decreases levels@.len() - i,
    {
        proof {
            assert(levels@.take(i as int + 1).drop_last() =~= levels@.take(i as int));
        }
        let l = levels[i];
        if l.pending && l.stale {
            ids.push(l.id);
        }
        i = i + 1;
    }
    proof {
        assert(levels@.take(levels@.len() as int) =~= levels@);
    }
    ids
}

/// Law: every selected level is a stale pending level of the grid, and
/// every stale pending level is selected.
#[verifier::spinoff_prover]
pub proof fn lemma_stale_selection_exact(levels: Seq<LevelState>)
    ensures
        forall|i: int| 0 <= i < spec_stale_ids(levels).len() ==> exists|j: int| 0 <= j < levels.len() && levels[j].pending && levels[j].stale && #[trigger] spec_stale_ids(levels)[i] == levels[j].id,
        forall|j: int| 0 <= j < levels.len() && levels[j].pending && levels[j].stale ==> spec_stale_ids(levels).contains(#[trigger] levels[j].id),
    decreases levels.len(),
{
    if levels.len() > 0 {
        let init = levels.drop_last();
        lemma_stale_selection_exact(init);
        let r = spec_stale_ids(levels);
        let ri = spec_stale_ids(init);
        assert forall|i: int| 0 <= i < r.len() implies exists|j: int| 0 <= j < levels.len() && levels[j].pending && levels[j].stale && #[trigger] r[i] == levels[j].id by {
            if i < ri.len() {
                assert(r[i] == ri[i]);
                let j = choose|j: int| 0 <= j < init.len() && init[j].pending && init[j].stale && ri[i] == init[j].id;
                assert(levels[j] == init[j]);
            } else {
                assert(r[i] == levels.last().id);
                assert(levels[levels.len() - 1] == levels.last());
            }
        }
        assert forall|j: int| 0 <= j < levels.len() && levels[j].pending && levels[j].stale implies r.contains(#[trigger] levels[j].id) by {
            if j < levels.len() - 1 {
                assert(levels[j] == init[j]);
                assert(ri.contains(init[j].id));
                let k = choose|k: int| 0 <= k < ri.len() && ri[k] == init[j].id;
                assert(r[k] == ri[k]);
            } else {
                assert(r[r.len() - 1] == levels.last().id);
            }
        }
    }
}

} // verus!
