use vstd::prelude::*;
use crate::regime::MarketRegime;

verus! {

/// Outcome of the shared fee filter.
#[derive(Debug, Clone, Copy, PartialEq, Eq, Structural)]
pub enum FeeDecision {
    Allowed,
    BlockedInsufficientProfit,
    BlockedDisabled,
}

/// The shared fee filter's decision: disabled filters block, invalid
/// prices block, otherwise the profit comparison decides.
pub fn fee_decision(enabled: bool, prices_valid: bool, profit_sufficient: bool) -> (d: FeeDecision)
    ensures
        d == (if !enabled {
            FeeDecision::BlockedDisabled
        } else if !prices_valid {
            FeeDecision::BlockedInsufficientProfit
        } else if profit_sufficient {
            FeeDecision::Allowed
        } else {
            FeeDecision::BlockedInsufficientProfit
        }),
        d == FeeDecision::Allowed <==> (enabled && prices_valid && profit_sufficient),
        d == FeeDecision::BlockedDisabled <==> !enabled,
{
    if !enabled {
        FeeDecision::BlockedDisabled
    } else if !prices_valid {
        FeeDecision::BlockedInsufficientProfit
    } else if profit_sufficient {
        FeeDecision::Allowed
    } else {
        FeeDecision::BlockedInsufficientProfit
    }
}

/// Percentage applied to the smart fee filter's minimum profit for the
/// market regime (regime adjustment on): harder to profit in calm markets,
/// easier in volatile ones; an unknown regime counts as the baseline.
pub fn regime_profit_factor_pct(regime: Option<MarketRegime>) -> (pct: u32)
    ensures
        pct == (match regime {
            Some(MarketRegime::VeryLow) => 150u32,
            Some(MarketRegime::Low) => 120u32,
            Some(MarketRegime::Medium) => 100u32,
            Some(MarketRegime::High) => 90u32,
            Some(MarketRegime::VeryHigh) => 80u32,
            None => 100u32,
        }),
{
    match regime {
        Some(MarketRegime::VeryLow) => 150,
        Some(MarketRegime::Low) => 120,
        Some(MarketRegime::Medium) => 100,
        Some(MarketRegime::High) => 90,
        Some(MarketRegime::VeryHigh) => 80,
        None => 100,
    }
}

/// Counters of the smart fee filter and its grace period.
#[derive(Debug, Clone, Copy, PartialEq, Eq, Structural)]
pub struct FeeFilterCounters {
    pub grace_period_trades: u64,
    pub total_checks: u64,
    pub trades_passed: u64,
    pub trades_filtered: u64,
    pub trades_executed: u64,
}

/// Result of starting a check.
#[derive(Debug, Clone, Copy, PartialEq, Eq, Structural)]
pub enum CheckStart {
    /// Still in the grace period: the trade passes unchecked.
    Grace,
    /// The profit check must decide; report it with `finish_check`.
    Evaluate,
}

impl FeeFilterCounters {
    /// Every check ended as passed or filtered, except one being evaluated.
    pub open spec fn balanced(&self) -> bool {
        self.total_checks == self.trades_passed + self.trades_filtered
    }

    pub fn new(grace_period_trades: u64) -> (c: Self)
        ensures
            c.balanced(),
            c == (FeeFilterCounters {
                grace_period_trades,
                total_checks: 0,
                trades_passed: 0,
                trades_filtered: 0,
                trades_executed: 0,
            }),
    {
        FeeFilterCounters { grace_period_trades, total_checks: 0, trades_passed: 0, trades_filtered: 0, trades_executed: 0 }
    }

    /// Counts a check; while fewer trades than the grace period have been
    /// executed, the trade passes at once.
    pub fn begin_check(&mut self) -> (s: CheckStart)
        requires
            old(self).balanced(),
            old(self).total_checks < u64::MAX,
        ensures
            final(self).total_checks == old(self).total_checks + 1,
            final(self).trades_filtered == old(self).trades_filtered,
            final(self).trades_executed == old(self).trades_executed,
            final(self).grace_period_trades == old(self).grace_period_trades,
            old(self).trades_executed < old(self).grace_period_trades ==> s == CheckStart::Grace
                && final(self).trades_passed == old(self).trades_passed + 1 && final(self).balanced(),
            old(self).trades_executed >= old(self).grace_period_trades ==> s == CheckStart::Evaluate
                && final(self).trades_passed == old(self).trades_passed
                && final(self).total_checks == final(self).trades_passed + final(self).trades_filtered + 1,
    {
        self.total_checks = self.total_checks + 1;
        if self.trades_executed < self.grace_period_trades {
            self.trades_passed = self.trades_passed + 1;
            CheckStart::Grace
        } else {
            CheckStart::Evaluate
        }
    }

    /// Counts the result of an evaluated check.
    pub fn finish_check(&mut self, passed: bool)
        requires
            old(self).total_checks == old(self).trades_passed + old(self).trades_filtered + 1,
        ensures
            final(self).balanced(),
            passed ==> final(self).trades_passed == old(self).trades_passed + 1 && final(self).trades_filtered == old(self).trades_filtered,
            !passed ==> final(self).trades_filtered == old(self).trades_filtered + 1 && final(self).trades_passed == old(self).trades_passed,
            final(self).total_checks == old(self).total_checks,
            final(self).trades_executed == old(self).trades_executed,
            final(self).grace_period_trades == old(self).grace_period_trades,
    {
        if passed {
            self.trades_passed = self.trades_passed + 1;
        } else {
            self.trades_filtered = self.trades_filtered + 1;
        }
    }

    /// Notes an executed trade (ends the grace period after enough trades).
    pub fn record_execution(&mut self)
        ensures
            final(self).trades_executed == (if old(self).trades_executed == u64::MAX { 0 } else { old(self).trades_executed + 1 }),
            final(self).total_checks == old(self).total_checks,
            final(self).trades_passed == old(self).trades_passed,
            final(self).trades_filtered == old(self).trades_filtered,
            final(self).grace_period_trades == old(self).grace_period_trades,
    {
        self.trades_executed = self.trades_executed.wrapping_add(1);
    }

    /// Clears all counters (the grace period starts again).
    pub fn reset_stats(&mut self)
        ensures
            final(self).balanced(),
            *final(self) == (FeeFilterCounters {
                total_checks: 0,
                trades_passed: 0,
                trades_filtered: 0,
                trades_executed: 0,
                ..*old(self)
            }),
    {
        self.total_checks = 0;
        self.trades_passed = 0;
        self.trades_filtered = 0;
        self.trades_executed = 0;
    }
}

} // verus!
