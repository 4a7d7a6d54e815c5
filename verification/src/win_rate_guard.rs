use vstd::prelude::*;

verus! {

/// Why the guard is suppressing trading.
#[derive(Debug, Clone, Copy, PartialEq, Eq, Structural)]
pub enum Suppression {
    /// Trading is not suppressed.
    NotSuppressed,
    /// The win rate fell below the minimum.
    BelowMinimum,
    /// The win rate has not yet climbed back to the resume threshold.
    BelowResume,
}

/// Hysteresis gate on the rolling win rate. The caller compares the win
/// rate with the two thresholds (`min_win_rate_pct` and the higher
/// `resume_pct`) and passes the results; the guard decides.
pub struct WinRateGuard {
    pub enabled: bool,
    /// Completed trades required before the guard acts.
    pub min_trades: u64,
    pub is_suppressed: bool,
    pub suppression: Suppression,
}

/// The guard after one evaluation, and whether trading is allowed.
/// `below_min`: win rate < minimum; `reaches_resume`: win rate >= resume threshold.
pub open spec fn spec_evaluate(
    g: WinRateGuard,
    total_trades: u64,
    below_min: bool,
    reaches_resume: bool,
) -> (WinRateGuard, bool) {
    if !g.enabled || total_trades < g.min_trades {
        (g, true)
    } else if g.is_suppressed {
        if reaches_resume {
            (WinRateGuard { is_suppressed: false, suppression: Suppression::NotSuppressed, ..g }, true)
        } else {
            (WinRateGuard { suppression: Suppression::BelowResume, ..g }, false)
        }
    } else if below_min {
        (WinRateGuard { is_suppressed: true, suppression: Suppression::BelowMinimum, ..g }, false)
    } else {
        (g, true)
    }
}

impl WinRateGuard {
    /// A suppression reason is recorded exactly while suppressed, and a
    /// disabled guard never suppresses.
    pub open spec fn wf(&self) -> bool {
        &&& self.is_suppressed == (self.suppression != Suppression::NotSuppressed)
        &&& (!self.enabled ==> !self.is_suppressed)
    }

    /// A guard that is not suppressing.
    pub fn new(enabled: bool, min_trades: u64) -> (g: Self)
        ensures
            g.wf(),
            g.enabled == enabled,
            g.min_trades == min_trades,
            !g.is_suppressed,
    {
        WinRateGuard { enabled, min_trades, is_suppressed: false, suppression: Suppression::NotSuppressed }
    }

    /// Updates the suppression state; `true` means trading is allowed.
    pub fn evaluate(&mut self, total_trades: u64, below_min: bool, reaches_resume: bool) -> (allowed: bool)
        requires
            old(self).wf(),
        ensures
            final(self).wf(),
            (*final(self), allowed) == spec_evaluate(*old(self), total_trades, below_min, reaches_resume),
    {
        if !self.enabled {
            return true;
        }
        if total_trades < self.min_trades {
            return true;
        }
        if self.is_suppressed {
            if reaches_resume {
                self.is_suppressed = false;
                self.suppression = Suppression::NotSuppressed;
                true
            } else {
                self.suppression = Suppression::BelowResume;
                false
            }
        } else {
            if below_min {
                self.suppression = Suppression::BelowMinimum;
                self.is_suppressed = true;
                false
            } else {
                true
            }
        }
    }

    /// `true` when trading is currently allowed (not suppressed).
    pub fn is_trading_allowed(&self) -> (b: bool)
        ensures
            b == !self.is_suppressed,
    {
        !self.is_suppressed
    }

    pub fn is_suppressed(&self) -> (b: bool)
        ensures
            b == self.is_suppressed,
    {
        self.is_suppressed
    }

    pub fn is_enabled(&self) -> (b: bool)
        ensures
            b == self.enabled,
    {
        self.enabled
    }

    pub fn suppression(&self) -> (s: Suppression)
        ensures
            s == self.suppression,
    {
        self.suppression
    }
}

/// Law (hysteresis): once suppressed, the guard stays suppressed until the
/// win rate reaches the resume threshold, whatever the minimum check says.
pub proof fn lemma_hysteresis_holds(g: WinRateGuard, total: u64, below_min: bool)
    requires
        g.wf(),
        g.is_suppressed,
        total >= g.min_trades,
    ensures
        spec_evaluate(g, total, below_min, false).0.is_suppressed,
        !spec_evaluate(g, total, below_min, false).1,
{
}

/// Law: a disabled guard, or one still inside its warm-up window, always
/// allows trading and changes nothing.
pub proof fn lemma_disabled_or_warmup_allows(g: WinRateGuard, total: u64, below_min: bool, reaches_resume: bool)
    requires
        g.wf(),
        !g.enabled || total < g.min_trades,
    ensures
        spec_evaluate(g, total, below_min, reaches_resume) == (g, true),
{
}

/// Law: past the warm-up, the answer is always the negation of the new
/// suppression state.
pub proof fn lemma_answer_matches_state(g: WinRateGuard, total: u64, below_min: bool, reaches_resume: bool)
    requires
        g.wf(),
        g.enabled,
        total >= g.min_trades,
    ensures
        spec_evaluate(g, total, below_min, reaches_resume).1 == !spec_evaluate(g, total, below_min, reaches_resume).0.is_suppressed,
{
}

} // verus!
