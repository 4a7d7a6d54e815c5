use vstd::prelude::*;
use crate::circuit_breaker::{cooldown_over, cooldown_left_ms, is_cooldown_over, cooldown_remaining_ms};

verus! {

/// Reason the stop-loss manager is currently paused.
#[derive(Debug, Clone, Copy, PartialEq, Eq, Structural)]
pub enum SlTripReason {
    /// Price dropped below stop-loss threshold.
    StopLoss,
    /// Price rose above take-profit threshold.
    TakeProfit,
}

impl SlTripReason {
    /// Human-readable description of the reason.
    pub fn description(&self) -> (s: &'static str)
        ensures
            s@ == (match *self {
                SlTripReason::StopLoss => "stop-loss triggered"@,
                SlTripReason::TakeProfit => "take-profit triggered"@,
            }),
    {
        match self {
            SlTripReason::StopLoss => "stop-loss triggered",
            SlTripReason::TakeProfit => "take-profit triggered",
        }
    }
}

/// Cooldown gate of the stop-loss / take-profit manager: a stop or a take
/// pauses trading for `cooldown_secs`, after which trading resumes by itself.
pub struct StopLossGate {
    pub cooldown_secs: u64,
    /// Monotonic clock reading (ms) at which the stop fired.
    pub tripped_at_ms: Option<u64>,
    pub trip_reason: Option<SlTripReason>,
}

/// The cooldown state after a trip request at `now`: one that is already tripped
/// keeps its clock and reason.
pub open spec fn spec_trip(g: StopLossGate, reason: SlTripReason, now: u64) -> StopLossGate {
    if g.tripped_at_ms is Some {
        g
    } else {
        StopLossGate { tripped_at_ms: Some(now), trip_reason: Some(reason), ..g }
    }
}

/// The cooldown state after a trading-allowed check at `now`, and the answer.
pub open spec fn spec_gate_check(g: StopLossGate, now: u64) -> (StopLossGate, bool) {
    match g.tripped_at_ms {
        None => (g, true),
        Some(t) => if cooldown_over(t, now, g.cooldown_secs) {
            (StopLossGate { tripped_at_ms: None, trip_reason: None, ..g }, true)
        } else {
            (g, false)
        },
    }
}

impl StopLossGate {
    /// A reason is recorded exactly while tripped.
    pub open spec fn wf(&self) -> bool {
        (self.tripped_at_ms is Some) == (self.trip_reason is Some)
    }

    /// An untripped gate with the given cooldown.
    pub fn new(cooldown_secs: u64) -> (g: Self)
        ensures
            g.wf(),
            g.cooldown_secs == cooldown_secs,
            g.tripped_at_ms is None,
            g.trip_reason is None,
    {
        StopLossGate { cooldown_secs, tripped_at_ms: None, trip_reason: None }
    }

    /// Returns `true` when the bot may trade; `false` during the cooldown.
    /// Resets itself once the cooldown is over.
    pub fn is_trading_allowed(&mut self, now_ms: u64) -> (allowed: bool)
        requires
            old(self).wf(),
        ensures
            final(self).wf(),
            (*final(self), allowed) == spec_gate_check(*old(self), now_ms),
    {
        match self.tripped_at_ms {
            None => true,
            Some(t) => {
                if is_cooldown_over(t, now_ms, self.cooldown_secs) {
                    self.reset_sl();
                    true
                } else {
                    false
                }
            },
        }
    }

    /// Trips and starts the cooldown clock; ignored while it
    /// is already tripped, so a repeated trigger never extends the pause.
    pub fn trip(&mut self, reason: SlTripReason, now_ms: u64)
        requires
            old(self).wf(),
        ensures
            final(self).wf(),
            *final(self) == spec_trip(*old(self), reason, now_ms),
    {
        if self.tripped_at_ms.is_some() {
            return ;
        }
        self.tripped_at_ms = Some(now_ms);
        self.trip_reason = Some(reason);
    }

    /// Clears the tripped state.
    pub fn reset_sl(&mut self)
        ensures
            final(self).wf(),
            *final(self) == (StopLossGate { tripped_at_ms: None, trip_reason: None, ..*old(self) }),
    {
        self.tripped_at_ms = None;
        self.trip_reason = None;
    }

    /// Remaining cooldown in ms; `None` when not tripped or already expired.
    pub fn cooldown_remaining(&self, now_ms: u64) -> (r: Option<u128>)
        ensures
            match self.tripped_at_ms {
                None => r is None,
                Some(t) => if cooldown_over(t, now_ms, self.cooldown_secs) {
                    r is None
                } else {
                    r == Some(cooldown_left_ms(t, now_ms, self.cooldown_secs) as u128)
                },
            },
    {
        match self.tripped_at_ms {
            None => None,
            Some(t) => {
                if is_cooldown_over(t, now_ms, self.cooldown_secs) {
                    None
                } else {
                    Some(cooldown_remaining_ms(t, now_ms, self.cooldown_secs))
                }
            },
        }
    }

    /// Current trip reason, `None` when not tripped.
    pub fn trip_reason(&self) -> (r: Option<SlTripReason>)
        ensures
            r == self.trip_reason,
    {
        self.trip_reason
    }

    /// True while a cooldown is running.
    pub fn is_tripped(&self) -> (b: bool)
        ensures
            b == (self.tripped_at_ms is Some),
    {
        self.tripped_at_ms.is_some()
    }
}

/// Law: a trigger while tripped does not restart the clock or
/// change the reason.
pub proof fn lemma_double_trip_keeps_clock(g: StopLossGate, r1: SlTripReason, r2: SlTripReason, t1: u64, t2: u64)
    requires
        g.wf(),
    ensures
        spec_trip(spec_trip(g, r1, t1), r2, t2) == spec_trip(g, r1, t1),
{
}

/// Law: after a trip at `t`, trading is refused until the cooldown is over
/// and allowed (with the trip cleared) from then on.
pub proof fn lemma_trip_then_resume(g: StopLossGate, r: SlTripReason, t: u64, now: u64)
    requires
        g.wf(),
        g.tripped_at_ms is None,
    ensures
        !cooldown_over(t, now, g.cooldown_secs) ==> !spec_gate_check(spec_trip(g, r, t), now).1,
        cooldown_over(t, now, g.cooldown_secs) ==> {
            &&& spec_gate_check(spec_trip(g, r, t), now).1
            &&& spec_gate_check(spec_trip(g, r, t), now).0.tripped_at_ms is None
            &&& spec_gate_check(spec_trip(g, r, t), now).0.trip_reason is None
        },
{
}

} // verus!
