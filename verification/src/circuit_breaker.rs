use vstd::prelude::*;

verus! {

/// Losses in a row after which the breaker trips.
pub const MAX_CONSECUTIVE_LOSSES: u32 = 5;

/// Reason why the circuit breaker was tripped.
#[derive(Debug, Clone, Copy, PartialEq, Eq, Structural)]
pub enum TripReason {
    DailyLossLimit,
    MaxDrawdown,
    ConsecutiveLosses,
}

impl TripReason {
    /// Human-readable description of the reason.
    pub fn description(&self) -> (s: &'static str)
        ensures
            s@ == spec_trip_reason_text(*self),
    {
        match self {
            TripReason::DailyLossLimit => "Daily Loss Limit Exceeded",
            TripReason::MaxDrawdown => "Maximum Drawdown Exceeded",
            TripReason::ConsecutiveLosses => "Too Many Consecutive Losses",
        }
    }
}

pub open spec fn spec_trip_reason_text(r: TripReason) -> Seq<char> {
    match r {
        TripReason::DailyLossLimit => "Daily Loss Limit Exceeded"@,
        TripReason::MaxDrawdown => "Maximum Drawdown Exceeded"@,
        TripReason::ConsecutiveLosses => "Too Many Consecutive Losses"@,
    }
}

/// Sign of a trade's realised profit and loss.
#[derive(Debug, Clone, Copy, PartialEq, Eq, Structural)]
pub enum TradeOutcome {
    Loss,
    Flat,
    Profit,
}

/// Milliseconds elapsed from `since` to `now` on a monotonic clock
/// (zero if the clock reads earlier than `since`).
pub open spec fn elapsed_ms(since: u64, now: u64) -> int {
    if now >= since {
        now - since
    } else {
        0
    }
}

/// Whether a cooldown of `cooldown_secs` seconds that started at `since` is over at `now`.
pub open spec fn cooldown_over(since: u64, now: u64, cooldown_secs: u64) -> bool {
    elapsed_ms(since, now) >= cooldown_secs * 1000
}

pub fn is_cooldown_over(since: u64, now: u64, cooldown_secs: u64) -> (b: bool)
    ensures
        b == cooldown_over(since, now, cooldown_secs),
{
    let elapsed: u64 = if now >= since {
        now - since
    } else {
        0
    };
    (elapsed as u128) >= (cooldown_secs as u128) * 1000
}

/// Milliseconds left of a cooldown (zero once it is over).
pub open spec fn cooldown_left_ms(since: u64, now: u64, cooldown_secs: u64) -> int {
    if cooldown_over(since, now, cooldown_secs) {
        0
    } else {
        cooldown_secs * 1000 - elapsed_ms(since, now)
    }
}

pub fn cooldown_remaining_ms(since: u64, now: u64, cooldown_secs: u64) -> (r: u128)
    ensures
        r == cooldown_left_ms(since, now, cooldown_secs),
{
    let elapsed: u64 = if now >= since {
        now - since
    } else {
        0
    };
    let total: u128 = (cooldown_secs as u128) * 1000;
    if (elapsed as u128) >= total {
        0
    } else {
        total - (elapsed as u128)
    }
}

/// Law: a cooldown of `cooldown_secs` seconds started at `since` is over
/// exactly from `since + cooldown_secs * 1000` ms on: not a millisecond
/// earlier, and once over it stays over. Until then the time left and the
/// time elapsed add up to the whole cooldown.
pub proof fn lemma_cooldown_threshold(since: u64, cooldown_secs: u64, now: u64, later: u64)
    requires
        since + cooldown_secs * 1000 <= u64::MAX,
    ensures
        cooldown_over(since, (since + cooldown_secs * 1000) as u64, cooldown_secs),
        cooldown_secs > 0 ==> !cooldown_over(since, (since + cooldown_secs * 1000 - 1) as u64, cooldown_secs),
        cooldown_secs > 0 && now < since ==> !cooldown_over(since, now, cooldown_secs),
        cooldown_over(since, now, cooldown_secs) && now <= later ==> cooldown_over(since, later, cooldown_secs),
        !cooldown_over(since, now, cooldown_secs) ==> cooldown_left_ms(since, now, cooldown_secs)
            + elapsed_ms(since, now) == cooldown_secs * 1000,
        cooldown_over(since, now, cooldown_secs) ==> cooldown_left_ms(since, now, cooldown_secs) == 0,
{
}

/// Trip state and loss streak of the circuit breaker. The money figures
/// (daily P&L, peak balance, drawdown) are kept by the caller, which passes
/// the outcome of its limit checks to `record_trade`.
pub struct BreakerCore {
    pub cooldown_secs: u64,
    pub consecutive_losses: u32,
    pub trip_reason: Option<TripReason>,
    /// Monotonic clock reading (ms) at which the breaker tripped.
    pub trip_time_ms: Option<u64>,
}

/// Snapshot of the breaker for display.
#[derive(Debug, Clone, Copy)]
pub struct BreakerStatus {
    pub is_tripped: bool,
    pub trip_reason: Option<TripReason>,
    pub consecutive_losses: u32,
    /// Cooldown left in ms, `None` when the breaker never tripped since the last reset.
    pub cooldown_remaining_ms: Option<u128>,
}

/// The breaker after recording one trade, as a function of the state before.
pub open spec fn spec_record_trade(
    b: BreakerCore,
    outcome: TradeOutcome,
    daily_limit_hit: bool,
    drawdown_hit: bool,
    now: u64,
) -> BreakerCore {
    if b.trip_time_ms is Some {
        b
    } else {
        let losses: u32 = match outcome {
            TradeOutcome::Loss => (b.consecutive_losses + 1) as u32,
            TradeOutcome::Profit => 0,
            TradeOutcome::Flat => b.consecutive_losses,
        };
        let reason: Option<TripReason> = if daily_limit_hit {
            Some(TripReason::DailyLossLimit)
        } else if drawdown_hit {
            Some(TripReason::MaxDrawdown)
        } else if losses >= MAX_CONSECUTIVE_LOSSES {
            Some(TripReason::ConsecutiveLosses)
        } else {
            None
        };
        BreakerCore {
            cooldown_secs: b.cooldown_secs,
            consecutive_losses: losses,
            trip_reason: reason,
            trip_time_ms: if reason is Some { Some(now) } else { None },
        }
    }
}

/// The breaker after a trading-allowed check at time `now`, and the answer.
pub open spec fn spec_check_allowed(b: BreakerCore, now: u64) -> (BreakerCore, bool) {
    match b.trip_time_ms {
        None => (b, true),
        Some(t) => if cooldown_over(t, now, b.cooldown_secs) {
            (BreakerCore { consecutive_losses: 0, trip_reason: None, trip_time_ms: None, ..b }, true)
        } else {
            (b, false)
        },
    }
}

impl BreakerCore {
    /// Tripped exactly when a reason and a trip time are recorded, and
    /// an untripped breaker's loss streak is below the limit.
    pub open spec fn wf(&self) -> bool {
        &&& (self.trip_reason is Some) == (self.trip_time_ms is Some)
        &&& (self.trip_time_ms is None ==> self.consecutive_losses < MAX_CONSECUTIVE_LOSSES)
    }

    pub open spec fn spec_is_tripped(&self) -> bool {
        self.trip_time_ms is Some
    }

    /// A fresh, untripped breaker with the given cooldown.
    pub fn new(cooldown_secs: u64) -> (b: Self)
        ensures
            b.wf(),
            b.cooldown_secs == cooldown_secs,
            b.consecutive_losses == 0,
            b.trip_reason is None,
            b.trip_time_ms is None,
    {
        BreakerCore { cooldown_secs, consecutive_losses: 0, trip_reason: None, trip_time_ms: None }
    }

    pub fn is_tripped(&self) -> (b: bool)
        ensures
            b == self.spec_is_tripped(),
    {
        self.trip_time_ms.is_some()
    }

    /// Checks whether trading is allowed at `now`; once the cooldown is over
    /// the breaker resets itself and trading resumes.
    pub fn is_trading_allowed(&mut self, now_ms: u64) -> (allowed: bool)
        requires
            old(self).wf(),
        ensures
            final(self).wf(),
            (*final(self), allowed) == spec_check_allowed(*old(self), now_ms),
    {
        match self.trip_time_ms {
            None => true,
            Some(t) => {
                if is_cooldown_over(t, now_ms, self.cooldown_secs) {
                    self.reset();
                    true
                } else {
                    false
                }
            },
        }
    }

    /// Records a trade. No-op while tripped. Otherwise updates the loss
    /// streak and trips on the first limit that holds, in this order: the
    /// daily loss limit, the drawdown limit, the loss streak.
    pub fn record_trade(
        &mut self,
        outcome: TradeOutcome,
        daily_limit_hit: bool,
        drawdown_hit: bool,
        now_ms: u64,
    )
        requires
            old(self).wf(),
        ensures
            final(self).wf(),
            *final(self) == spec_record_trade(*old(self), outcome, daily_limit_hit, drawdown_hit, now_ms),
    {
        if self.trip_time_ms.is_some() {
            return ;
        }
        match outcome {
            TradeOutcome::Loss => {
                self.consecutive_losses = self.consecutive_losses + 1;
            },
            TradeOutcome::Profit => {
                self.consecutive_losses = 0;
            },
            TradeOutcome::Flat => {},
        }
        if daily_limit_hit {
            self.trip(TripReason::DailyLossLimit, now_ms);
        } else if drawdown_hit {
            self.trip(TripReason::MaxDrawdown, now_ms);
        } else if self.consecutive_losses >= MAX_CONSECUTIVE_LOSSES {
            self.trip(TripReason::ConsecutiveLosses, now_ms);
        }
    }

    fn trip(&mut self, reason: TripReason, now_ms: u64)
        ensures
            *final(self) == (BreakerCore {
                trip_reason: Some(reason),
                trip_time_ms: Some(now_ms),
                ..*old(self)
            }),
    {
        self.trip_reason = Some(reason);
        self.trip_time_ms = Some(now_ms);
    }

    fn reset(&mut self)
        ensures
            *final(self) == (BreakerCore {
                consecutive_losses: 0,
                trip_reason: None,
                trip_time_ms: None,
                ..*old(self)
            }),
    {
        self.trip_reason = None;
        self.trip_time_ms = None;
        self.consecutive_losses = 0;
    }

    /// Trips the breaker by hand; the cooldown starts (again) at `now`.
    pub fn force_trip(&mut self, reason: TripReason, now_ms: u64)
        requires
            old(self).wf(),
        ensures
            final(self).wf(),
            *final(self) == (BreakerCore {
                trip_reason: Some(reason),
                trip_time_ms: Some(now_ms),
                ..*old(self)
            }),
    {
        self.trip(reason, now_ms);
    }

    /// Snapshot of the trip state at `now`.
    pub fn status(&self, now_ms: u64) -> (s: BreakerStatus)
        ensures
            s.is_tripped == self.spec_is_tripped(),
            s.trip_reason == self.trip_reason,
            s.consecutive_losses == self.consecutive_losses,
            match self.trip_time_ms {
                None => s.cooldown_remaining_ms is None,
                Some(t) => s.cooldown_remaining_ms == Some(
                    cooldown_left_ms(t, now_ms, self.cooldown_secs) as u128,
                ),
            },
    {
        let remaining = match self.trip_time_ms {
            None => None,
            Some(t) => Some(cooldown_remaining_ms(t, now_ms, self.cooldown_secs)),
        };
        BreakerStatus {
            is_tripped: self.trip_time_ms.is_some(),
            trip_reason: self.trip_reason,
            consecutive_losses: self.consecutive_losses,
            cooldown_remaining_ms: remaining,
        }
    }
}

/// Law: while the breaker is tripped, recording trades changes nothing.
pub proof fn lemma_tripped_breaker_ignores_trades(
    b: BreakerCore,
    outcome: TradeOutcome,
    daily_limit_hit: bool,
    drawdown_hit: bool,
    now: u64,
)
    requires
        b.wf(),
        b.spec_is_tripped(),
    ensures
        spec_record_trade(b, outcome, daily_limit_hit, drawdown_hit, now) == b,
{
}

/// Law: why an untripped breaker trips on a trade. The daily loss limit
/// trips it, whatever else holds; otherwise the drawdown limit trips it,
/// whatever the trade's outcome; otherwise a loss that brings the streak
/// to five trips it for consecutive losses; otherwise it stays untripped.
/// A trip is stamped with the trade's time, and the streak counts the
/// losses in a row (a profit ends it, a flat trade leaves it).
pub proof fn lemma_trip_reasons(
    b: BreakerCore,
    outcome: TradeOutcome,
    daily_limit_hit: bool,
    drawdown_hit: bool,
    now: u64,
)
    requires
        b.wf(),
        !b.spec_is_tripped(),
    ensures
        daily_limit_hit ==> spec_record_trade(b, outcome, daily_limit_hit, drawdown_hit, now).trip_reason
            == Some(TripReason::DailyLossLimit),
        !daily_limit_hit && drawdown_hit ==> spec_record_trade(
            b,
            outcome,
            daily_limit_hit,
            drawdown_hit,
            now,
        ).trip_reason == Some(TripReason::MaxDrawdown),
        !daily_limit_hit && !drawdown_hit && outcome == TradeOutcome::Loss && b.consecutive_losses + 1
            >= MAX_CONSECUTIVE_LOSSES ==> spec_record_trade(
            b,
            outcome,
            daily_limit_hit,
            drawdown_hit,
            now,
        ).trip_reason == Some(TripReason::ConsecutiveLosses),
        spec_record_trade(b, outcome, daily_limit_hit, drawdown_hit, now).spec_is_tripped() <==> (
        daily_limit_hit || drawdown_hit || (outcome == TradeOutcome::Loss && b.consecutive_losses + 1
            >= MAX_CONSECUTIVE_LOSSES)),
        spec_record_trade(b, outcome, daily_limit_hit, drawdown_hit, now).spec_is_tripped()
            ==> spec_record_trade(b, outcome, daily_limit_hit, drawdown_hit, now).trip_time_ms == Some(now),
        !spec_record_trade(b, outcome, daily_limit_hit, drawdown_hit, now).spec_is_tripped()
            ==> spec_record_trade(b, outcome, daily_limit_hit, drawdown_hit, now).trip_reason is None,
        outcome == TradeOutcome::Loss ==> spec_record_trade(
            b,
            outcome,
            daily_limit_hit,
            drawdown_hit,
            now,
        ).consecutive_losses == b.consecutive_losses + 1,
        outcome == TradeOutcome::Profit ==> spec_record_trade(
            b,
            outcome,
            daily_limit_hit,
            drawdown_hit,
            now,
        ).consecutive_losses == 0,
        outcome == TradeOutcome::Flat ==> spec_record_trade(
            b,
            outcome,
            daily_limit_hit,
            drawdown_hit,
            now,
        ).consecutive_losses == b.consecutive_losses,
        spec_record_trade(b, outcome, daily_limit_hit, drawdown_hit, now).cooldown_secs
            == b.cooldown_secs,
{
}

/// Law: a profitable trade always ends the loss streak (the breaker stays
/// untripped unless a money limit was hit).
pub proof fn lemma_profit_breaks_streak(b: BreakerCore, now: u64)
    requires
        b.wf(),
        !b.spec_is_tripped(),
    ensures
        spec_record_trade(b, TradeOutcome::Profit, false, false, now).consecutive_losses == 0,
        !spec_record_trade(b, TradeOutcome::Profit, false, false, now).spec_is_tripped(),
{
}

/// Applies a run of losing trades that hit no money limit.
pub open spec fn run_losses(b: BreakerCore, n: nat, now: u64) -> BreakerCore
    decreases n,
{
    if n == 0 {
        b
    } else {
        spec_record_trade(run_losses(b, (n - 1) as nat, now), TradeOutcome::Loss, false, false, now)
    }
}

/// Law: from a fresh breaker, fewer than five losses in a row leave it
/// untripped, and the fifth trips it for consecutive losses.
pub proof fn lemma_five_losses_trip(b: BreakerCore, now: u64)
    requires
        b.wf(),
        !b.spec_is_tripped(),
        b.consecutive_losses == 0,
    ensures
        forall|k: nat| k < 5 ==> !(#[trigger] run_losses(b, k, now)).spec_is_tripped() && run_losses(b, k, now).consecutive_losses == k,
        run_losses(b, 5, now).spec_is_tripped(),
        run_losses(b, 5, now).trip_reason == Some(TripReason::ConsecutiveLosses),
{
    reveal_with_fuel(run_losses, 6);
}

/// Law: a tripped breaker refuses trading until its cooldown is over, and
/// from then on allows it and is fully reset.
pub proof fn lemma_cooldown_gate(b: BreakerCore, now: u64)
    requires
        b.wf(),
        b.spec_is_tripped(),
    ensures
        !cooldown_over(b.trip_time_ms->0, now, b.cooldown_secs) ==> spec_check_allowed(b, now) == (b, false),
        cooldown_over(b.trip_time_ms->0, now, b.cooldown_secs) ==> {
            &&& spec_check_allowed(b, now).1
            &&& !spec_check_allowed(b, now).0.spec_is_tripped()
            &&& spec_check_allowed(b, now).0.consecutive_losses == 0
        },
{
}

} // verus!
