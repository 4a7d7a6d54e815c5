use vstd::prelude::*;
use crate::circuit_breaker::elapsed_ms;

verus! {

/// What serde_json reads from `bytes` as a JSON array of bytes (`None`
/// when the text is not such an array).
pub uninterp spec fn json_byte_array(bytes: Seq<u8>) -> Option<Seq<u8>>;

/// Calls `serde_json::from_slice::<Vec<u8>>`; its result is named by
/// `json_byte_array` (Some on success, None on any parse error).
#[verifier::external_body]
fn parse_json_byte_array(bytes: &[u8]) -> (r: Option<Vec<u8>>)
    ensures
        match r {
            Some(v) => json_byte_array(bytes@) == Some(v@),
            None => json_byte_array(bytes@) is None,
        },
{
    serde_json::from_slice::<Vec<u8>>(bytes).ok()
}

/// Why a keypair file could not be read.
#[derive(Debug, Clone, Copy, PartialEq, Eq, Structural)]
pub enum KeypairFormatError {
    /// Not raw key bytes and not a JSON byte array.
    Json,
    /// A JSON byte array of neither 32 nor 64 bytes (its length).
    InvalidLength(usize),
}

/// The 32-byte secret in a key of 64 bytes (secret then public half) or 32 bytes.
pub open spec fn spec_secret_of(key: Seq<u8>) -> Option<Seq<u8>> {
    if key.len() == 64 {
        Some(key.subrange(0, 32))
    } else if key.len() == 32 {
        Some(key)
    } else {
        None
    }
}

/// The secret a keypair file holds: the raw key bytes when the file is
/// 64 or 32 bytes long, otherwise the key written as a JSON byte array.
pub open spec fn spec_keypair_secret(file: Seq<u8>) -> Result<Seq<u8>, KeypairFormatError> {
    if file.len() == 64 || file.len() == 32 {
        Ok(spec_secret_of(file)->0)
    } else {
        match json_byte_array(file) {
            None => Err(KeypairFormatError::Json),
            Some(key) => spec_secret_from_json(key),
        }
    }
}

pub open spec fn spec_secret_from_json(key: Seq<u8>) -> Result<Seq<u8>, KeypairFormatError> {
    match spec_secret_of(key) {
        Some(s) => Ok(s),
        None => Err(KeypairFormatError::InvalidLength(key.len() as usize)),
    }
}

fn secret_of(key: &[u8]) -> (r: Option<Vec<u8>>)
    ensures
        match r {
            Some(v) => spec_secret_of(key@) == Some(v@),
            None => spec_secret_of(key@) is None,
        },
{
    if key.len() == 64 || key.len() == 32 {
        let mut out: Vec<u8> = Vec::new();
        let mut i: usize = 0;
        while i < 32
            invariant
                key@.len() >= 32,
                i <= 32,
                out@ == key@.subrange(0, i as int),
            decreases 32 - i,
        {
            out.push(key[i]);
            i = i + 1;
            proof {
                assert(out@ =~= key@.subrange(0, i as int));
            }
        }
        proof {
            if key@.len() == 32 {
                assert(key@.subrange(0, 32) =~= key@);
            }
        }
        Some(out)
    } else {
        None
    }
}

/// The 32-byte secret of a key read from a JSON byte array.
pub fn secret_from_json_key(key: &[u8]) -> (r: Result<Vec<u8>, KeypairFormatError>)
    ensures
        match r {
            Ok(v) => spec_secret_from_json(key@) == Ok::<Seq<u8>, KeypairFormatError>(v@),
            Err(e) => spec_secret_from_json(key@) == Err::<Seq<u8>, KeypairFormatError>(e),
        },
{
    match secret_of(key) {
        Some(v) => Ok(v),
        None => Err(KeypairFormatError::InvalidLength(key.len())),
    }
}

/// Extracts the 32-byte secret key from the contents of a keypair file.
pub fn keypair_secret(file: &[u8]) -> (r: Result<Vec<u8>, KeypairFormatError>)
    ensures
        match r {
            Ok(v) => spec_keypair_secret(file@) == Ok::<Seq<u8>, KeypairFormatError>(v@) && v@.len() == 32,
            Err(e) => spec_keypair_secret(file@) == Err::<Seq<u8>, KeypairFormatError>(e),
        },
{
    if file.len() == 64 || file.len() == 32 {
        match secret_of(file) {
            Some(v) => Ok(v),
            None => Err(KeypairFormatError::Json),
        }
    } else {
        match parse_json_byte_array(file) {
            None => Err(KeypairFormatError::Json),
            Some(key) => secret_from_json_key(key.as_slice()),
        }
    }
}

/// One day on the monotonic clock, in ms.
pub const DAY_MS: u64 = 86_400_000;

/// Daily trade-count limit of the keystore. Volume limits (in USDC) are
/// kept by the caller.
pub struct DailyTradeLimit {
    pub max_daily_trades: Option<u32>,
    pub daily_tx_count: u64,
    /// Monotonic clock reading (ms) of the last daily reset.
    pub last_reset_ms: u64,
}

/// A trade that would exceed the daily trade count.
#[derive(Debug, Clone, Copy, PartialEq, Eq, Structural)]
pub struct TradeLimitReached {
    pub count: u64,
    pub max: u32,
}

/// Whether the day's trade count still allows a trade.
pub open spec fn spec_trade_allowed(l: DailyTradeLimit) -> bool {
    match l.max_daily_trades {
        Some(max) => l.daily_tx_count < max,
        None => true,
    }
}

/// The limit after the day check at `now`.
pub open spec fn spec_roll_day(l: DailyTradeLimit, now: u64) -> DailyTradeLimit {
    if elapsed_ms(l.last_reset_ms, now) > DAY_MS {
        DailyTradeLimit { daily_tx_count: 0, last_reset_ms: now, ..l }
    } else {
        l
    }
}

impl DailyTradeLimit {
    pub fn new(max_daily_trades: Option<u32>, now_ms: u64) -> (l: Self)
        ensures
            l.max_daily_trades == max_daily_trades,
            l.daily_tx_count == 0,
            l.last_reset_ms == now_ms,
    {
        DailyTradeLimit { max_daily_trades, daily_tx_count: 0, last_reset_ms: now_ms }
    }

    /// Starts a new day once more than a day has passed since the last
    /// reset; returns whether it did (the caller then clears its volume).
    pub fn roll_day(&mut self, now_ms: u64) -> (reset: bool)
        ensures
            reset == (elapsed_ms(old(self).last_reset_ms, now_ms) > DAY_MS),
            *final(self) == spec_roll_day(*old(self), now_ms),
    {
        let elapsed: u64 = if now_ms >= self.last_reset_ms {
            now_ms - self.last_reset_ms
        } else {
            0
        };
        if elapsed > DAY_MS {
            self.daily_tx_count = 0;
            self.last_reset_ms = now_ms;
            true
        } else {
            false
        }
    }

    /// Refuses a trade once the day's trade count reached the maximum.
    pub fn check_trade_count(&self) -> (r: Result<(), TradeLimitReached>)
        ensures
            match self.max_daily_trades {
                Some(max) => if self.daily_tx_count >= max {
                    r == Err::<(), TradeLimitReached>(TradeLimitReached { count: self.daily_tx_count, max })
                } else {
                    r is Ok
                },
                None => r is Ok,
            },
            r is Ok <==> spec_trade_allowed(*self),
    {
        match self.max_daily_trades {
            Some(max) => {
                if self.daily_tx_count >= max as u64 {
                    Err(TradeLimitReached { count: self.daily_tx_count, max })
                } else {
                    Ok(())
                }
            },
            None => Ok(()),
        }
    }

    /// Counts an executed transaction (wrapping like an atomic counter).
    pub fn record_transaction(&mut self)
        ensures
            final(self).daily_tx_count == (if old(self).daily_tx_count == u64::MAX { 0 } else { old(self).daily_tx_count + 1 }),
            final(self).max_daily_trades == old(self).max_daily_trades,
            final(self).last_reset_ms == old(self).last_reset_ms,
    {
        self.daily_tx_count = self.daily_tx_count.wrapping_add(1);
    }
}

/// Law: once the day's trade count reaches a positive maximum, trades are
/// refused until a day has passed since the last reset; the first check
/// after that allows trading again.
pub proof fn lemma_limit_holds_until_new_day(l: DailyTradeLimit, now: u64)
    requires
        l.max_daily_trades is Some,
        l.max_daily_trades->0 > 0,
        l.daily_tx_count >= l.max_daily_trades->0,
    ensures
        !spec_trade_allowed(l),
        elapsed_ms(l.last_reset_ms, now) <= DAY_MS ==> !spec_trade_allowed(spec_roll_day(l, now)),
        elapsed_ms(l.last_reset_ms, now) > DAY_MS ==> spec_trade_allowed(spec_roll_day(l, now)),
{
}

/// Configuration check on the trade-count limit: a limit of zero trades is refused.
pub fn max_daily_trades_valid(max_daily_trades: Option<u32>) -> (ok: bool)
    ensures
        ok == !(max_daily_trades == Some(0u32)),
{
    match max_daily_trades {
        Some(m) => m != 0,
        None => true,
    }
}

} // verus!
