use vstd::prelude::*;

verus! {

/// DEX identifier.
#[derive(Debug, Clone, Copy, PartialEq, Eq, Hash, Structural)]
pub enum DexId {
    Jupiter,
    Raydium,
    Orca,
    Phoenix,
    OpenBook,
}

pub open spec fn spec_dex_name(d: DexId) -> Seq<char> {
    match d {
        DexId::Jupiter => "Jupiter"@,
        DexId::Raydium => "Raydium"@,
        DexId::Orca => "Orca"@,
        DexId::Phoenix => "Phoenix"@,
        DexId::OpenBook => "OpenBook"@,
    }
}

impl DexId {
    /// Display name of the DEX.
    pub fn name(&self) -> (s: &'static str)
        ensures
            s@ == spec_dex_name(*self),
    {
        match self {
            DexId::Jupiter => "Jupiter",
            DexId::Raydium => "Raydium",
            DexId::Orca => "Orca",
            DexId::Phoenix => "Phoenix",
            DexId::OpenBook => "OpenBook",
        }
    }
}

/// How fresh the older of two quotes is, in seconds, as a confidence tier:
/// 3 under 5 s, 2 under 10 s, 1 otherwise.
pub fn quote_age_tier(now: i64, ts_a: i64, ts_b: i64) -> (tier: u8)
    requires
        i64::MIN <= now - ts_a <= i64::MAX,
        i64::MIN <= now - ts_b <= i64::MAX,
    ensures
        ({
            let age_a = now - ts_a;
            let age_b = now - ts_b;
            let max_age = if age_a > age_b { age_a } else { age_b };
            tier == (if max_age < 5 { 3u8 } else if max_age < 10 { 2u8 } else { 1u8 })
        }),
        tier == 3 <==> (now - ts_a < 5 && now - ts_b < 5),
        tier == 1 <==> (now - ts_a >= 10 || now - ts_b >= 10),
        1 <= tier <= 3,
{
    let age_a: i64 = now - ts_a;
    let age_b: i64 = now - ts_b;
    let max_age = if age_a > age_b {
        age_a
    } else {
        age_b
    };
    if max_age < 5 {
        3
    } else if max_age < 10 {
        2
    } else {
        1
    }
}

} // verus!
