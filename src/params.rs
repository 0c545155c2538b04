use vstd::prelude::*;

verus! {

/// Forecast length used when the caller gives none.
pub const DEFAULT_FORECAST_DAYS: u32 = 7;

/// Longest forecast the provider serves, in days.
pub const MAX_FORECAST_DAYS: u32 = 16;

/// Number of location matches asked for when the caller gives none.
pub const DEFAULT_LOCATION_LIMIT: u32 = 10;

/// Largest number of location matches asked for.
pub const MAX_LOCATION_LIMIT: u32 = 100;

/// `v` held to the closed range `[lo, hi]`.
pub open spec fn clamped(v: int, lo: int, hi: int) -> int {
    if v < lo {
        lo
    } else if v > hi {
        hi
    } else {
        v
    }
}

/// A caller-supplied count, or its default when absent.
pub open spec fn given_or(v: Option<u32>, fallback: u32) -> int {
    match v {
        Some(x) => x as int,
        None => fallback as int,
    }
}

fn clamp_u32(v: u32, lo: u32, hi: u32) -> (r: u32)
    requires
        lo <= hi,
    ensures
        r == clamped(v as int, lo as int, hi as int),
{
    if v < lo {
        lo
    } else if v > hi {
        hi
    } else {
        v
    }
}

/// The forecast window: the caller's day count, 7 when absent, held to [1, 16].
pub fn forecast_days(days: Option<u32>) -> (r: u32)
    ensures
        r == clamped(given_or(days, DEFAULT_FORECAST_DAYS), 1, MAX_FORECAST_DAYS as int),
        1 <= r <= MAX_FORECAST_DAYS,
{
    let requested = match days {
        Some(d) => d,
        None => DEFAULT_FORECAST_DAYS,
    };
    clamp_u32(requested, 1, MAX_FORECAST_DAYS)
}

/// The location result limit: the caller's count, 10 when absent, held to [1, 100].
pub fn location_limit(limit: Option<u32>) -> (r: u32)
    ensures
        r == clamped(given_or(limit, DEFAULT_LOCATION_LIMIT), 1, MAX_LOCATION_LIMIT as int),
        1 <= r <= MAX_LOCATION_LIMIT,
{
    let requested = match limit {
        Some(l) => l,
        None => DEFAULT_LOCATION_LIMIT,
    };
    clamp_u32(requested, 1, MAX_LOCATION_LIMIT)
}

} // verus!
