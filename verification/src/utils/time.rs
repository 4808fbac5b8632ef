use vstd::prelude::*;

verus! {

/// Milliseconds in a day.
pub const DAY_MS: i64 = 86_400_000;

/// The earliest instant (ms since the epoch, UTC) that a `chrono::DateTime<Utc>` can hold:
/// -262143-01-01T00:00:00.000.
pub const MIN_TIMESTAMP_MS: i64 = -8_334_601_228_800_000;

/// The latest instant (ms since the epoch, UTC) that a `chrono::DateTime<Utc>` can hold:
/// +262142-12-31T23:59:59.999.
pub const MAX_TIMESTAMP_MS: i64 = 8_210_266_876_799_999;

/// An instant that a UTC date-time can represent.
pub open spec fn valid_timestamp(ms: int) -> bool {
    MIN_TIMESTAMP_MS <= ms <= MAX_TIMESTAMP_MS
}

/// Integer division rounding toward zero, as Rust's `/` on signed integers.
pub open spec fn div_toward_zero(a: int, b: int) -> int
    recommends
        b != 0,
{
    let q = (if a >= 0 { a } else { -a }) / (if b >= 0 { b } else { -b });
    if (a >= 0) == (b > 0) {
        q
    } else {
        -q
    }
}

/// The day number (days since 1970-01-01, UTC) of an instant.
pub open spec fn day_of(ms: int) -> int {
    ms / (DAY_MS as int)
}

/// Milliseconds since midnight (UTC) of an instant.
pub open spec fn ms_of_day(ms: int) -> int {
    ms % (DAY_MS as int)
}

/// The hour (UTC) of an instant.
pub open spec fn hour_of(ms: int) -> int {
    ms_of_day(ms) / 3_600_000
}

/// The minute within the hour (UTC) of an instant.
pub open spec fn minute_of(ms: int) -> int {
    (ms_of_day(ms) / 60_000) % 60
}

/// The day number of an instant (rounding toward the past).
pub fn day_number(ms: i64) -> (day: i64)
    ensures
        day == day_of(ms as int),
{
    let q = ms / DAY_MS;
    let r = ms % DAY_MS;
    proof { lemma_trunc_euclid(ms as int, DAY_MS as int); }
    if r < 0 {
        q - 1
    } else {
        q
    }
}

/// Milliseconds since midnight of an instant.
pub fn millis_of_day(ms: i64) -> (t: i64)
    ensures
        t == ms_of_day(ms as int),
        0 <= t < DAY_MS,
{
    let r = ms % DAY_MS;
    proof { lemma_trunc_euclid(ms as int, DAY_MS as int); }
    if r < 0 {
        r + DAY_MS
    } else {
        r
    }
}

/// How truncating division and remainder relate to the Euclidean ones.
proof fn lemma_trunc_euclid(a: int, b: int)
    requires
        b > 0,
    ensures
        a >= 0 ==> div_toward_zero(a, b) == a / b,
        a < 0 && (-a) % b == 0 ==> div_toward_zero(a, b) == a / b && a % b == 0,
        a < 0 && (-a) % b != 0 ==> div_toward_zero(a, b) == a / b + 1,
        a == b * div_toward_zero(a, b) + (a - b * div_toward_zero(a, b)),
{
    if a < 0 {
        let n = -a;
        let q = n / b;
        let r = n % b;
        assert(n == b * q + r) by (nonlinear_arith)
            requires q == n / b, r == n % b, b > 0;
        assert(0 <= r < b);
        if r == 0 {
            assert(a == (-q) * b + 0) by (nonlinear_arith) requires n == b * q + r, r == 0, a == -n;
            vstd::arithmetic::div_mod::lemma_fundamental_div_mod_converse(a, b, -q, 0);
        } else {
            assert(a == (-q - 1) * b + (b - r)) by (nonlinear_arith)
                requires n == b * q + r, a == -n;
            vstd::arithmetic::div_mod::lemma_fundamental_div_mod_converse(a, b, -q - 1, b - r);
        }
    }
}

} // verus!
