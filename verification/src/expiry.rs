use vstd::prelude::*;

use crate::text::str_eq;
use crate::time::{earlier, representable, utc_now, UtcTime, MAX_UTC_SECS, NANOS_PER_SEC, SECS_PER_DAY};

verus! {

/// Days a paste lives for under the expiry option `opt`: `1d` one day, `1w`
/// a week, `1m` thirty days, `never` ten years of 365 days, and anything
/// else one day.
pub open spec fn expiry_days(opt: Seq<char>) -> i64 {
    if opt == "1d"@ {
        1
    } else if opt == "1w"@ {
        7
    } else if opt == "1m"@ {
        30
    } else if opt == "never"@ {
        3650
    } else {
        1
    }
}

/// The expiry instant for option `opt` counted from `now`, or `None` where
/// it would lie beyond the last instant chrono represents.
pub open spec fn expiry_instant(opt: Seq<char>, now: (i64, u32)) -> Option<(i64, u32)> {
    let secs = now.0 + expiry_days(opt) * SECS_PER_DAY;
    if secs <= MAX_UTC_SECS {
        Some((secs as i64, now.1))
    } else {
        None
    }
}

/// The number of days that expiry option `opt` stands for.
pub fn expiry_days_for(opt: &str) -> (d: i64)
    ensures
        d == expiry_days(opt@),
{
    if str_eq(opt, "1d") {
        1
    } else if str_eq(opt, "1w") {
        7
    } else if str_eq(opt, "1m") {
        30
    } else if str_eq(opt, "never") {
        3650
    } else {
        1
    }
}

/// When a paste made at `now` with expiry option `opt` expires; `None` where
/// that instant lies beyond chrono's range (chrono panics there).
pub fn expires_at_after(opt: &str, now: &UtcTime) -> (t: Option<UtcTime>)
    requires
        now@.1 < NANOS_PER_SEC,
    ensures
        match expiry_instant(opt@, now@) {
            Some(p) => t matches Some(u) && u@ == p,
            None => t is None,
        },
{
    let days = expiry_days_for(opt);
    now.checked_add_days(days)
}

/// When a paste made now with expiry option `opt` expires; `None` where the
/// clock reads so late that the instant lies beyond chrono's range.
pub fn expires_at_from_option(opt: &str) -> (t: Option<UtcTime>)
    ensures
        exists|now: (i64, u32)|
            representable(now.0 as int, now.1 as int) && now.1 < NANOS_PER_SEC && match expiry_instant(opt@, now) {
                Some(p) => t matches Some(u) && u@ == p,
                None => t is None,
            },
{
    let now = utc_now();
    expires_at_after(opt, &now)
}

/// Whether an instant `expires_at` lies in the past as seen at `now`.
pub fn is_expired(expires_at: &UtcTime, now: &UtcTime) -> (b: bool)
    ensures
        b == earlier(expires_at@, now@),
{
    expires_at.is_before(now)
}

/// A paste's expiry always lies strictly after the moment it was made, so a
/// freshly made paste is never expired then.
pub proof fn lemma_fresh_paste_not_expired(opt: Seq<char>, now: (i64, u32))
    requires
        expiry_instant(opt, now) is Some,
    ensures
        earlier(now, expiry_instant(opt, now)->0),
        !earlier(expiry_instant(opt, now)->0, now),
{
}

/// An expiry option that is none of `1d`, `1w`, `1m`, `never` counts as `1d`.
pub proof fn lemma_unknown_option_is_one_day(opt: Seq<char>, now: (i64, u32))
    requires
        opt != "1d"@,
        opt != "1w"@,
        opt != "1m"@,
        opt != "never"@,
    ensures
        expiry_instant(opt, now) == expiry_instant("1d"@, now),
{
}

/// Longer options never expire earlier: `1d` before `1w` before `1m` before
/// `never`.
pub proof fn lemma_options_ordered()
    ensures
        expiry_days("1d"@) < expiry_days("1w"@) < expiry_days("1m"@) < expiry_days("never"@),
{
    reveal_strlit("1d");
    reveal_strlit("1w");
    reveal_strlit("1m");
    reveal_strlit("never");
    assert("1w"@[1] != "1d"@[1]);
    assert("1m"@[1] != "1d"@[1] && "1m"@[1] != "1w"@[1]);
    assert("never"@.len() != "1d"@.len());
}

/// An expiry lies a whole number of days after the moment it is counted
/// from, at the same sub-second, and how far depends only on the option:
/// two moments with the same option get expiries the same distance away.
pub proof fn lemma_expiry_counted_from_now(opt: Seq<char>, now: (i64, u32), other: (i64, u32))
    requires
        expiry_instant(opt, now) is Some,
        expiry_instant(opt, other) is Some,
    ensures
        expiry_instant(opt, now).unwrap().1 == now.1,
        expiry_instant(opt, now).unwrap().0 > now.0,
        (expiry_instant(opt, now).unwrap().0 - now.0) % 86_400 == 0,
        expiry_instant(opt, now).unwrap().0 - now.0 == expiry_instant(opt, other).unwrap().0 - other.0,
{
    let d = expiry_days(opt);
    assert(1 <= d <= 3650);
    assert((d * 86_400) % 86_400 == 0) by (nonlinear_arith)
        requires
            1 <= d <= 3650,
    ;
}

/// The options stand for one day, one week, thirty days and ten years of
/// 365 days: counted from the same moment, `1w` lies seven times as far as
/// `1d`, `1m` thirty times and `never` 3650 times, and `1d` is 86 400
/// seconds away.
pub proof fn lemma_option_lengths(now: (i64, u32))
    requires
        expiry_instant("never"@, now) is Some,
    ensures
        expiry_instant("1d"@, now) is Some,
        expiry_instant("1w"@, now) is Some,
        expiry_instant("1m"@, now) is Some,
        expiry_instant("1d"@, now).unwrap().0 - now.0 == 86_400,
        expiry_instant("1w"@, now).unwrap().0 - now.0 == 7 * (expiry_instant("1d"@, now).unwrap().0 - now.0),
        expiry_instant("1m"@, now).unwrap().0 - now.0 == 30 * (expiry_instant("1d"@, now).unwrap().0 - now.0),
        expiry_instant("never"@, now).unwrap().0 - now.0 == 3650 * (expiry_instant("1d"@, now).unwrap().0
            - now.0),
{
    lemma_options_ordered();
}

} // verus!
