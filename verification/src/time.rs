use vstd::prelude::*;

verus! {

/// Seconds since the Unix epoch of the first instant chrono can represent
/// (-262143-01-01T00:00:00Z).
pub const MIN_UTC_SECS: i64 = -8_334_601_228_800i64;

/// Seconds since the Unix epoch of the last whole second chrono can represent
/// (+262142-12-31T23:59:59Z).
pub const MAX_UTC_SECS: i64 = 8_210_266_876_799i64;

/// Seconds since the Unix epoch of 0000-01-01T00:00:00Z, the first instant
/// whose year RFC 3339 writes with four digits.
pub const RFC3339_MIN_SECS: i64 = -62_167_219_200i64;

/// Seconds since the Unix epoch of 9999-12-31T23:59:59Z, the last whole
/// second whose year RFC 3339 writes with four digits.
pub const RFC3339_MAX_SECS: i64 = 253_402_300_799i64;

/// Whether the instant with this timestamp lies in the years 0 to 9999.
pub open spec fn four_digit_year(secs: int) -> bool {
    RFC3339_MIN_SECS <= secs <= RFC3339_MAX_SECS
}

/// Nanoseconds in one second.
pub const NANOS_PER_SEC: u32 = 1_000_000_000u32;

/// Seconds in one day.
pub const SECS_PER_DAY: i64 = 86_400i64;

/// Whether chrono can build a UTC date-time from this Unix timestamp and
/// sub-second part: the date must lie in chrono's range, and a sub-second
/// part of one second or more (a leap second) is only allowed in the last
/// second of a minute.
pub open spec fn representable(secs: int, nanos: int) -> bool {
    &&& MIN_UTC_SECS <= secs <= MAX_UTC_SECS
    &&& 0 <= nanos < 2 * NANOS_PER_SEC
    &&& (nanos >= NANOS_PER_SEC ==> secs % 60 == 59)
}

/// An instant in UTC, as a Unix timestamp and the nanoseconds since that
/// second began (more than a second's worth only during a leap second).
pub struct UtcTime {
    secs: i64,
    nanos: u32,
}

impl View for UtcTime {
    type V = (i64, u32);

    closed spec fn view(&self) -> (i64, u32) {
        (self.secs, self.nanos)
    }
}

/// Strict chronological order on instants given as `(secs, nanos)`.
pub open spec fn earlier(a: (i64, u32), b: (i64, u32)) -> bool {
    a.0 < b.0 || (a.0 == b.0 && a.1 < b.1)
}

/// The second within its minute of the Unix timestamp `secs` (0 to 59).
fn second_of_minute(secs: i64) -> (s: i64)
    ensures
        s == secs as int % 60,
{
    let r = secs % 60;
    if r < 0 {
        r + 60
    } else {
        r
    }
}

impl UtcTime {
    #[verifier::type_invariant]
    spec fn inv(self) -> bool {
        representable(self.secs as int, self.nanos as int)
    }

    /// The instant `secs` seconds and `nanos` nanoseconds after the Unix
    /// epoch, if chrono can represent it.
    pub fn from_timestamp(secs: i64, nanos: u32) -> (t: Option<UtcTime>)
        ensures
            t is Some <==> representable(secs as int, nanos as int),
            t matches Some(t) ==> t@ == (secs, nanos),
    {
        if MIN_UTC_SECS <= secs && secs <= MAX_UTC_SECS && nanos < 2 * NANOS_PER_SEC && (nanos
            < NANOS_PER_SEC || second_of_minute(secs) == 59) {
            Some(UtcTime { secs, nanos })
        } else {
            None
        }
    }

    /// Seconds since the Unix epoch.
    pub fn timestamp(&self) -> (s: i64)
        ensures
            s == self@.0,
    {
        self.secs
    }

    /// Nanoseconds since the last whole second.
    pub fn subsec_nanos(&self) -> (n: u32)
        ensures
            n == self@.1,
    {
        self.nanos
    }

    /// Whether `self` comes strictly before `other`.
    pub fn is_before(&self, other: &UtcTime) -> (b: bool)
        ensures
            b == earlier(self@, other@),
    {
        self.secs < other.secs || (self.secs == other.secs && self.nanos < other.nanos)
    }

    /// The same time of day `days` whole days later; `None` where that lies
    /// beyond the last instant chrono represents.
    pub fn checked_add_days(&self, days: i64) -> (t: Option<UtcTime>)
        requires
            self@.1 < NANOS_PER_SEC,
            0 <= days <= i64::MAX / SECS_PER_DAY,
        ensures
            self@.0 + days * SECS_PER_DAY <= MAX_UTC_SECS ==> (t matches Some(u) && u@ == (
                (self@.0 + days * SECS_PER_DAY) as i64,
                self@.1,
            )),
            self@.0 + days * SECS_PER_DAY > MAX_UTC_SECS ==> t is None,
    {
        proof {
            use_type_invariant(self);
        }
        if self.secs > MAX_UTC_SECS - days * SECS_PER_DAY {
            None
        } else {
            Some(UtcTime { secs: self.secs + days * SECS_PER_DAY, nanos: self.nanos })
        }
    }
}

/// The clock reading of chrono's `Utc::now`, as its timestamp and
/// sub-second nanoseconds.  What time it is cannot be stated; the source
/// builds the value with `DateTime::from_timestamp` from a `Duration`,
/// whose sub-second part is below one second, and unwraps it.
#[verifier::external_body]
fn chrono_now() -> (t: (i64, u32))
    ensures
        representable(t.0 as int, t.1 as int),
        t.1 < NANOS_PER_SEC,
{
    let now = chrono::Utc::now();
    (now.timestamp(), now.timestamp_subsec_nanos())
}

/// The current time (what chrono's `Utc::now` reads off the system clock).
pub fn utc_now() -> (t: UtcTime)
    ensures
        representable(t@.0 as int, t@.1 as int),
        t@.1 < NANOS_PER_SEC,
{
    let (secs, nanos) = chrono_now();
    UtcTime { secs, nanos }
}

/// What chrono's `DateTime::<Utc>::to_rfc3339` writes for the instant with
/// this timestamp and sub-second part.
pub uninterp spec fn rfc3339_text(secs: i64, nanos: u32) -> Seq<char>;

/// What chrono's `DateTime::parse_from_rfc3339` reads from `text`, taken to
/// UTC as a timestamp and sub-second part; `None` where it reports an error.
pub uninterp spec fn rfc3339_parsed(text: Seq<char>) -> Option<(i64, u32)>;

/// What chrono's `DateTime::<Utc>::format("%Y-%m-%d %H:%M")` writes for the
/// instant with this timestamp and sub-second part.
pub uninterp spec fn minute_text(secs: i64, nanos: u32) -> Seq<char>;

/// chrono's `DateTime::<Utc>::to_rfc3339` on the instant `(secs, nanos)`.
/// Claimed: the text is `rfc3339_text(secs, nanos)`, and for an instant in
/// the years 0 to 9999 `DateTime::parse_from_rfc3339` reads that same
/// instant back (`write_rfc3339` writes the year with four digits, every
/// sub-second digit, a leap second as `:60`, and the offset `+00:00`;
/// `parse_rfc3339` reads exactly that shape, `:60` as `:59` plus a second of
/// nanoseconds).  `from_timestamp` succeeds on every representable pair (its
/// source checks exactly that).
#[verifier::external_body]
fn chrono_rfc3339(secs: i64, nanos: u32) -> (s: String)
    requires
        representable(secs as int, nanos as int),
    ensures
        s@ == rfc3339_text(secs, nanos),
        four_digit_year(secs as int) ==> rfc3339_parsed(s@) == Some((secs, nanos)),
{
    chrono::DateTime::from_timestamp(secs, nanos).unwrap().to_rfc3339()
}

/// chrono's `DateTime::parse_from_rfc3339` followed by `with_timezone(&Utc)`.
/// Claimed: the result is `rfc3339_parsed(text)`, and a parsed instant is one
/// chrono represents (it is read back off a `DateTime`, as in the round trip
/// that chrono's documentation of `timestamp` shows).
#[verifier::external_body]
fn chrono_parse_rfc3339(text: &str) -> (t: Option<(i64, u32)>)
    ensures
        t == rfc3339_parsed(text@),
        t matches Some(p) ==> representable(p.0 as int, p.1 as int),
{
    match chrono::DateTime::parse_from_rfc3339(text) {
        Ok(d) => {
            let u = d.with_timezone(&chrono::Utc);
            Some((u.timestamp(), u.timestamp_subsec_nanos()))
        },
        Err(_) => None,
    }
}

/// chrono's `format("%Y-%m-%d %H:%M")` on the instant `(secs, nanos)`.
/// Claimed: the text is `minute_text(secs, nanos)`.
#[verifier::external_body]
fn chrono_minute_text(secs: i64, nanos: u32) -> (s: String)
    requires
        representable(secs as int, nanos as int),
    ensures
        s@ == minute_text(secs, nanos),
{
    chrono::DateTime::from_timestamp(secs, nanos).unwrap().format("%Y-%m-%d %H:%M").to_string()
}

impl UtcTime {
    /// The RFC 3339 text of this instant, as chrono writes it; chrono reads
    /// it back as this instant where it lies in the years 0 to 9999.
    pub fn to_rfc3339(&self) -> (s: String)
        ensures
            s@ == rfc3339_text(self@.0, self@.1),
            four_digit_year(self@.0 as int) ==> rfc3339_parsed(s@) == Some(self@),
    {
        proof {
            use_type_invariant(self);
        }
        chrono_rfc3339(self.secs, self.nanos)
    }

    /// This instant as `YYYY-MM-DD HH:MM`, as chrono writes it.
    pub fn format_minute(&self) -> (s: String)
        ensures
            s@ == minute_text(self@.0, self@.1),
    {
        proof {
            use_type_invariant(self);
        }
        chrono_minute_text(self.secs, self.nanos)
    }

    /// The instant that the RFC 3339 text denotes, if chrono can read it.
    pub fn parse_rfc3339(text: &str) -> (t: Option<UtcTime>)
        ensures
            match rfc3339_parsed(text@) {
                Some(p) => t matches Some(u) && u@ == p,
                None => t is None,
            },
    {
        match chrono_parse_rfc3339(text) {
            Some((secs, nanos)) => Some(UtcTime { secs, nanos }),
            None => None,
        }
    }
}

/// The instant that `text` denotes in RFC 3339, or, where chrono cannot read
/// it, the current time.
pub fn parse_time_or_now(text: &str) -> (t: UtcTime)
    ensures
        rfc3339_parsed(text@) matches Some(p) ==> t@ == p,
        rfc3339_parsed(text@) is None ==> t@.1 < NANOS_PER_SEC,
{
    match UtcTime::parse_rfc3339(text) {
        Some(t) => t,
        None => utc_now(),
    }
}

/// `earlier` is the chronological order: later seconds are later, within a
/// second more nanoseconds are later; no instant is earlier than itself,
/// of two different instants one is earlier, and the order is transitive.
pub proof fn lemma_earlier_is_chronological(a: (i64, u32), b: (i64, u32), c: (i64, u32))
    ensures
        a.0 < b.0 ==> earlier(a, b),
        a.0 == b.0 && a.1 < b.1 ==> earlier(a, b),
        !earlier(a, a),
        a != b ==> earlier(a, b) || earlier(b, a),
        earlier(a, b) ==> !earlier(b, a),
        earlier(a, b) && earlier(b, c) ==> earlier(a, c),
{
}

} // verus!
