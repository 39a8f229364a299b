//! Points in time, and the differences between them.

use vstd::prelude::*;

verus! {

/// The smallest second that a point in time can have.
pub const MIN_SECONDS: i64 = -8_334_601_228_800;

/// The largest second that a point in time can have.
pub const MAX_SECONDS: i64 = 8_210_266_876_799;

/// A point in time: whole seconds since the start of 1970 in UTC, and the
/// nanoseconds beyond them.
#[derive(Clone, Copy, PartialEq, Eq, Structural, Debug)]
pub struct Timestamp {
    secs: i64,
    nanos: u32,
}

/// The quotient of `a` by the positive `b`, rounded towards zero.
pub open spec fn quotient(a: int, b: int) -> int {
    if a >= 0 {
        a / b
    } else {
        -((-a) / b)
    }
}

/// The text that chrono's `to_rfc3339` writes for a point in time in UTC.
pub uninterp spec fn rfc3339_text(secs: i64, nanos: u32) -> Seq<char>;

/// `Utc::now` of chrono. Nothing is claimed of the time that it gives.
#[verifier::external_body]
fn utc_now() -> (t: Timestamp)
{
    let now = chrono::Utc::now();
    Timestamp { secs: now.timestamp(), nanos: now.timestamp_subsec_nanos() }
}

/// `DateTime::to_rfc3339` of chrono, for the point in time in UTC: the text
/// depends on the point in time alone.
#[verifier::external_body]
fn utc_rfc3339(secs: i64, nanos: u32) -> (s: String)
    requires
        MIN_SECONDS <= secs <= MAX_SECONDS,
        nanos < 1_000_000_000,
    ensures
        s@ == rfc3339_text(secs, nanos),
{
    chrono::DateTime::<chrono::Utc>::from_timestamp(secs, nanos).unwrap_or_default().to_rfc3339()
}

/// The text that chrono's `format` writes for a second in UTC with
/// "%Y-%m-%d %H:%M:%S".
pub uninterp spec fn seconds_text(secs: i64) -> Seq<char>;

/// `DateTime::format` of chrono with "%Y-%m-%d %H:%M:%S", for the second in
/// UTC: the text depends on the second alone.
#[verifier::external_body]
fn utc_seconds_text(secs: i64) -> (s: String)
    requires
        MIN_SECONDS <= secs <= MAX_SECONDS,
    ensures
        s@ == seconds_text(secs),
{
    let at = chrono::DateTime::<chrono::Utc>::from_timestamp(secs, 0).unwrap_or_default();
    at.format("%Y-%m-%d %H:%M:%S").to_string()
}

/// The second since the start of 1970 and the nanoseconds beyond it that
/// chrono's `parse_from_str` finds in a text with "%Y-%m-%dT%H:%M:%S%z".
pub uninterp spec fn offset_text_instant(text: Seq<char>) -> Option<(i64, u32)>;

/// `DateTime::parse_from_str` of chrono with "%Y-%m-%dT%H:%M:%S%z": the parts
/// of the point in time, where the text has that form.
#[verifier::external_body]
fn parse_offset_text(text: &str) -> (r: Option<(i64, u32)>)
    ensures
        r == offset_text_instant(text@),
{
    match chrono::DateTime::parse_from_str(text, "%Y-%m-%dT%H:%M:%S%z") {
        Ok(t) => Some((t.timestamp(), t.timestamp_subsec_nanos())),
        Err(_) => None,
    }
}

/// A point in time that a text gives: whole seconds since the start of 1970 in
/// UTC, and the nanoseconds beyond them. In a leap second, which counts to the
/// second before it, these are a second or more.
#[derive(Clone, Copy, PartialEq, Eq, Structural, Debug)]
pub struct TextTime {
    pub secs: i64,
    pub nanos: u32,
}

/// The parts of a point in time.
pub open spec fn time_parts(t: Option<TextTime>) -> Option<(i64, u32)> {
    match t {
        Some(t) => Some((t.secs, t.nanos)),
        None => None,
    }
}

/// Reads the point in time that a text such as "2024-01-08T22:42:15+0800"
/// gives.
pub fn parse_offset(text: &str) -> (r: Option<TextTime>)
    ensures
        time_parts(r) == offset_text_instant(text@),
{
    match parse_offset_text(text) {
        Some((secs, nanos)) => Some(TextTime { secs, nanos }),
        None => None,
    }
}

impl Timestamp {
    #[verifier::type_invariant]
    spec fn in_range(self) -> bool {
        MIN_SECONDS <= self.secs <= MAX_SECONDS && self.nanos < 1_000_000_000
    }

    /// The whole seconds since the start of 1970.
    pub closed spec fn seconds(self) -> i64 {
        self.secs
    }

    /// The nanoseconds beyond the whole seconds.
    pub closed spec fn subsec(self) -> u32 {
        self.nanos
    }

    /// The nanoseconds since the start of 1970.
    pub open spec fn instant(self) -> int {
        self.seconds() * 1_000_000_000 + self.subsec()
    }

    /// The point in time with the given parts, where they are in range.
    pub fn new(secs: i64, nanos: u32) -> (r: Option<Timestamp>)
        ensures
            r is Some <==> MIN_SECONDS <= secs <= MAX_SECONDS && nanos < 1_000_000_000,
            r matches Some(t) ==> t.seconds() == secs && t.subsec() == nanos,
    {
        if MIN_SECONDS <= secs && secs <= MAX_SECONDS && nanos < 1_000_000_000 {
            Some(Timestamp { secs, nanos })
        } else {
            None
        }
    }

    /// The current time.
    pub fn now() -> (t: Timestamp)
    {
        utc_now()
    }

    /// The whole seconds since the start of 1970.
    pub fn timestamp(&self) -> (r: i64)
        ensures
            r == self.seconds(),
            MIN_SECONDS <= r <= MAX_SECONDS,
    {
        proof {
            use_type_invariant(self);
        }
        self.secs
    }

    /// The nanoseconds beyond the whole seconds.
    pub fn timestamp_subsec_nanos(&self) -> (r: u32)
        ensures
            r == self.subsec(),
            r < 1_000_000_000,
    {
        proof {
            use_type_invariant(self);
        }
        self.nanos
    }

    /// The RFC 3339 text of this point in time.
    pub fn to_rfc3339(&self) -> (s: String)
        ensures
            s@ == rfc3339_text(self.seconds(), self.subsec()),
    {
        proof {
            use_type_invariant(self);
        }
        utc_rfc3339(self.secs, self.nanos)
    }

    /// The date and time in UTC, to the second.
    pub fn to_seconds_text(&self) -> (s: String)
        ensures
            s@ == seconds_text(self.seconds()),
    {
        proof {
            use_type_invariant(self);
        }
        utc_seconds_text(self.secs)
    }

    /// The difference in units of `unit` nanoseconds, rounded towards zero.
    fn difference(&self, earlier: &Timestamp, unit: i128) -> (r: i64)
        requires
            1_000_000 <= unit,
        ensures
            r == quotient(self.instant() - earlier.instant(), unit as int),
    {
        proof {
            use_type_invariant(self);
            use_type_invariant(earlier);
        }
        let d: i128 = (self.secs as i128 - earlier.secs as i128) * 1_000_000_000 + (
        self.nanos as i128 - earlier.nanos as i128);
        if d >= 0 {
            assert(0 <= d / unit <= d / 1_000_000) by (nonlinear_arith)
                requires
                    d >= 0,
                    unit >= 1_000_000,
            ;
            (d / unit) as i64
        } else {
            let e: i128 = -d;
            assert(0 <= e / unit <= e / 1_000_000) by (nonlinear_arith)
                requires
                    e >= 0,
                    unit >= 1_000_000,
            ;
            -((e / unit) as i64)
        }
    }

    /// The milliseconds from `earlier` to this point in time, rounded towards
    /// zero.
    pub fn millis_since(&self, earlier: &Timestamp) -> (r: i64)
        ensures
            r == quotient(self.instant() - earlier.instant(), 1_000_000),
    {
        self.difference(earlier, 1_000_000)
    }

    /// The seconds from `earlier` to this point in time, rounded towards zero.
    pub fn seconds_since(&self, earlier: &Timestamp) -> (r: i64)
        ensures
            r == quotient(self.instant() - earlier.instant(), 1_000_000_000),
    {
        self.difference(earlier, 1_000_000_000)
    }

    /// The hours from `earlier` to this point in time, rounded towards zero.
    pub fn hours_since(&self, earlier: &Timestamp) -> (r: i64)
        ensures
            r == quotient(self.instant() - earlier.instant(), 3_600_000_000_000),
    {
        self.difference(earlier, 3_600_000_000_000)
    }

    /// Whether more than `secs` seconds lie between `earlier` and this point
    /// in time.
    pub fn more_than_seconds_since(&self, earlier: &Timestamp, secs: i64) -> (r: bool)
        ensures
            r == (self.instant() - earlier.instant() > secs * 1_000_000_000),
    {
        proof {
            use_type_invariant(self);
            use_type_invariant(earlier);
        }
        let d: i128 = (self.secs as i128 - earlier.secs as i128) * 1_000_000_000 + (
        self.nanos as i128 - earlier.nanos as i128);
        d > secs as i128 * 1_000_000_000
    }

    /// Whether less than `secs` seconds lie between `earlier` and this point
    /// in time.
    pub fn less_than_seconds_since(&self, earlier: &Timestamp, secs: i64) -> (r: bool)
        ensures
            r == (self.instant() - earlier.instant() < secs * 1_000_000_000),
    {
        proof {
            use_type_invariant(self);
            use_type_invariant(earlier);
        }
        let d: i128 = (self.secs as i128 - earlier.secs as i128) * 1_000_000_000 + (
        self.nanos as i128 - earlier.nanos as i128);
        d < secs as i128 * 1_000_000_000
    }

    /// The point in time `secs` seconds later, where there is one.
    pub fn plus_seconds(&self, secs: i64) -> (r: Option<Timestamp>)
        ensures
            r is Some <==> MIN_SECONDS <= self.seconds() + secs <= MAX_SECONDS,
            r matches Some(t) ==> t.instant() == self.instant() + secs * 1_000_000_000,
    {
        proof {
            use_type_invariant(self);
        }
        let s: i128 = self.secs as i128 + secs as i128;
        if MIN_SECONDS as i128 <= s && s <= MAX_SECONDS as i128 {
            Some(Timestamp { secs: s as i64, nanos: self.nanos })
        } else {
            None
        }
    }
}

} // verus!
