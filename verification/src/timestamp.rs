//! UTC instants, held as whole seconds since the Unix epoch and the
//! nanoseconds past that second.

use vstd::prelude::*;

verus! {

/// The earliest second that `chrono::DateTime<Utc>` can hold
/// (January 1, 262143 BCE, 00:00:00).
pub const MIN_UTC_SECS: i64 = -8334601228800i64;

/// The latest second that `chrono::DateTime<Utc>` can hold
/// (December 31, 262142 CE, 23:59:59).
pub const MAX_UTC_SECS: i64 = 8210266876799i64;

/// Whether `(secs, nanos)` names an instant that `chrono::DateTime<Utc>` can
/// hold: the second is in range, and the nanoseconds stay below one second,
/// or below two seconds on the last second of a minute (a leap second).
pub open spec fn valid_instant(secs: int, nanos: int) -> bool {
    &&& MIN_UTC_SECS <= secs <= MAX_UTC_SECS
    &&& 0 <= nanos
    &&& (nanos < 1_000_000_000 || (nanos < 2_000_000_000 && secs % 60 == 59))
}

/// Whether the instant `a` is at or after the instant `b`, both given as
/// `(seconds, nanoseconds)`.
pub open spec fn at_or_after(a: (int, int), b: (int, int)) -> bool {
    a.0 > b.0 || (a.0 == b.0 && a.1 >= b.1)
}

/// Every character of `s` is a visible ASCII character (a space through `~`).
pub open spec fn visible_ascii(s: Seq<char>) -> bool {
    forall|i: int| 0 <= i < s.len() ==> ' ' <= #[trigger] s[i] && s[i] <= '~'
}

/// The text that chrono's `format("%a, %d %b %Y %H:%M:%S GMT")` gives for the
/// `DateTime<Utc>` that `DateTime::from_timestamp(secs, nanos)` builds.
pub uninterp spec fn http_date_text(secs: i64, nanos: u32) -> Seq<char>;

/// Calls `chrono::DateTime::<Utc>::from_timestamp(secs, nanos)`, which chrono
/// documents to succeed on every in-range instant, and formats the result
/// with `"%a, %d %b %Y %H:%M:%S GMT"`. Claimed: the text is the named result,
/// and every specifier used writes visible ASCII only (English weekday and
/// month abbreviations, digits and an optional year sign).
#[verifier::external_body]
fn format_http_date(secs: i64, nanos: u32) -> (s: String)
    requires
        valid_instant(secs as int, nanos as int),
    ensures
        s@ == http_date_text(secs, nanos),
        visible_ascii(s@),
{
    match chrono::DateTime::from_timestamp(secs, nanos) {
        Some(dt) => dt.format("%a, %d %b %Y %H:%M:%S GMT").to_string(),
        None => String::new(),
    }
}

/// A UTC instant: seconds since 1970-01-01T00:00:00Z and the nanoseconds
/// past that second.
#[derive(Debug, Clone, Copy, PartialEq, Eq, Hash)]
pub struct UtcTimestamp {
    secs: i64,
    nanos: u32,
}

impl View for UtcTimestamp {
    type V = (int, int);

    closed spec fn view(&self) -> (int, int) {
        (self.secs as int, self.nanos as int)
    }
}

impl UtcTimestamp {
    #[verifier::type_invariant]
    spec fn inv(self) -> bool {
        valid_instant(self.secs as int, self.nanos as int)
    }

    /// The instant `secs` seconds and `nanos` nanoseconds after the epoch,
    /// or `None` when `chrono::DateTime<Utc>` cannot hold it.
    pub fn new(secs: i64, nanos: u32) -> (r: Option<UtcTimestamp>)
        ensures
            r is Some <==> valid_instant(secs as int, nanos as int),
            r matches Some(t) ==> t@ == (secs as int, nanos as int),
    {
        let t = secs % 60;
        let m = if t < 0 {
            t + 60
        } else {
            t
        };
        assert(m as int == (secs as int) % 60);
        if MIN_UTC_SECS <= secs && secs <= MAX_UTC_SECS && (nanos < 1_000_000_000 || (nanos
            < 2_000_000_000 && m == 59)) {
            Some(UtcTimestamp { secs, nanos })
        } else {
            None
        }
    }

    /// Whole seconds since the epoch.
    pub fn seconds(&self) -> (s: i64)
        ensures
            s as int == self@.0,
    {
        self.secs
    }

    /// Nanoseconds past the whole second.
    pub fn subsec_nanos(&self) -> (n: u32)
        ensures
            n as int == self@.1,
    {
        self.nanos
    }

    /// This instant as an RFC 7231 HTTP-date, e.g. `Sun, 06 Nov 1994 08:49:37 GMT`.
    pub fn http_date(&self) -> (s: String)
        ensures
            s@ == http_date_text(self@.0 as i64, self@.1 as u32),
            visible_ascii(s@),
    {
        proof {
            use_type_invariant(self);
        }
        format_http_date(self.secs, self.nanos)
    }

    /// Whether `self` is at or after `other`.
    pub fn is_at_or_after(&self, other: &UtcTimestamp) -> (b: bool)
        ensures
            b == at_or_after(self@, other@),
    {
        self.secs > other.secs || (self.secs == other.secs && self.nanos >= other.nanos)
    }
}

} // verus!
