//! Instants in UTC, and their textual form.

use vstd::prelude::*;

verus! {

/// Seconds since the Unix epoch of the earliest instant that can be held:
/// midnight of January 1 of the year -262143.
pub const MIN_SECONDS: i64 = -8334601228800;

/// Seconds since the Unix epoch of the last second that can be held:
/// 23:59:59 of December 31 of the year 262142.
pub const MAX_SECONDS: i64 = 8210266876799;

/// Exclusive upper bound of the nanosecond part.  Values from one billion up
/// stand for a leap second.
pub const NANOS_LIMIT: u32 = 2_000_000_000;

/// First nanosecond value that stands for a leap second.
pub const LEAP_NANOS: u32 = 1_000_000_000;

/// Whether `seconds` and `nanos` denote an instant that can be held: the
/// seconds lie in the supported span of years, the nanoseconds are below two
/// billion, and a leap second only follows the last second of a minute.
pub open spec fn is_instant(seconds: int, nanos: int) -> bool {
    &&& MIN_SECONDS <= seconds <= MAX_SECONDS
    &&& 0 <= nanos < NANOS_LIMIT
    &&& nanos >= LEAP_NANOS ==> seconds % 60 == 59
}

/// The date-time text of the instant `seconds`, `nanos`, as `chrono` writes
/// it.
pub uninterp spec fn rfc3339_text(seconds: int, nanos: int) -> Seq<char>;

/// The instant that `chrono` reads from `text`, as seconds and nanoseconds,
/// or `None` where it rejects the text.
pub uninterp spec fn parsed_instant(text: Seq<char>) -> Option<(int, int)>;

/// Calls `chrono::DateTime::<Utc>::from_timestamp` and `to_rfc3339` on it.
///
/// Claims that the text is a function of the instant alone, and that
/// `chrono`'s parser for `DateTime<Utc>` reads that text back as the same
/// seconds and nanoseconds.  `from_timestamp` accepts exactly the instants
/// of `is_instant`, so the conversion cannot fail.
#[verifier::external_body]
fn format_instant(seconds: i64, nanos: u32) -> (text: String)
    requires
        is_instant(seconds as int, nanos as int),
    ensures
        text@ == rfc3339_text(seconds as int, nanos as int),
        parsed_instant(text@) == Some((seconds as int, nanos as int)),
{
    chrono::DateTime::from_timestamp(seconds, nanos).unwrap().to_rfc3339()
}

/// Calls `str::parse::<chrono::DateTime<Utc>>` and takes the seconds and
/// nanoseconds of what it read with `timestamp` and
/// `timestamp_subsec_nanos`.
///
/// Claims only that the outcome is a function of the text.
#[verifier::external_body]
fn parse_instant(text: &str) -> (instant: Option<(i64, u32)>)
    ensures
        match instant {
            Some((seconds, nanos)) => parsed_instant(text@) == Some((seconds as int, nanos as int)),
            None => parsed_instant(text@).is_none(),
        },
{
    match text.parse::<chrono::DateTime<chrono::Utc>>() {
        Ok(read) => Some((read.timestamp(), read.timestamp_subsec_nanos())),
        Err(_) => None,
    }
}

/// An instant in UTC with nanosecond precision.
#[derive(Clone, Copy, Debug, PartialEq, Eq, Structural)]
pub struct Timestamp {
    seconds: i64,
    nanos: u32,
}

impl Timestamp {
    #[verifier::type_invariant]
    spec fn holds_instant(self) -> bool {
        is_instant(self.seconds as int, self.nanos as int)
    }

    /// Non-leap seconds since the Unix epoch.
    pub closed spec fn spec_seconds(self) -> int {
        self.seconds as int
    }

    /// Nanoseconds since the last full second.
    pub closed spec fn spec_nanos(self) -> int {
        self.nanos as int
    }

    /// Whether the value denotes an instant that can be held.  Every value
    /// that executable code holds does.
    pub open spec fn valid(self) -> bool {
        is_instant(self.spec_seconds(), self.spec_nanos())
    }

    /// The text that the instant is stored as.
    pub open spec fn text(self) -> Seq<char> {
        rfc3339_text(self.spec_seconds(), self.spec_nanos())
    }

    /// The Unix epoch.
    pub fn epoch() -> (t: Timestamp)
        ensures
            t.spec_seconds() == 0,
            t.spec_nanos() == 0,
            t.valid(),
    {
        Timestamp { seconds: 0, nanos: 0 }
    }

    /// The instant `seconds` and `nanos` after the Unix epoch, where there
    /// is one.
    pub fn new(seconds: i64, nanos: u32) -> (made: Option<Timestamp>)
        ensures
            made.is_some() <==> is_instant(seconds as int, nanos as int),
            made matches Some(t) ==> t.spec_seconds() == seconds && t.spec_nanos() == nanos,
    {
        if seconds < MIN_SECONDS || seconds > MAX_SECONDS || nanos >= NANOS_LIMIT {
            return None;
        }
        // The span starts on a full minute, so the offset into the span has
        // the same remainder as the seconds themselves.
        let offset: i64 = seconds - MIN_SECONDS;
        if nanos >= LEAP_NANOS && offset % 60 != 59 {
            return None;
        }
        Some(Timestamp { seconds, nanos })
    }

    pub fn seconds(&self) -> (s: i64)
        ensures
            s == self.spec_seconds(),
    {
        self.seconds
    }

    pub fn nanos(&self) -> (n: u32)
        ensures
            n == self.spec_nanos(),
    {
        self.nanos
    }

    /// Writes the instant as date-time text.  Reading the text back with
    /// [`Timestamp::parse`] gives the same instant.
    pub fn to_text(&self) -> (text: String)
        ensures
            text@ == self.text(),
            parsed_timestamp(text@) == Some(*self),
    {
        proof {
            use_type_invariant(self);
        }
        format_instant(self.seconds, self.nanos)
    }

    /// Reads date-time text.  `None` where the text is not in the format.
    pub fn parse(text: &str) -> (read: Option<Timestamp>)
        ensures
            read == parsed_timestamp(text@),
    {
        match parse_instant(text) {
            Some((seconds, nanos)) => Timestamp::new(seconds, nanos),
            None => None,
        }
    }
}

/// An instant is its seconds and nanoseconds and nothing more.
pub proof fn lemma_timestamp_is_its_parts(one: Timestamp, other: Timestamp)
    requires
        one.spec_seconds() == other.spec_seconds(),
        one.spec_nanos() == other.spec_nanos(),
    ensures
        one == other,
{
}

/// Text denotes an instant exactly when the parser reads seconds and
/// nanoseconds from it that can be held, and then it denotes those.
pub proof fn lemma_parsed_timestamp(text: Seq<char>)
    ensures
        match parsed_timestamp(text) {
            Some(t) => t.valid() && parsed_instant(text) == Some(
                (t.spec_seconds(), t.spec_nanos()),
            ),
            None => parsed_instant(text) matches Some((seconds, nanos)) ==> !is_instant(
                seconds,
                nanos,
            ),
        },
{
}

/// The instant that `text` denotes: what the parser reads from it, where that
/// is an instant that can be held.
pub closed spec fn parsed_timestamp(text: Seq<char>) -> Option<Timestamp> {
    match parsed_instant(text) {
        Some((seconds, nanos)) => if is_instant(seconds, nanos) {
            Some(Timestamp { seconds: seconds as i64, nanos: nanos as u32 })
        } else {
            None
        },
        None => None,
    }
}

} // verus!
