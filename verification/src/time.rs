//! Instants in UTC, as the application stamps and stores them.

use vstd::prelude::*;

verus! {

/// Seconds of the earliest instant that can be represented,
/// `-262143-01-01T00:00:00Z`.
pub const MIN_SECONDS: i64 = -8_334_601_228_800;

/// Seconds of the last second that can be represented,
/// `+262142-12-31T23:59:59Z`.
pub const MAX_SECONDS: i64 = 8_210_266_876_799;

/// Seconds in one week.
pub const SECONDS_PER_WEEK: i64 = 604_800;

/// Tells whether `secs` seconds since the Unix epoch together with `nanos`
/// nanoseconds denote an instant. A count of nanoseconds of a billion or
/// more stands for a leap second and is only allowed in the last second of a
/// minute.
pub open spec fn representable(secs: int, nanos: int) -> bool {
    &&& MIN_SECONDS <= secs <= MAX_SECONDS
    &&& 0 <= nanos < 2_000_000_000
    &&& nanos >= 1_000_000_000 ==> secs % 60 == 59
}

/// The RFC 3339 text that `chrono` writes for the instant `secs`, `nanos`
/// in UTC.
pub uninterp spec fn rfc3339_text(secs: int, nanos: int) -> Seq<char>;

/// The instant, as seconds and nanoseconds, that `chrono` reads from an
/// RFC 3339 text; `None` where it rejects the text.
pub uninterp spec fn rfc3339_instant(text: Seq<char>) -> Option<(int, int)>;

/// Reads the system clock with `chrono::Utc::now` and hands back the
/// seconds and nanoseconds of the instant. Nothing is claimed of the instant
/// but that it is one: `chrono` built it from these two numbers.
#[verifier::external_body]
fn system_clock() -> (r: (i64, u32))
    ensures
        representable(r.0 as int, r.1 as int),
{
    let now = chrono::Utc::now();
    (now.timestamp(), now.timestamp_subsec_nanos())
}

/// Writes an instant with `chrono::DateTime::to_rfc3339`. The text is a
/// function of the instant alone and goes by the name [`rfc3339_text`];
/// every representable instant converts with `DateTime::from_timestamp`.
#[verifier::external_body]
fn format_rfc3339(secs: i64, nanos: u32) -> (r: String)
    requires
        representable(secs as int, nanos as int),
    ensures
        r@ == rfc3339_text(secs as int, nanos as int),
{
    chrono::DateTime::from_timestamp(secs, nanos).unwrap_or_default().to_rfc3339()
}

/// Reads an RFC 3339 text with `chrono::DateTime::parse_from_rfc3339`. What
/// is read depends on the text alone and goes by the name
/// [`rfc3339_instant`]; an instant that `chrono` accepted is representable.
#[verifier::external_body]
fn parse_rfc3339(text: &str) -> (r: Option<(i64, u32)>)
    ensures
        r matches Some(t) ==> rfc3339_instant(text@) == Some((t.0 as int, t.1 as int))
            && representable(t.0 as int, t.1 as int),
        r is None ==> rfc3339_instant(text@) is None,
{
    match chrono::DateTime::parse_from_rfc3339(text) {
        Ok(t) => Some((t.timestamp(), t.timestamp_subsec_nanos())),
        Err(_) => None,
    }
}

/// An instant in UTC: seconds since the Unix epoch and nanoseconds within
/// the second.
#[derive(Clone, Copy, Debug, PartialEq, Eq, Structural)]
pub struct Timestamp {
    secs: i64,
    nanos: u32,
}

impl Timestamp {
    #[verifier::type_invariant]
    spec fn in_range(self) -> bool {
        representable(self.secs as int, self.nanos as int)
    }

    /// Seconds since the Unix epoch.
    pub closed spec fn seconds(self) -> int {
        self.secs as int
    }

    /// Nanoseconds since the last full second.
    pub closed spec fn subsec_nanos(self) -> int {
        self.nanos as int
    }

    /// The instant `secs`, `nanos`, if there is one.
    pub fn new(secs: i64, nanos: u32) -> (r: Option<Timestamp>)
        ensures
            r is Some <==> representable(secs as int, nanos as int),
            r matches Some(t) ==> t.seconds() == secs && t.subsec_nanos() == nanos,
    {
        if secs < MIN_SECONDS || secs > MAX_SECONDS || nanos >= 2_000_000_000 {
            return None;
        }
        // MIN_SECONDS is a multiple of 60, so the offset from it has the
        // same second of the minute.
        let second_of_minute: i64 = (secs - MIN_SECONDS) % 60;
        if nanos < 1_000_000_000 || second_of_minute == 59 {
            Some(Timestamp { secs, nanos })
        } else {
            None
        }
    }

    /// The current instant of the system clock.
    pub fn now() -> (t: Timestamp)
        ensures
            representable(t.seconds(), t.subsec_nanos()),
    {
        let (secs, nanos) = system_clock();
        Timestamp { secs, nanos }
    }

    /// The RFC 3339 text under which the instant is stored.
    pub fn to_stored(&self) -> (text: String)
        ensures
            text@ == rfc3339_text(self.seconds(), self.subsec_nanos()),
    {
        proof {
            use_type_invariant(self);
        }
        format_rfc3339(self.secs, self.nanos)
    }

    /// The instant that is stored under `text`, if the text is RFC 3339.
    pub closed spec fn read(text: Seq<char>) -> Option<Timestamp> {
        match rfc3339_instant(text) {
            Some(instant) => if representable(instant.0, instant.1) {
                Some(Timestamp { secs: instant.0 as i64, nanos: instant.1 as u32 })
            } else {
                None
            },
            None => None,
        }
    }

    /// Reads a stored RFC 3339 text; `None` where the text is not one.
    pub fn from_stored(text: &str) -> (r: Option<Timestamp>)
        ensures
            r == Timestamp::read(text@),
            match r {
                Some(t) => rfc3339_instant(text@) == Some((t.seconds(), t.subsec_nanos())),
                None => rfc3339_instant(text@) is None,
            },
    {
        match parse_rfc3339(text) {
            Some((secs, nanos)) => Some(Timestamp { secs, nanos }),
            None => None,
        }
    }

    /// The instant one week before `self`: 604800 seconds earlier, at the
    /// same nanosecond; or the earliest instant of all where that would lie
    /// before it.
    pub closed spec fn a_week_before(self) -> Timestamp {
        if self.secs - SECONDS_PER_WEEK >= MIN_SECONDS {
            Timestamp { secs: (self.secs - SECONDS_PER_WEEK) as i64, nanos: self.nanos }
        } else {
            Timestamp { secs: MIN_SECONDS, nanos: 0 }
        }
    }

    /// What "one week before" comes to in seconds and nanoseconds.
    pub proof fn lemma_a_week_before(self)
        ensures
            self.seconds() - SECONDS_PER_WEEK >= MIN_SECONDS ==> self.a_week_before().seconds()
                == self.seconds() - SECONDS_PER_WEEK && self.a_week_before().subsec_nanos()
                == self.subsec_nanos(),
            self.seconds() - SECONDS_PER_WEEK < MIN_SECONDS ==> self.a_week_before().seconds()
                == MIN_SECONDS && self.a_week_before().subsec_nanos() == 0,
    {
    }

    /// The instant one week earlier, or the earliest instant of all where
    /// that would lie before it.
    pub fn week_earlier(&self) -> (t: Timestamp)
        ensures
            t == self.a_week_before(),
            self.seconds() - SECONDS_PER_WEEK >= MIN_SECONDS ==> t.seconds() == self.seconds()
                - SECONDS_PER_WEEK && t.subsec_nanos() == self.subsec_nanos(),
            self.seconds() - SECONDS_PER_WEEK < MIN_SECONDS ==> t.seconds() == MIN_SECONDS
                && t.subsec_nanos() == 0,
    {
        proof {
            use_type_invariant(self);
        }
        if self.secs >= MIN_SECONDS + SECONDS_PER_WEEK {
            Timestamp { secs: self.secs - SECONDS_PER_WEEK, nanos: self.nanos }
        } else {
            Timestamp { secs: MIN_SECONDS, nanos: 0 }
        }
    }

    /// Seconds since the Unix epoch.
    pub fn secs(&self) -> (r: i64)
        ensures
            r == self.seconds(),
            representable(self.seconds(), self.subsec_nanos()),
    {
        proof {
            use_type_invariant(self);
        }
        self.secs
    }

    /// Nanoseconds since the last full second.
    pub fn nanos(&self) -> (r: u32)
        ensures
            r == self.subsec_nanos(),
            representable(self.seconds(), self.subsec_nanos()),
    {
        proof {
            use_type_invariant(self);
        }
        self.nanos
    }
}

} // verus!
