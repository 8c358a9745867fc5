//! Instants in UTC, and their canonical text form.

use vstd::prelude::*;

verus! {

/// An instant in UTC: whole seconds since 1970-01-01T00:00:00Z and the
/// nanoseconds into that second.
#[derive(Debug, Clone, Copy, PartialEq, Eq, Structural)]
pub struct Timestamp {
    pub secs: i64,
    pub nanos: u32,
}

impl Timestamp {
    /// Chronological order: `self` is not later than `other`.
    pub open spec fn spec_not_after(&self, other: &Timestamp) -> bool {
        self.secs < other.secs || (self.secs == other.secs && self.nanos <= other.nanos)
    }

    /// Whether `self` is not later than `other`.
    #[verifier::when_used_as_spec(spec_not_after)]
    pub fn not_after(&self, other: &Timestamp) -> (r: bool)
        ensures
            r == self.spec_not_after(other),
    {
        self.secs < other.secs || (self.secs == other.secs && self.nanos <= other.nanos)
    }

    /// Whole milliseconds since the epoch; an instant before the epoch
    /// counts as the epoch itself.
    pub open spec fn spec_unix_millis(&self) -> nat {
        if self.secs < 0 {
            0
        } else {
            (self.secs * 1000 + self.nanos / 1_000_000) as nat
        }
    }

    /// Whole milliseconds since the epoch; an instant before the epoch
    /// counts as the epoch itself.
    pub fn unix_millis(&self) -> (ms: u128)
        ensures
            ms == self.spec_unix_millis(),
            ms <= 9_223_372_036_854_775_807_000 + 4_294,
    {
        if self.secs < 0 {
            0
        } else {
            let secs: u128 = self.secs as u128;
            let sub: u128 = (self.nanos / 1_000_000) as u128;
            secs * 1000 + sub
        }
    }

    /// The instant as RFC 3339 text.
    pub open spec fn spec_to_rfc3339(&self) -> Option<Seq<char>> {
        rfc3339_text(self.secs as int, self.nanos as int)
    }

    /// The instant as RFC 3339 text, the form in which instants are
    /// persisted; none for an instant that the calendar cannot represent.
    pub fn to_rfc3339(&self) -> (text: Option<String>)
        ensures
            match text {
                Some(written) => self.spec_to_rfc3339() == Some(written@),
                None => self.spec_to_rfc3339() is None,
            },
    {
        format_rfc3339(self)
    }

    /// Whether `text` round-trips: it is the RFC 3339 text of this instant
    /// and reads back as this instant.
    pub open spec fn round_trips(&self) -> bool {
        self.spec_to_rfc3339() matches Some(text) && rfc3339_instant(text) == Some(
            (self.secs as int, self.nanos as int),
        )
    }

    /// Whether the instant survives storage: whether it has an RFC 3339 text
    /// that reads back as this instant. The text is written and read to find
    /// out.
    pub fn survives_storage(&self) -> (survives: bool)
        ensures
            survives == self.round_trips(),
    {
        match self.to_rfc3339() {
            Some(text) => match Timestamp::parse_rfc3339(text.as_str()) {
                Ok(read) => read.secs == self.secs && read.nanos == self.nanos,
                Err(_) => false,
            },
            None => false,
        }
    }

    /// The instant that an RFC 3339 text denotes, or the reason why the text
    /// is none.
    pub fn parse_rfc3339(text: &str) -> (parsed: Result<Timestamp, String>)
        ensures
            match parsed {
                Ok(at) => rfc3339_instant(text@) == Some((at.secs as int, at.nanos as int)),
                Err(_) => rfc3339_instant(text@) is None,
            },
    {
        read_rfc3339(text)
    }

    /// The current instant: what [`Self::from_elapsed`] makes of the time
    /// that the system clock says has passed since the epoch. Which instant
    /// that is depends on the clock alone.
    pub fn now() -> (at: Timestamp)
        ensures
            at.secs >= 0,
            at.nanos < 1_000_000_000,
            exists|elapsed: Option<(u64, u32)>| at == #[trigger] Timestamp::spec_from_elapsed(elapsed),
    {
        let elapsed = match since_epoch(&system_now()) {
            Some(duration) => Some((duration.as_secs(), duration.subsec_nanos())),
            None => None,
        };
        Timestamp::from_elapsed(elapsed)
    }

    /// The instant at which `elapsed` has passed since the epoch, given as
    /// whole seconds and the nanoseconds beyond them; none stands for a
    /// clock that is set before the epoch.
    pub open spec fn spec_from_elapsed(elapsed: Option<(u64, u32)>) -> Timestamp {
        match elapsed {
            Some((secs, nanos)) => Timestamp {
                secs: if secs > i64::MAX as u64 {
                    i64::MAX
                } else {
                    secs as i64
                },
                nanos,
            },
            None => Timestamp { secs: 0, nanos: 0 },
        }
    }

    /// The instant at which `elapsed` has passed since the epoch. A clock
    /// that is set before the epoch reads as the epoch, and one that is set
    /// further in the future than `i64` seconds reach reads as the last
    /// second.
    pub fn from_elapsed(elapsed: Option<(u64, u32)>) -> (at: Timestamp)
        ensures
            at == Timestamp::spec_from_elapsed(elapsed),
            at.secs >= 0,
    {
        match elapsed {
            Some((secs, nanos)) => Timestamp {
                secs: if secs > i64::MAX as u64 {
                    i64::MAX
                } else {
                    secs as i64
                },
                nanos,
            },
            None => Timestamp { secs: 0, nanos: 0 },
        }
    }
}

/// The RFC 3339 text of the instant `secs` seconds and `nanos` nanoseconds
/// after the epoch, in UTC; none for an instant that the calendar cannot
/// represent.
pub uninterp spec fn rfc3339_text(secs: int, nanos: int) -> Option<Seq<char>>;

/// The instant that an RFC 3339 text denotes, as seconds and nanoseconds
/// after the epoch in UTC; none for a text that is not RFC 3339.
pub uninterp spec fn rfc3339_instant(text: Seq<char>) -> Option<(int, int)>;

/// Writes an instant as RFC 3339 text.
///
/// Trusted: builds the date and time with `chrono::DateTime::from_timestamp`,
/// which answers `None` for seconds or nanoseconds out of range, and writes
/// it with `DateTime::to_rfc3339`. The contract only names the result.
#[verifier::external_body]
fn format_rfc3339(at: &Timestamp) -> (text: Option<String>)
    ensures
        match text {
            Some(written) => rfc3339_text(at.secs as int, at.nanos as int) == Some(written@),
            None => rfc3339_text(at.secs as int, at.nanos as int) is None,
        },
{
    chrono::DateTime::from_timestamp(at.secs, at.nanos).map(|moment| moment.to_rfc3339())
}

/// Reads an instant from RFC 3339 text.
///
/// Trusted: calls `chrono::DateTime::parse_from_rfc3339`, moves the result
/// to UTC with `DateTime::with_timezone` and splits it with
/// `DateTime::timestamp` and `DateTime::timestamp_subsec_nanos`. The
/// contract names the instant; of the reason given for a failure it claims
/// nothing.
#[verifier::external_body]
fn read_rfc3339(text: &str) -> (parsed: Result<Timestamp, String>)
    ensures
        match parsed {
            Ok(at) => rfc3339_instant(text@) == Some((at.secs as int, at.nanos as int)),
            Err(_) => rfc3339_instant(text@) is None,
        },
{
    match chrono::DateTime::parse_from_rfc3339(text) {
        Ok(moment) => {
            let utc = moment.with_timezone(&chrono::Utc);
            Ok(Timestamp { secs: utc.timestamp(), nanos: utc.timestamp_subsec_nanos() })
        },
        Err(reason) => Err(reason.to_string()),
    }
}

/// The system clock's notion of an instant.
#[verifier::external_type_specification]
#[verifier::external_body]
pub struct ExSystemTime(std::time::SystemTime);

/// Reads the system clock.
///
/// Trusted: calls `std::time::SystemTime::now`. Nothing is claimed about
/// the result.
#[verifier::external_body]
fn system_now() -> std::time::SystemTime {
    std::time::SystemTime::now()
}

/// The time from the epoch to `at`; none for an instant before the epoch.
///
/// Trusted: calls `SystemTime::duration_since` with `UNIX_EPOCH` and drops
/// the error that it gives for an earlier instant. Nothing is claimed about
/// the result.
#[verifier::external_body]
fn since_epoch(at: &std::time::SystemTime) -> Option<core::time::Duration> {
    at.duration_since(std::time::UNIX_EPOCH).ok()
}

/// Trusted: `Duration::as_secs` of the standard library, the whole seconds
/// of a duration. Nothing is claimed about the result.
pub assume_specification[ core::time::Duration::as_secs ](duration: &core::time::Duration) -> u64;

/// Trusted: `Duration::subsec_nanos` of the standard library, the part of a
/// duration below one second in nanoseconds. The contract claims what the
/// documentation says: the result is less than one billion.
pub assume_specification[ core::time::Duration::subsec_nanos ](
    duration: &core::time::Duration,
) -> (nanos: u32)
    ensures
        nanos < 1_000_000_000,
;

} // verus!
