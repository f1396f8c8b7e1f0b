//! Instants, and their RFC 3339 text in UTC.
use vstd::prelude::*;

verus! {

/// The earliest instant whose UTC year is at least 0, in nanoseconds since
/// the Unix epoch (0000-01-01T00:00:00Z).
pub const MIN_UNIX_NANOS: i128 = -62_167_219_200_000_000_000;

/// The last nanosecond whose UTC year is at most 9999
/// (9999-12-31T23:59:59.999999999Z).
pub const MAX_UNIX_NANOS: i128 = 253_402_300_799_999_999_999;

/// The RFC 3339 text of the instant `unix_nanos` nanoseconds after the Unix
/// epoch, written in UTC.
pub uninterp spec fn rfc3339_utc(unix_nanos: int) -> Seq<char>;

/// Relies on time's `OffsetDateTime::from_unix_timestamp_nanos` (the instant
/// in UTC; it fails only beyond year 9999 either way) and on formatting with
/// `Rfc3339` (it fails only for a year outside 0..=9999 or an offset with
/// seconds, neither of which a UTC instant in range has).
#[verifier::external_body]
fn format_rfc3339_utc(unix_nanos: i128) -> (r: String)
    requires
        MIN_UNIX_NANOS <= unix_nanos <= MAX_UNIX_NANOS,
    ensures
        r@ == rfc3339_utc(unix_nanos as int),
{
    let t = time::OffsetDateTime::from_unix_timestamp_nanos(unix_nanos).unwrap();
    t.format(&time::format_description::well_known::Rfc3339).unwrap()
}

/// An instant that RFC 3339 can write in UTC: its year lies in 0..=9999.
#[derive(Debug, Clone, Copy, PartialEq, Eq, Hash)]
pub struct Timestamp {
    unix_nanos: i128,
}

impl Timestamp {
    #[verifier::type_invariant]
    spec fn in_range(self) -> bool {
        MIN_UNIX_NANOS <= self.unix_nanos <= MAX_UNIX_NANOS
    }

    /// Nanoseconds since the Unix epoch.
    pub closed spec fn nanos(self) -> int {
        self.unix_nanos as int
    }

    /// The instant `unix_nanos` nanoseconds after the Unix epoch, if its UTC
    /// year lies in 0..=9999.
    pub fn from_unix_nanos(unix_nanos: i128) -> (r: Option<Timestamp>)
        ensures
            r is Some <==> MIN_UNIX_NANOS <= unix_nanos <= MAX_UNIX_NANOS,
            r matches Some(t) ==> t.nanos() == unix_nanos,
    {
        if MIN_UNIX_NANOS <= unix_nanos && unix_nanos <= MAX_UNIX_NANOS {
            Some(Timestamp { unix_nanos })
        } else {
            None
        }
    }

    /// Nanoseconds since the Unix epoch.
    pub fn unix_nanos(&self) -> (r: i128)
        ensures
            r == self.nanos(),
    {
        self.unix_nanos
    }

    /// The RFC 3339 text of this instant in UTC.
    pub fn to_rfc3339_utc(&self) -> (r: String)
        ensures
            r@ == rfc3339_utc(self.nanos()),
    {
        proof {
            use_type_invariant(self);
        }
        format_rfc3339_utc(self.unix_nanos)
    }
}

} // verus!
