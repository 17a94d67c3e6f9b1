//! Plain-value models of the timestamps and calendar dates that the
//! record systems exchange, and the one conversion that is delegated to
//! the `chrono` crate: turning an instant into its local calendar date.

use chrono::Datelike;
use vstd::prelude::*;

verus! {

/// A calendar date: year, month (1 to 12) and day of month (1 to 31).
#[derive(Clone, Copy, Debug, PartialEq, Eq, Structural)]
pub struct Date {
    pub year: i32,
    pub month: u32,
    pub day: u32,
}

/// A wall-clock timestamp without a zone, as whole seconds since the Unix
/// epoch plus sub-second nanoseconds.  Draft records carry one as an
/// optimistic-concurrency token; it is passed back unchanged on update.
#[derive(Clone, Copy, Debug, PartialEq, Eq, Structural)]
pub struct Timestamp {
    pub secs: i64,
    pub nanos: u32,
}

/// An instant together with the zone it was recorded in: seconds since
/// the Unix epoch, and the zone's offset east of UTC in seconds.
#[derive(Clone, Copy, Debug, PartialEq, Eq, Structural)]
pub struct OffsetTimestamp {
    pub secs: i64,
    pub offset_secs: i32,
}

/// The local calendar date of the instant `secs` seconds after the Unix
/// epoch, in a zone `offset_secs` seconds east of UTC.  `None` when the
/// offset is no legal zone offset (a day or more) or the instant lies
/// outside the representable calendar range.  The result is a function
/// of the two arguments alone.
pub uninterp spec fn local_date_of(secs: i64, offset_secs: i32) -> Option<Date>;

impl OffsetTimestamp {
    /// The calendar date this instant falls on in its own zone.
    ///
    /// Relies on chrono: `FixedOffset::east_opt` to validate the offset,
    /// `DateTime::from_timestamp` to place the instant on the UTC time
    /// line, `checked_add_signed` to shift it into the zone, and
    /// `date_naive` with the `Datelike` accessors to read the date.
    /// Each step returns `None` instead of panicking on out-of-range
    /// input, and the outcome depends on `secs` and `offset_secs` alone.
    #[verifier::external_body]
    pub fn local_date(&self) -> (r: Option<Date>)
        ensures
            r == local_date_of(self.secs, self.offset_secs),
    {
        chrono::FixedOffset::east_opt(self.offset_secs)?;
        let utc = chrono::DateTime::from_timestamp(self.secs, 0)?;
        let local = utc.checked_add_signed(chrono::TimeDelta::seconds(self.offset_secs as i64))?;
        let d = local.date_naive();
        Some(Date { year: d.year(), month: d.month(), day: d.day() })
    }
}

} // verus!
