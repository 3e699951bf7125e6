//! Points in time, as the local clock gives them.

use chrono::DateTime;
use chrono::FixedOffset;
use chrono::Local;
use chrono::NaiveDateTime;
use vstd::prelude::*;

verus! {

/// `chrono::NaiveDateTime`: a date and a time of day without a time zone.
#[verifier::external_type_specification]
#[verifier::external_body]
pub struct ExNaiveDateTime(NaiveDateTime);

/// `chrono::FixedOffset`: a time zone's distance from UTC.
#[verifier::external_type_specification]
#[verifier::external_body]
pub struct ExFixedOffset(FixedOffset);

/// A point in time in the local time zone: the two parts of a
/// `chrono::DateTime<Local>`, its time in UTC and the local offset then in
/// force. Both are carried along and never looked into.
#[derive(Clone, Copy, Debug)]
pub struct Timestamp {
    utc: NaiveDateTime,
    offset: FixedOffset,
}

impl Timestamp {
    /// The time in UTC.
    pub closed spec fn spec_utc(&self) -> NaiveDateTime {
        self.utc
    }

    /// The local offset from UTC.
    pub closed spec fn spec_offset(&self) -> FixedOffset {
        self.offset
    }

    /// Puts a point in time together from its two parts.
    pub fn from_parts(utc: NaiveDateTime, offset: FixedOffset) -> (at: Timestamp)
        ensures
            at.spec_utc() == utc,
            at.spec_offset() == offset,
    {
        Timestamp { utc, offset }
    }

    /// The time in UTC.
    #[verifier::when_used_as_spec(spec_utc)]
    pub fn utc(&self) -> (utc: NaiveDateTime)
        ensures
            utc == self.spec_utc(),
    {
        self.utc
    }

    /// The local offset from UTC.
    #[verifier::when_used_as_spec(spec_offset)]
    pub fn offset(&self) -> (offset: FixedOffset)
        ensures
            offset == self.spec_offset(),
    {
        self.offset
    }

    /// The current local time.
    pub fn now() -> (at: Timestamp) {
        local_now()
    }
}

/// `Local::now`: the current time with the local offset, taken apart into
/// its UTC time and that offset. Nothing is claimed of the value read.
/// The call panics where the system clock stands before 1970 or the
/// machine's time zone data gives no offset for the time read.
#[verifier::external_body]
fn local_now() -> (at: Timestamp) {
    let now = Local::now();
    Timestamp { utc: now.naive_utc(), offset: *now.offset() }
}

/// The text that `chrono` prints for the local time made of a time in
/// UTC and an offset: the date and the time of day on the local clock,
/// then the offset.
pub uninterp spec fn time_text(utc: NaiveDateTime, offset: FixedOffset) -> Seq<char>;

/// `to_string` of the `DateTime<Local>` made of the two parts of `at`,
/// which goes by its `Display`: the text depends on the two parts alone,
/// and is given the name `time_text`.
#[verifier::external_body]
pub(crate) fn local_text(at: &Timestamp) -> (text: String)
    ensures
        text@ == time_text(at.spec_utc(), at.spec_offset()),
{
    DateTime::<Local>::from_naive_utc_and_offset(at.utc, at.offset).to_string()
}

} // verus!
