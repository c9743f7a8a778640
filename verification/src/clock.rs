//! The wall clock, as a text for the status bar.

use vstd::prelude::*;

verus! {

/// `time::OffsetDateTime`, a date and time with an offset from UTC. It is
/// carried from the clock to the formatter and never looked into.
#[verifier::external_type_specification]
#[verifier::external_body]
pub struct ExOffsetDateTime(time::OffsetDateTime);

/// `time::error::Format`, the reason why a date could not be written.
#[verifier::external_type_specification]
#[verifier::external_body]
pub struct ExFormatError(time::error::Format);

/// Why the clock could not be shown.
#[derive(Debug, Clone, Copy, PartialEq, Eq, Structural)]
pub enum ClockError {
    /// The date cannot be written in the format of the status bar.
    Format,
}

/// `time::OffsetDateTime::now_utc`: the current date and time in UTC.
/// Nothing is stated of the value: it is whatever the system clock says.
/// The call adds the clock's distance from 1970 to that date, which the
/// crate can do for every year up to 9999.
#[verifier::external_body]
pub(crate) fn now_utc() -> time::OffsetDateTime {
    time::OffsetDateTime::now_utc()
}

/// `time::OffsetDateTime::format` with the RFC 2822 description of the
/// `time` crate. Nothing is stated of the text, nor of when the call fails.
#[verifier::external_body]
pub(crate) fn format_rfc2822(at: time::OffsetDateTime) -> Result<String, time::error::Format> {
    at.format(&time::format_description::well_known::Rfc2822)
}

/// What the status bar gets from an attempt to write the date: the text
/// where one was written, and `ClockError::Format` in place of whatever
/// reason the formatter gave.
pub fn date_text_of(written: Result<String, time::error::Format>) -> (text: Result<
    String,
    ClockError,
>)
    ensures
        match written {
            Ok(date) => text == Ok::<String, ClockError>(date),
            Err(_) => text == Err::<String, ClockError>(ClockError::Format),
        },
{
    match written {
        Ok(date) => Ok(date),
        Err(_) => Err(ClockError::Format),
    }
}

/// The current date and time in UTC as the status bar shows it: what
/// [`date_text_of`] makes of the clock's reading written by RFC 2822. The
/// clock and the formatter decide what comes back.
pub fn utc_date_text() -> Result<String, ClockError> {
    date_text_of(format_rfc2822(now_utc()))
}

} // verus!
