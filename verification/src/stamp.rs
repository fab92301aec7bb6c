//! Points in time, and the reading of one out of a written date and time.

use crate::pattern::{DateParts, DatePartsView};
use vstd::prelude::*;
use vstd::string::*;

verus! {

/// A point in time, to the second: the whole seconds that lie between
/// 1970-01-01 00:00:00 UTC and it.
#[derive(Clone, Copy, Debug, PartialEq, Eq, Structural)]
pub struct Stamp {
    pub seconds: u64,
}

/// Why a written date and time names no point in time.
#[derive(Clone, Copy, Debug, PartialEq, Eq, Structural)]
pub enum TimestampFault {
    /// A number is outside of what its place allows.
    OutOfRange,
    /// A character stands where a digit is expected.
    InvalidDigit,
    /// The text is not laid out as a date and a time.
    InvalidFormat,
}

/// The date and the time of day in the order and with the signs of
/// `YYYY-MM-DD HH:MM:SS`.
pub open spec fn canonical(parts: DatePartsView) -> Seq<char> {
    parts.year + seq!['-'] + parts.month + seq!['-'] + parts.day + seq![' '] + parts.hour
        + seq![':'] + parts.minute + seq![':'] + parts.second
}

/// Writes the parts of a capture time as `YYYY-MM-DD HH:MM:SS`.
pub fn canonical_text(parts: &DateParts) -> (text: String)
    ensures
        text@ == canonical(parts@),
{
    proof {
        reveal_strlit("-");
        reveal_strlit(" ");
        reveal_strlit(":");
    }
    let mut text = parts.year.clone();
    text.append("-");
    text.append(parts.month.as_str());
    text.append("-");
    text.append(parts.day.as_str());
    text.append(" ");
    text.append(parts.hour.as_str());
    text.append(":");
    text.append(parts.minute.as_str());
    text.append(":");
    text.append(parts.second.as_str());
    proof {
        assert("-"@ =~= seq!['-']);
        assert(" "@ =~= seq![' ']);
        assert(":"@ =~= seq![':']);
    }
    text
}

/// The second that a text names when it is read as a date and a time of day
/// in UTC, or why it names none.
pub uninterp spec fn rfc3339_weak(text: Seq<char>) -> Result<Stamp, TimestampFault>;

/// Calls `str::parse` for a `humantime::Timestamp`, which reads the text with
/// `humantime::parse_rfc3339_weak`.
///
/// Trusted: what is read depends on the text alone, so it is given the name
/// `rfc3339_weak`. A time is handed on as the whole seconds that lie between
/// 1970-01-01 00:00:00 UTC and it, without the fraction of a second that the
/// text may hold; an error is handed on as the variant of the same name. The
/// latest time that is read depends on the width of `usize`, which is asked
/// to be 64 bits.
#[verifier::external_body]
pub(crate) fn parse_timestamp(text: &str) -> (read: Result<Stamp, TimestampFault>)
    requires
        usize::BITS == 64,
    ensures
        read == rfc3339_weak(text@),
{
    match text.parse::<humantime::Timestamp>() {
        Ok(time) => {
            let since = std::time::SystemTime::from(time).duration_since(
                std::time::UNIX_EPOCH,
            ).unwrap_or_default();
            Ok(Stamp { seconds: since.as_secs() })
        },
        Err(humantime::TimestampError::OutOfRange) => Err(TimestampFault::OutOfRange),
        Err(humantime::TimestampError::InvalidDigit) => Err(TimestampFault::InvalidDigit),
        Err(humantime::TimestampError::InvalidFormat) => Err(TimestampFault::InvalidFormat),
    }
}

} // verus!
