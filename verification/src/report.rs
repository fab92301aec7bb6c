//! The lines that tell what was done with a file.

use crate::capture::{Failure, FailureView, outcome_view};
use crate::decimal::{append_decimal, append_signed_decimal, decimal};
use crate::stamp::{Stamp, TimestampFault};
use vstd::prelude::*;
use vstd::string::*;

verus! {

/// One line of output. A warning belongs on the error stream, any other line
/// on the standard output.
#[derive(Clone, Debug, PartialEq, Eq)]
pub struct Line {
    pub warning: bool,
    pub text: String,
}

impl View for Line {
    type V = (bool, Seq<char>);

    open spec fn view(&self) -> (bool, Seq<char>) {
        (self.warning, self.text@)
    }
}

/// The lines of a list, each by its view.
pub open spec fn line_views(lines: Seq<Line>) -> Seq<(bool, Seq<char>)> {
    lines.map_values(|l: Line| l@)
}

/// The words for a fault in a written date and time.
pub open spec fn fault_words(fault: TimestampFault) -> Seq<char> {
    match fault {
        TimestampFault::OutOfRange => "numeric component is out of range"@,
        TimestampFault::InvalidDigit => "bad character where digit is expected"@,
        TimestampFault::InvalidFormat => "timestamp format is invalid"@,
    }
}

/// What a warning says before it names the file.
pub open spec fn warning_head(failure: FailureView) -> Seq<char> {
    match failure {
        FailureView::WordSize | FailureView::Unreadable(_) => "Could not read EXIF for "@,
        FailureView::MissingTag => "Could not find DateTimeOriginal tag in EXIF of "@,
        FailureView::Pattern | FailureView::Malformed | FailureView::BadTimestamp(_) =>
            "Could not read DateTimeOriginal of "@,
    }
}

/// What a warning says after it has named the file.
pub open spec fn warning_tail(failure: FailureView) -> Seq<char> {
    match failure {
        FailureView::WordSize => ": this machine's usize is not 64 bits wide"@,
        FailureView::Pattern => ": the date pattern is no regular expression"@,
        FailureView::Unreadable(reason) => ": "@ + reason,
        FailureView::MissingTag => Seq::<char>::empty(),
        FailureView::Malformed => ": nothing of the form YYYY:MM:DD HH:MM:SS"@,
        FailureView::BadTimestamp(fault) => ": "@ + fault_words(fault),
    }
}

/// The warning for a file that is left as it is. `display` is the file's
/// path as it is to be shown.
pub open spec fn warning_text(display: Seq<char>, failure: FailureView) -> Seq<char> {
    warning_head(failure) + display + warning_tail(failure)
}

/// The line that says that a file is about to be handled.
pub open spec fn handling_text(display: Seq<char>) -> Seq<char> {
    "Going to handle file "@ + display
}

/// The line that says from which modification time to which a file goes,
/// both in seconds since 1970-01-01 00:00:00 UTC.
pub open spec fn changing_text(display: Seq<char>, previous: i64, next: u64) -> Seq<char> {
    "Changing file "@ + display + " ("@ + decimal(previous as int) + ") -> "@ + decimal(
        next as int,
    )
}

/// The warning for a file whose modification time could not be set.
pub open spec fn not_written_text(display: Seq<char>, reason: Seq<char>) -> Seq<char> {
    "Could not set modification time of "@ + display + ": "@ + reason
}

/// The warning for an entry of the directory tree that could not be read.
pub open spec fn no_entry_text(display: Seq<char>, reason: Seq<char>) -> Seq<char> {
    "Could not read "@ + display + ": "@ + reason
}

/// Whether the file's `DateTimeOriginal` was found, whatever became of it.
pub open spec fn tag_was_found(outcome: Result<Stamp, FailureView>) -> bool {
    match outcome {
        Ok(_) => true,
        Err(FailureView::Pattern) => true,
        Err(FailureView::Malformed) => true,
        Err(FailureView::BadTimestamp(_)) => true,
        Err(_) => false,
    }
}

/// The lines for one file, in the order in which they are written.
///
/// From verbosity 3 on, a line says that the file is about to be handled;
/// from 2 on, the same line is written again once `DateTimeOriginal` is
/// found; from 1 on, a line tells of the change, where the previous
/// modification time is known. A file that is left as it is gets one
/// warning, whatever the verbosity.
pub open spec fn report_lines(
    display: Seq<char>,
    verbosity: u8,
    outcome: Result<Stamp, FailureView>,
    previous: Option<i64>,
) -> Seq<(bool, Seq<char>)> {
    let opening = if verbosity >= 3 {
        seq![(false, handling_text(display))]
    } else {
        Seq::empty()
    };
    let found = if verbosity >= 2 && tag_was_found(outcome) {
        seq![(false, handling_text(display))]
    } else {
        Seq::empty()
    };
    let closing = match outcome {
        Ok(stamp) => match previous {
            Some(p) => if verbosity >= 1 {
                seq![(false, changing_text(display, p, stamp.seconds))]
            } else {
                Seq::empty()
            },
            None => Seq::empty(),
        },
        Err(failure) => seq![(true, warning_text(display, failure))],
    };
    opening + found + closing
}

/// Writes the words for a fault in a written date and time.
fn fault_text(fault: TimestampFault) -> (text: &'static str)
    ensures
        text@ == fault_words(fault),
{
    match fault {
        TimestampFault::OutOfRange => "numeric component is out of range",
        TimestampFault::InvalidDigit => "bad character where digit is expected",
        TimestampFault::InvalidFormat => "timestamp format is invalid",
    }
}

/// Writes the warning for a file that is left as it is.
pub fn warning_line(display: &str, failure: &Failure) -> (line: Line)
    ensures
        line@ == (true, warning_text(display@, failure@)),
{
    let mut text = String::new();
    match failure {
        Failure::WordSize => {
            text.append("Could not read EXIF for ");
            text.append(display);
            text.append(": this machine's usize is not 64 bits wide");
        },
        Failure::Pattern => {
            text.append("Could not read DateTimeOriginal of ");
            text.append(display);
            text.append(": the date pattern is no regular expression");
        },
        Failure::Unreadable(reason) => {
            text.append("Could not read EXIF for ");
            text.append(display);
            text.append(": ");
            text.append(reason.as_str());
        },
        Failure::MissingTag => {
            text.append("Could not find DateTimeOriginal tag in EXIF of ");
            text.append(display);
        },
        Failure::Malformed => {
            text.append("Could not read DateTimeOriginal of ");
            text.append(display);
            text.append(": nothing of the form YYYY:MM:DD HH:MM:SS");
        },
        Failure::BadTimestamp(fault) => {
            text.append("Could not read DateTimeOriginal of ");
            text.append(display);
            text.append(": ");
            text.append(fault_text(*fault));
        },
    }
    assert(text@ =~= warning_text(display@, failure@));
    Line { warning: true, text }
}

/// Writes the line that says that a file is about to be handled.
pub fn handling_line(display: &str) -> (line: Line)
    ensures
        line@ == (false, handling_text(display@)),
{
    let mut text = String::new();
    text.append("Going to handle file ");
    text.append(display);
    assert(text@ =~= handling_text(display@));
    Line { warning: false, text }
}

/// Writes the line that tells of a change of the modification time.
pub fn changing_line(display: &str, previous: i64, next: u64) -> (line: Line)
    ensures
        line@ == (false, changing_text(display@, previous, next)),
{
    let mut text = String::new();
    text.append("Changing file ");
    text.append(display);
    text.append(" (");
    append_signed_decimal(&mut text, previous);
    text.append(") -> ");
    append_decimal(&mut text, next);
    assert(text@ =~= changing_text(display@, previous, next));
    Line { warning: false, text }
}

/// Writes the warning for a file whose modification time could not be set.
pub fn not_written_line(display: &str, reason: &str) -> (line: Line)
    ensures
        line@ == (true, not_written_text(display@, reason@)),
{
    let mut text = String::new();
    text.append("Could not set modification time of ");
    text.append(display);
    text.append(": ");
    text.append(reason);
    assert(text@ =~= not_written_text(display@, reason@));
    Line { warning: true, text }
}

/// Writes the warning for an entry of the directory tree that could not be
/// read.
pub fn no_entry_line(display: &str, reason: &str) -> (line: Line)
    ensures
        line@ == (true, no_entry_text(display@, reason@)),
{
    let mut text = String::new();
    text.append("Could not read ");
    text.append(display);
    text.append(": ");
    text.append(reason);
    assert(text@ =~= no_entry_text(display@, reason@));
    Line { warning: true, text }
}

/// Tells whether the file's `DateTimeOriginal` was found.
fn found_tag(outcome: &Result<Stamp, Failure>) -> (found: bool)
    ensures
        found == tag_was_found(outcome_view(*outcome)),
{
    match outcome {
        Ok(_) => true,
        Err(Failure::Pattern) => true,
        Err(Failure::Malformed) => true,
        Err(Failure::BadTimestamp(_)) => true,
        Err(_) => false,
    }
}

/// Writes the lines for one file: what is to be said of it at the given
/// verbosity, and a warning if it is left as it is.
pub fn report(
    display: &str,
    verbosity: u8,
    outcome: &Result<Stamp, Failure>,
    previous: Option<i64>,
) -> (lines: Vec<Line>)
    ensures
        line_views(lines@) == report_lines(display@, verbosity, outcome_view(*outcome), previous),
{
    let mut lines: Vec<Line> = Vec::new();
    if verbosity >= 3 {
        lines.push(handling_line(display));
    }
    if verbosity >= 2 && found_tag(outcome) {
        lines.push(handling_line(display));
    }
    match outcome {
        Ok(stamp) => match previous {
            Some(p) => if verbosity >= 1 {
                lines.push(changing_line(display, p, stamp.seconds));
            },
            None => {},
        },
        Err(failure) => {
            lines.push(warning_line(display, failure));
        },
    }
    assert(line_views(lines@) =~= report_lines(
        display@,
        verbosity,
        outcome_view(*outcome),
        previous,
    ));
    lines
}

} // verus!
