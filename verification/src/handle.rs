//! The handling of one file: what is decided for it and what is said of it.

use crate::capture::{
    on_this_machine, original_time, outcome_view, planned, Failure, FailureView,
};
use crate::report::{line_views, report, report_lines, Line};
use crate::stamp::Stamp;
use vstd::prelude::*;

verus! {

/// What was decided for a file and the lines that say so.
#[derive(Debug, PartialEq, Eq)]
pub struct Handling {
    /// The time to which the file's modification time is to be set, or why
    /// the file is left as it is.
    pub outcome: Result<Stamp, Failure>,
    /// The lines to write, in their order.
    pub lines: Vec<Line>,
}

/// What reading a file gave, by its view: the file's bytes, or the words of
/// the error.
pub open spec fn read_view(read: Result<Vec<u8>, String>) -> Result<Seq<u8>, Seq<char>> {
    match read {
        Ok(contents) => Ok(contents@),
        Err(reason) => Err(reason@),
    }
}

/// What is decided for a file from what reading it gave. A file that could
/// not be read is left as it is, for the reason that reading it gave.
pub open spec fn decided(read: Result<Seq<u8>, Seq<char>>) -> Result<Stamp, FailureView> {
    match read {
        Ok(contents) => on_this_machine(planned(contents)),
        Err(reason) => Err(FailureView::Unreadable(reason)),
    }
}

/// The modification time that a file has once it was handled: the time that
/// was decided for it, or the one it had.
pub open spec fn mtime_after(before: Stamp, outcome: Result<Stamp, FailureView>) -> Stamp {
    match outcome {
        Ok(stamp) => stamp,
        Err(_) => before,
    }
}

impl Handling {
    /// The time to set the file's modification time to, if it is to change.
    pub fn mtime(&self) -> (mtime: Option<Stamp>)
        ensures
            mtime == match self.outcome {
                Ok(stamp) => Some(stamp),
                Err(_) => None,
            },
    {
        match &self.outcome {
            Ok(stamp) => Some(*stamp),
            Err(_) => None,
        }
    }
}

/// Handles one file. `display` is the file's path as it is to be shown,
/// `read` what reading the file gave, `previous` the file's modification time
/// in seconds since 1970-01-01 00:00:00 UTC, where it is known.
///
/// Nothing is done to the file here: the caller writes the lines and sets the
/// modification time that the outcome names.
pub fn handle_file(
    display: &str,
    verbosity: u8,
    read: &Result<Vec<u8>, String>,
    previous: Option<i64>,
) -> (handling: Handling)
    ensures
        outcome_view(handling.outcome) == decided(read_view(*read)),
        line_views(handling.lines@) == report_lines(
            display@,
            verbosity,
            decided(read_view(*read)),
            previous,
        ),
{
    let outcome = match read {
        Ok(contents) => original_time(contents.as_slice()),
        Err(reason) => Err(Failure::Unreadable(reason.clone())),
    };
    let lines = report(display, verbosity, &outcome, previous);
    Handling { outcome, lines }
}

} // verus!
