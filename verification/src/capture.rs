//! From the bytes of an image to the time at which the picture was taken.

use crate::exif::{
    exif_scan, field_views, find_tag, first_with_tag, lemma_first_with_tag, parse_buffer_quiet,
    ExifField, DATE_TIME_ORIGINAL,
};
use crate::pattern::{
    date_parts, parts_of, regex_search, search, Search, SearchView, DATE_PATTERN,
};
use crate::stamp::{canonical, canonical_text, parse_timestamp, rfc3339_weak, Stamp, TimestampFault};
use vstd::prelude::*;

verus! {

/// Why a file is left as it is.
#[derive(Clone, Debug, PartialEq, Eq)]
pub enum Failure {
    /// The program was built for a machine whose `usize` is not 64 bits wide;
    /// on such a machine no image is read.
    WordSize,
    /// The date pattern was refused as a regular expression.
    Pattern,
    /// The image's EXIF data could not be read; the words say why.
    Unreadable(String),
    /// The EXIF data holds no `DateTimeOriginal`.
    MissingTag,
    /// `DateTimeOriginal` holds nothing of the form `YYYY:MM:DD HH:MM:SS`.
    Malformed,
    /// The digits of `DateTimeOriginal` name no point in time.
    BadTimestamp(TimestampFault),
}

/// A `Failure` with its words as a sequence of characters.
pub enum FailureView {
    WordSize,
    Pattern,
    Unreadable(Seq<char>),
    MissingTag,
    Malformed,
    BadTimestamp(TimestampFault),
}

impl View for Failure {
    type V = FailureView;

    open spec fn view(&self) -> FailureView {
        match self {
            Failure::WordSize => FailureView::WordSize,
            Failure::Pattern => FailureView::Pattern,
            Failure::Unreadable(reason) => FailureView::Unreadable(reason@),
            Failure::MissingTag => FailureView::MissingTag,
            Failure::Malformed => FailureView::Malformed,
            Failure::BadTimestamp(fault) => FailureView::BadTimestamp(*fault),
        }
    }
}

/// The view of what was decided for a file: the time to set, or the reason
/// for setting none.
pub open spec fn outcome_view(outcome: Result<Stamp, Failure>) -> Result<Stamp, FailureView> {
    match outcome {
        Ok(stamp) => Ok(stamp),
        Err(failure) => Err(failure@),
    }
}

/// The date and time that a search with `DATE_PATTERN` found, written as
/// `YYYY-MM-DD HH:MM:SS`, or the reason why there is none.
pub open spec fn found_text(found: SearchView) -> Result<Seq<char>, FailureView> {
    match found {
        SearchView::BadPattern => Err(FailureView::Pattern),
        SearchView::NoMatch => Err(FailureView::Malformed),
        SearchView::Match(groups) => match parts_of(groups) {
            Some(parts) => Ok(canonical(parts)),
            None => Err(FailureView::Malformed),
        },
    }
}

/// Turns what a search with `DATE_PATTERN` found into the text of a date and
/// a time, `YYYY-MM-DD HH:MM:SS`.
pub fn date_text(found: &Search) -> (text: Result<String, Failure>)
    ensures
        match text {
            Ok(t) => found_text(found@) == Ok::<Seq<char>, FailureView>(t@),
            Err(failure) => found_text(found@) == Err::<Seq<char>, FailureView>(failure@),
        },
{
    match found {
        Search::BadPattern => Err(Failure::Pattern),
        Search::NoMatch => Err(Failure::Malformed),
        Search::Match(groups) => match date_parts(groups) {
            Some(parts) => Ok(canonical_text(&parts)),
            None => Err(Failure::Malformed),
        },
    }
}

/// What holds of a machine with a `usize` of 64 bits holds of this one if it
/// is such a machine; on any other, nothing is read and the outcome says so.
pub open spec fn on_this_machine(outcome: Result<Stamp, FailureView>) -> Result<
    Stamp,
    FailureView,
> {
    if usize::BITS == 64 {
        outcome
    } else {
        Err(FailureView::WordSize)
    }
}

/// What reading a written date and time came to, as the outcome for a file.
pub open spec fn read_outcome(read: Result<Stamp, TimestampFault>) -> Result<Stamp, FailureView> {
    match read {
        Ok(stamp) => Ok(stamp),
        Err(fault) => Err(FailureView::BadTimestamp(fault)),
    }
}

/// Turns what reading a written date and time came to into the outcome for a
/// file.
pub fn stamp_outcome(read: Result<Stamp, TimestampFault>) -> (outcome: Result<Stamp, Failure>)
    ensures
        outcome_view(outcome) == read_outcome(read),
{
    match read {
        Ok(stamp) => Ok(stamp),
        Err(fault) => Err(Failure::BadTimestamp(fault)),
    }
}

/// The capture time that the value of a `DateTimeOriginal` field stands for
/// on a machine with a `usize` of 64 bits: the leftmost match of
/// `DATE_PATTERN` in it, rewritten as `YYYY-MM-DD HH:MM:SS` and read as a
/// date and a time of day in UTC.
pub open spec fn captured(value: Seq<char>) -> Result<Stamp, FailureView> {
    match found_text(regex_search(DATE_PATTERN@, value)) {
        Ok(text) => read_outcome(rfc3339_weak(text)),
        Err(failure) => Err(failure),
    }
}

/// Reads the capture time out of the value of a `DateTimeOriginal` field.
pub fn capture_time(value: &str) -> (outcome: Result<Stamp, Failure>)
    ensures
        outcome_view(outcome) == on_this_machine(captured(value@)),
{
    if usize::BITS != 64 {
        return Err(Failure::WordSize);
    }
    let found = search(DATE_PATTERN, value);
    match date_text(&found) {
        Ok(text) => stamp_outcome(parse_timestamp(text.as_str())),
        Err(failure) => Err(failure),
    }
}

/// The capture time that a list of EXIF fields records: that of the first
/// field tagged `DateTimeOriginal`.
pub open spec fn recorded(fields: Seq<(u32, Seq<char>)>) -> Result<Stamp, FailureView> {
    match first_with_tag(fields, DATE_TIME_ORIGINAL) {
        Some(i) => captured(fields[i].1),
        None => Err(FailureView::MissingTag),
    }
}

/// The time to which the modification time of a file with the given contents
/// is to be set, on a machine with a `usize` of 64 bits.
pub open spec fn planned(contents: Seq<u8>) -> Result<Stamp, FailureView> {
    match exif_scan(contents) {
        Ok(fields) => recorded(fields),
        Err(reason) => Err(FailureView::Unreadable(reason)),
    }
}

/// Reads the capture time out of the EXIF fields of an image.
pub fn recorded_time(fields: &Vec<ExifField>) -> (outcome: Result<Stamp, Failure>)
    ensures
        outcome_view(outcome) == on_this_machine(recorded(field_views(fields@))),
{
    if usize::BITS != 64 {
        return Err(Failure::WordSize);
    }
    proof {
        lemma_first_with_tag(field_views(fields@), DATE_TIME_ORIGINAL);
    }
    match find_tag(fields, DATE_TIME_ORIGINAL) {
        Some(i) => {
            assert(field_views(fields@)[i as int] == fields@[i as int]@);
            capture_time(fields[i].value.as_str())
        },
        None => Err(Failure::MissingTag),
    }
}

/// Decides from the contents of a file to which time its modification time
/// is to be set, or why it is to be left as it is.
pub fn original_time(contents: &[u8]) -> (outcome: Result<Stamp, Failure>)
    ensures
        outcome_view(outcome) == on_this_machine(planned(contents@)),
{
    if usize::BITS != 64 {
        return Err(Failure::WordSize);
    }
    match parse_buffer_quiet(contents) {
        Ok(fields) => recorded_time(&fields),
        Err(reason) => Err(Failure::Unreadable(reason)),
    }
}

} // verus!
