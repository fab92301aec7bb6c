//! What holds of every file and every run.

use crate::capture::{captured, planned, read_outcome, FailureView};
use crate::exif::{exif_scan, lemma_first_with_tag, DATE_TIME_ORIGINAL};
use crate::filter::{admits, is_jpeg_name, jpeg_suffix, same_ignoring_case};
use crate::handle::{decided, mtime_after};
use crate::pattern::{holds_date, regex_search, SearchView, DATE_PATTERN};
use crate::report::{report_lines, warning_head, warning_text};
use crate::stamp::{rfc3339_weak, Stamp};
use vstd::prelude::*;

verus! {

/// Whether `part` stands somewhere in `text`.
pub open spec fn contains_text(text: Seq<char>, part: Seq<char>) -> bool {
    exists|at: int|
        0 <= at && at + part.len() <= text.len() && #[trigger] text.subrange(
            at,
            at + part.len(),
        ) == part
}

/// A file that is left as it is keeps its modification time and gets exactly
/// one warning, which is the last line written for it and names the file.
/// This holds in particular of a file without readable EXIF data and of one
/// without `DateTimeOriginal`.
pub proof fn lemma_file_left_alone_is_warned_of(
    display: Seq<char>,
    verbosity: u8,
    outcome: Result<Stamp, FailureView>,
    previous: Option<i64>,
    before: Stamp,
)
    requires
        outcome is Err,
    ensures
        mtime_after(before, outcome) == before,
        ({
            let lines = report_lines(display, verbosity, outcome, previous);
            &&& lines.len() >= 1
            &&& lines.last() == (true, warning_text(display, outcome->Err_0))
            &&& forall|i: int| 0 <= i < lines.len() - 1 ==> !(#[trigger] lines[i]).0
        }),
        contains_text(warning_text(display, outcome->Err_0), display),
{
    let failure = outcome->Err_0;
    let text = warning_text(display, failure);
    let at = warning_head(failure).len() as int;
    assert(text.subrange(at, at + display.len()) =~= display);
}

/// A file whose modification time is set gets no warning.
pub proof fn lemma_file_that_is_set_gets_no_warning(
    display: Seq<char>,
    verbosity: u8,
    outcome: Result<Stamp, FailureView>,
    previous: Option<i64>,
)
    requires
        outcome is Ok,
    ensures
        forall|i: int|
            0 <= i < report_lines(display, verbosity, outcome, previous).len() ==> !(
            #[trigger] report_lines(display, verbosity, outcome, previous)[i]).0,
{
}

/// Without readable EXIF data, and without a field tagged `DateTimeOriginal`
/// in it, a file is left as it is: its modification time stays.
pub proof fn lemma_untagged_file_is_left_alone(contents: Seq<u8>, before: Stamp)
    requires
        match exif_scan(contents) {
            Ok(fields) => forall|i: int|
                0 <= i < fields.len() ==> (#[trigger] fields[i]).0 != DATE_TIME_ORIGINAL,
            Err(_) => true,
        },
    ensures
        planned(contents) is Err,
        planned(contents) == match exif_scan(contents) {
            Ok(_) => Err::<Stamp, FailureView>(FailureView::MissingTag),
            Err(reason) => Err::<Stamp, FailureView>(FailureView::Unreadable(reason)),
        },
        mtime_after(before, decided(Ok(contents))) == before,
{
    match exif_scan(contents) {
        Ok(fields) => {
            lemma_first_with_tag(fields, DATE_TIME_ORIGINAL);
        },
        Err(_) => {},
    }
}

/// Where the date pattern matches the value of `DateTimeOriginal`, the time
/// that is set is the one that the digits found name when they are written
/// as `YYYY-MM-DD HH:MM:SS` and read as a date and a time of day in UTC,
/// with no offset applied.
pub proof fn lemma_matching_value_is_read_as_written(
    value: Seq<char>,
    groups: Seq<Option<Seq<char>>>,
)
    requires
        regex_search(DATE_PATTERN@, value) == SearchView::Match(groups),
        holds_date(groups),
    ensures
        captured(value) == read_outcome(
            rfc3339_weak(
                groups[1]->0 + seq!['-'] + groups[2]->0 + seq!['-'] + groups[3]->0 + seq![' ']
                    + groups[4]->0 + seq![':'] + groups[5]->0 + seq![':'] + groups[6]->0,
            ),
        ),
{
}

/// A file as a run sees it: its bytes and its modification time.
pub struct FileState {
    pub contents: Seq<u8>,
    pub mtime: Stamp,
}

/// The file after it was handled: its bytes are untouched, its modification
/// time is the one decided for it.
pub open spec fn after_run(file: FileState) -> FileState {
    FileState {
        contents: file.contents,
        mtime: mtime_after(file.mtime, decided(Ok(file.contents))),
    }
}

/// Handling a file a second time decides what the first time decided and
/// leaves the file as the first time left it; whatever the modification time
/// was before, it has no part in what it becomes.
pub proof fn lemma_second_run_changes_nothing(file: FileState, other_mtime: Stamp)
    ensures
        decided(Ok(after_run(file).contents)) == decided(Ok(file.contents)),
        after_run(after_run(file)) == after_run(file),
        decided(Ok(file.contents)) is Ok ==> after_run(file) == after_run(
            FileState { contents: file.contents, mtime: other_mtime },
        ),
{
}

/// What the name of a JPEG image is, spelled out: it has at least four
/// characters, and its last four are a dot and the letters J, P and G, each
/// in either case.
pub proof fn lemma_jpeg_name_spelled_out(name: Seq<char>)
    ensures
        is_jpeg_name(name) <==> {
            &&& name.len() >= 4
            &&& name[name.len() - 4] == '.'
            &&& (name[name.len() - 3] == 'j' || name[name.len() - 3] == 'J')
            &&& (name[name.len() - 2] == 'p' || name[name.len() - 2] == 'P')
            &&& (name[name.len() - 1] == 'g' || name[name.len() - 1] == 'G')
        },
{
    let suffix = jpeg_suffix();
    let n = name.len() as int;
    assert(suffix.len() == 4 && suffix[0] == '.' && suffix[1] == 'j' && suffix[2] == 'p'
        && suffix[3] == 'g');
    if is_jpeg_name(name) {
        assert(same_ignoring_case(name[n - 4 + 0], suffix[0]));
        assert(same_ignoring_case(name[n - 4 + 1], suffix[1]));
        assert(same_ignoring_case(name[n - 4 + 2], suffix[2]));
        assert(same_ignoring_case(name[n - 4 + 3], suffix[3]));
    }
}

/// An entry whose name is not that of a JPEG image is no candidate, whatever
/// kind of entry it is and wherever it lies: nothing but the name and the
/// kind is asked.
pub proof fn lemma_other_names_are_no_candidates(is_regular_file: bool, name: Seq<char>)
    requires
        !is_jpeg_name(name),
    ensures
        !admits(is_regular_file, name),
{
}

} // verus!
