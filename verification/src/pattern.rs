//! The search for a date and a time of day in the text of an EXIF field.

use vstd::prelude::*;

verus! {

/// The pattern that a capture time is looked for with: four digits of the
/// year, then two each of month, day, hour, minute and second, written as
/// `YYYY:MM:DD HH:MM:SS`. Each run of digits is a group of its own.
pub const DATE_PATTERN: &'static str = r"(\d{4}):(\d{2}):(\d{2}) (\d{2}):(\d{2}):(\d{2})";

/// How many groups a match of `DATE_PATTERN` has: the whole match and its six
/// runs of digits.
pub const DATE_GROUPS: usize = 7;

/// What a search of a text with a pattern came to.
#[derive(Clone, Debug, PartialEq, Eq)]
pub enum Search {
    /// The pattern is no regular expression, or too large a one.
    BadPattern,
    /// The pattern matches nowhere in the text.
    NoMatch,
    /// The text of each group of the leftmost match, the whole match first.
    /// A group that took no part in the match has none.
    Match(Vec<Option<String>>),
}

/// A `Search` with its texts as sequences of characters.
pub enum SearchView {
    BadPattern,
    NoMatch,
    Match(Seq<Option<Seq<char>>>),
}

impl View for Search {
    type V = SearchView;

    open spec fn view(&self) -> SearchView {
        match self {
            Search::BadPattern => SearchView::BadPattern,
            Search::NoMatch => SearchView::NoMatch,
            Search::Match(groups) => SearchView::Match(groups.deep_view()),
        }
    }
}

/// What the regular expression `pattern` finds in `text`.
pub uninterp spec fn regex_search(pattern: Seq<char>, text: Seq<char>) -> SearchView;

/// Calls `regex::Regex::new` on the pattern and `Regex::captures` of the
/// expression it yields on the text.
///
/// Trusted: what is found depends on the pattern and the text alone, so it is
/// given the name `regex_search`. A pattern that `Regex::new` refuses gives
/// `BadPattern`, a text without a match `NoMatch`; of a match, the groups
/// that `Captures::iter` yields are handed on in its order, each as the text
/// it matched. The size that an expression may have is counted in `usize`,
/// which is asked to be 64 bits wide.
#[verifier::external_body]
pub(crate) fn search(pattern: &str, text: &str) -> (found: Search)
    requires
        usize::BITS == 64,
    ensures
        found@ == regex_search(pattern@, text@),
{
    match regex::Regex::new(pattern) {
        Err(_) => Search::BadPattern,
        Ok(re) => match re.captures(text) {
            None => Search::NoMatch,
            Some(caps) => Search::Match(
                caps.iter().map(|group| group.map(|m| m.as_str().to_string())).collect(),
            ),
        },
    }
}

/// The six runs of digits of a capture time, as they were written.
#[derive(Clone, Debug, PartialEq, Eq)]
pub struct DateParts {
    pub year: String,
    pub month: String,
    pub day: String,
    pub hour: String,
    pub minute: String,
    pub second: String,
}

/// `DateParts` with its texts as sequences of characters.
pub struct DatePartsView {
    pub year: Seq<char>,
    pub month: Seq<char>,
    pub day: Seq<char>,
    pub hour: Seq<char>,
    pub minute: Seq<char>,
    pub second: Seq<char>,
}

impl View for DateParts {
    type V = DatePartsView;

    open spec fn view(&self) -> DatePartsView {
        DatePartsView {
            year: self.year@,
            month: self.month@,
            day: self.day@,
            hour: self.hour@,
            minute: self.minute@,
            second: self.second@,
        }
    }
}

/// Whether the groups are those of a match of `DATE_PATTERN`: seven, and each
/// of the six after the first took part.
pub open spec fn holds_date(groups: Seq<Option<Seq<char>>>) -> bool {
    &&& groups.len() == DATE_GROUPS
    &&& forall|i: int| 1 <= i < DATE_GROUPS ==> (#[trigger] groups[i]) is Some
}

/// The parts that the groups of a match hold, where `holds_date` says that
/// they hold a date.
pub open spec fn parts_of(groups: Seq<Option<Seq<char>>>) -> Option<DatePartsView> {
    if holds_date(groups) {
        Some(
            DatePartsView {
                year: groups[1]->0,
                month: groups[2]->0,
                day: groups[3]->0,
                hour: groups[4]->0,
                minute: groups[5]->0,
                second: groups[6]->0,
            },
        )
    } else {
        None
    }
}

/// The view of an optional `DateParts`.
pub open spec fn parts_view(parts: Option<DateParts>) -> Option<DatePartsView> {
    match parts {
        Some(p) => Some(p@),
        None => None,
    }
}

/// Takes the date and the time of day out of the groups of a match. Groups
/// that are not those of `DATE_PATTERN` give nothing.
pub fn date_parts(groups: &Vec<Option<String>>) -> (parts: Option<DateParts>)
    ensures
        parts_view(parts) == parts_of(groups.deep_view()),
{
    if groups.len() != DATE_GROUPS {
        return None;
    }
    let ghost views = groups.deep_view();
    assert(forall|i: int| 0 <= i < 7 ==> #[trigger] views[i] == groups[i].deep_view());
    match (&groups[1], &groups[2], &groups[3], &groups[4], &groups[5], &groups[6]) {
        (Some(year), Some(month), Some(day), Some(hour), Some(minute), Some(second)) => {
            Some(
                DateParts {
                    year: year.clone(),
                    month: month.clone(),
                    day: day.clone(),
                    hour: hour.clone(),
                    minute: minute.clone(),
                    second: second.clone(),
                },
            )
        },
        _ => {
            assert(!holds_date(views)) by {
                if holds_date(views) {
                    assert(views[1] is Some && views[2] is Some && views[3] is Some);
                    assert(views[4] is Some && views[5] is Some && views[6] is Some);
                }
            }
            None
        },
    }
}

} // verus!
