//! The filter that admits a directory entry to inspection.

use vstd::prelude::*;
use vstd::string::*;

verus! {

/// The suffix that marks a JPEG file, in lower case.
pub open spec fn jpeg_suffix() -> Seq<char> {
    seq!['.', 'j', 'p', 'g']
}

/// The upper-case form of a lower-case ASCII letter; any other character
/// stands for itself.
pub open spec fn upper_case(c: char) -> char {
    if 'a' <= c <= 'z' {
        ((c as u32) - 32) as char
    } else {
        c
    }
}

/// Whether `c` is `lower` or its upper-case form.
pub open spec fn same_ignoring_case(c: char, lower: char) -> bool {
    c == lower || c == upper_case(lower)
}

/// Whether `name` ends in `suffix`, letters compared without regard to case.
/// `suffix` is taken to be in lower case.
pub open spec fn ends_with_ignoring_case(name: Seq<char>, suffix: Seq<char>) -> bool {
    &&& suffix.len() <= name.len()
    &&& forall|i: int|
        0 <= i < suffix.len() ==> same_ignoring_case(
            #[trigger] name[name.len() - suffix.len() + i],
            suffix[i],
        )
}

/// Whether a file of this name counts as a JPEG image: the name ends in
/// `.jpg`, in any mix of upper and lower case.
pub open spec fn is_jpeg_name(name: Seq<char>) -> bool {
    ends_with_ignoring_case(name, jpeg_suffix())
}

/// Whether a directory entry is to be inspected: it is a regular file and its
/// name is that of a JPEG image.
pub open spec fn admits(is_regular_file: bool, name: Seq<char>) -> bool {
    is_regular_file && is_jpeg_name(name)
}

/// Compares a character with one in lower case, without regard to case.
fn matches_ignoring_case(c: char, lower: char) -> (same: bool)
    ensures
        same == same_ignoring_case(c, lower),
{
    c == lower || ('a' <= lower && lower <= 'z' && c as u32 + 32 == lower as u32)
}

/// Tells whether `name` is the name of a JPEG image.
pub fn has_jpeg_name(name: &str) -> (b: bool)
    ensures
        b == is_jpeg_name(name@),
{
    let n: usize = name.unicode_len();
    if n < 4 {
        return false;
    }
    let b = matches_ignoring_case(name.get_char(n - 4), '.') && matches_ignoring_case(
        name.get_char(n - 3),
        'j',
    ) && matches_ignoring_case(name.get_char(n - 2), 'p') && matches_ignoring_case(
        name.get_char(n - 1),
        'g',
    );
    proof {
        let suffix = jpeg_suffix();
        if is_jpeg_name(name@) {
            assert(same_ignoring_case(name@[n - 4 + 0], suffix[0]));
            assert(same_ignoring_case(name@[n - 4 + 1], suffix[1]));
            assert(same_ignoring_case(name@[n - 4 + 2], suffix[2]));
            assert(same_ignoring_case(name@[n - 4 + 3], suffix[3]));
        }
    }
    b
}

/// Decides whether a directory entry is inspected at all. An entry that is
/// refused here is neither opened nor changed.
pub fn is_candidate(is_regular_file: bool, name: &str) -> (b: bool)
    ensures
        b == admits(is_regular_file, name@),
{
    is_regular_file && has_jpeg_name(name)
}

} // verus!
