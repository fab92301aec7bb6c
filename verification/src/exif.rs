//! The EXIF fields of an image, as far as the capture time needs them.

use vstd::prelude::*;

verus! {

/// The number under which EXIF keeps the time at which a picture was taken.
pub const DATE_TIME_ORIGINAL: u32 = 0x9003;

/// One EXIF field: the number of its tag and its value as text.
///
/// The number holds the field's name space in its upper sixteen bits and the
/// tag proper in its lower sixteen; the name space of the standard tags is 0.
#[derive(Clone, Debug, PartialEq, Eq)]
pub struct ExifField {
    pub tag: u32,
    pub value: String,
}

impl View for ExifField {
    type V = (u32, Seq<char>);

    open spec fn view(&self) -> (u32, Seq<char>) {
        (self.tag, self.value@)
    }
}

/// The fields of a list, each by its view.
pub open spec fn field_views(fields: Seq<ExifField>) -> Seq<(u32, Seq<char>)> {
    fields.map_values(|f: ExifField| f@)
}

/// What scanning an image yields: its fields in the order in which the image
/// holds them, or the reason why it has none.
pub open spec fn scan_view(scan: Result<Vec<ExifField>, String>) -> Result<
    Seq<(u32, Seq<char>)>,
    Seq<char>,
> {
    match scan {
        Ok(fields) => Ok(field_views(fields@)),
        Err(reason) => Err(reason@),
    }
}

/// The EXIF fields that an image of the given bytes holds, or the words in
/// which the parser refuses it.
pub uninterp spec fn exif_scan(contents: Seq<u8>) -> Result<Seq<(u32, Seq<char>)>, Seq<char>>;

/// Calls `rexif::parse_buffer_quiet` and drops its warnings.
///
/// Trusted: the parser's answer depends on the bytes alone, so it is given the
/// name `exif_scan`. Each entry found is handed on as the number of its tag
/// (`ExifTag` cast to `u32`) and the text that its value displays as; a
/// refusal is handed on as the text that the error displays as. The parser
/// computes offsets in `usize`, which is asked to be 64 bits wide.
#[verifier::external_body]
pub(crate) fn parse_buffer_quiet(contents: &[u8]) -> (scan: Result<Vec<ExifField>, String>)
    requires
        usize::BITS == 64,
    ensures
        scan_view(scan) == exif_scan(contents@),
{
    match rexif::parse_buffer_quiet(contents).0 {
        Ok(data) => Ok(
            data.entries.into_iter().map(
                |e| ExifField { tag: e.tag as u32, value: e.value.to_string() },
            ).collect(),
        ),
        Err(e) => Err(e.to_string()),
    }
}

/// The place of the first field with the given tag, if there is one.
pub open spec fn first_with_tag(fields: Seq<(u32, Seq<char>)>, tag: u32) -> Option<int>
    decreases fields.len(),
{
    if fields.len() == 0 {
        None
    } else if fields[0].0 == tag {
        Some(0)
    } else {
        match first_with_tag(fields.drop_first(), tag) {
            Some(i) => Some(i + 1),
            None => None,
        }
    }
}

/// `first_with_tag` finds a field with the tag, none stands before it, and it
/// finds none only where there is none.
pub proof fn lemma_first_with_tag(fields: Seq<(u32, Seq<char>)>, tag: u32)
    ensures
        match first_with_tag(fields, tag) {
            Some(i) => {
                &&& 0 <= i < fields.len()
                &&& fields[i].0 == tag
                &&& forall|j: int| 0 <= j < i ==> (#[trigger] fields[j]).0 != tag
            },
            None => forall|j: int| 0 <= j < fields.len() ==> (#[trigger] fields[j]).0 != tag,
        },
    decreases fields.len(),
{
    if fields.len() > 0 && fields[0].0 != tag {
        let rest = fields.drop_first();
        lemma_first_with_tag(rest, tag);
        match first_with_tag(rest, tag) {
            Some(i) => {
                assert forall|j: int| 0 <= j < i + 1 implies (#[trigger] fields[j]).0 != tag by {
                    if j > 0 {
                        assert(fields[j] == rest[j - 1]);
                    }
                }
            },
            None => {
                assert forall|j: int| 0 <= j < fields.len() implies (#[trigger] fields[j]).0
                    != tag by {
                    if j > 0 {
                        assert(fields[j] == rest[j - 1]);
                    }
                }
            },
        }
    }
}

/// A place that holds the tag and has no field with the tag before it is the
/// one that `first_with_tag` names.
pub proof fn lemma_first_with_tag_is(fields: Seq<(u32, Seq<char>)>, tag: u32, at: Option<int>)
    requires
        match at {
            Some(i) => {
                &&& 0 <= i < fields.len()
                &&& fields[i].0 == tag
                &&& forall|j: int| 0 <= j < i ==> (#[trigger] fields[j]).0 != tag
            },
            None => forall|j: int| 0 <= j < fields.len() ==> (#[trigger] fields[j]).0 != tag,
        },
    ensures
        first_with_tag(fields, tag) == at,
{
    lemma_first_with_tag(fields, tag);
}

/// Finds the first field with the given tag.
pub fn find_tag(fields: &Vec<ExifField>, tag: u32) -> (at: Option<usize>)
    ensures
        first_with_tag(field_views(fields@), tag) == match at {
            Some(i) => Some(i as int),
            None => None,
        },
{
    let ghost views = field_views(fields@);
    let mut i: usize = 0;
    while i < fields.len()
        invariant
            i <= fields.len(),
            views == field_views(fields@),
            forall|j: int| 0 <= j < i ==> (#[trigger] views[j]).0 != tag,
        decreases fields.len() - i,
    {
        if fields[i].tag == tag {
            proof {
                lemma_first_with_tag_is(views, tag, Some(i as int));
            }
            return Some(i);
        }
        i += 1;
    }
    proof {
        lemma_first_with_tag_is(views, tag, None);
    }
    None
}

} // verus!
