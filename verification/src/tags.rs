//! The tag lister: decodes the release-listing reply into an ordered list of
//! at most `count` tag names.

use vstd::prelude::*;
use crate::json::Json;
use crate::json::json_doc;
use crate::json::parse_json;
use crate::json::spec_field;
use crate::json::spec_str_of;

verus! {

/// Why a release listing yields no tag list: the reply is not well-formed
/// JSON, or it has the wrong shape (not an array, or an entry without a
/// string `tag_name`).
#[derive(PartialEq, Eq, Structural, Debug)]
pub enum ListError {
    Parse,
    Decode,
}

/// The tag name of one release entry: its `tag_name` field, which must be a
/// string.
pub open spec fn entry_tag(entry: Json) -> Option<Seq<char>> {
    match spec_field(entry, "tag_name"@) {
        Some(v) => spec_str_of(v),
        None => None,
    }
}

/// How many entries the lister consumes: every entry, but never more than
/// `count`.
pub open spec fn take_len(len: int, count: int) -> int {
    if len <= count {
        len
    } else {
        count
    }
}

/// The tag list a release-listing document yields: the `tag_name` of each of
/// its first `take_len` entries, in order; `None` if the document is not an
/// array or one of those entries has no string `tag_name`.
pub open spec fn spec_tags(doc: Json, count: int) -> Option<Seq<Seq<char>>> {
    match doc {
        Json::Arr(entries) => {
            let take = take_len(entries@.len() as int, count);
            if forall|i: int| 0 <= i < take ==> (#[trigger] entry_tag(entries@[i])) is Some {
                Some(Seq::new(take as nat, |i: int| entry_tag(entries@[i])->0))
            } else {
                None
            }
        },
        _ => None,
    }
}

/// Extracts at most `count` tag names from a decoded release listing.
pub fn tags_from_release_list(doc: &Json, count: usize) -> (r: Result<Vec<String>, ListError>)
    ensures
        r is Ok <==> spec_tags(*doc, count as int) is Some,
        r matches Ok(ts) ==> ts.deep_view() == spec_tags(*doc, count as int)->0,
        r matches Ok(ts) ==> ts@.len() <= count,
        r matches Err(e) ==> e == ListError::Decode,
{
    let len = doc.arr_len();
    if !matches!(doc, Json::Arr(_)) {
        return Err(ListError::Decode);
    }
    let take: usize = if len <= count {
        len
    } else {
        count
    };
    let mut tags: Vec<String> = Vec::new();
    let mut i: usize = 0;
    while i < take
        invariant
            *doc matches Json::Arr(entries) && entries@.len() == len,
            take == take_len(len as int, count as int),
            take <= len,
            i <= take,
            tags@.len() == i,
            forall|j: int|
                0 <= j < i ==> (#[trigger] entry_tag(doc->Arr_0@[j])) == Some(
                    tags@[j]@,
                ),
        decreases take - i,
    {
        let entry = match doc.at(i) {
            Some(e) => e,
            None => {
                proof {
                    assert(false);
                }
                return Err(ListError::Decode);
            },
        };
        let name = match entry.get("tag_name") {
            Some(v) => v,
            None => {
                proof {
                    assert(entry_tag(doc->Arr_0@[i as int]) is None);
                    assert(spec_tags(*doc, count as int) is None);
                }
                return Err(ListError::Decode);
            },
        };
        let s = match name.as_string() {
            Some(s) => s,
            None => {
                proof {
                    assert(entry_tag(doc->Arr_0@[i as int]) is None);
                    assert(spec_tags(*doc, count as int) is None);
                }
                return Err(ListError::Decode);
            },
        };
        tags.push(s.clone());
        i = i + 1;
    }
    proof {
        let spec_r = spec_tags(*doc, count as int);
        assert(spec_r is Some);
        assert(tags.deep_view() =~~= spec_r->0);
    }
    Ok(tags)
}

/// Lists the release tags carried by the raw reply text: decodes it and
/// extracts at most `count` tag names. The returned list never exceeds
/// `count` entries.
pub fn list_tags(body: &str, count: usize) -> (r: Result<Vec<String>, ListError>)
    ensures
        json_doc(body@) is None ==> (r matches Err(e) && e == ListError::Parse),
        json_doc(body@) matches Some(doc) ==> (r is Ok <==> spec_tags(doc, count as int) is Some),
        json_doc(body@) matches Some(doc) ==> (r matches Ok(ts) ==> ts.deep_view() == spec_tags(
            doc,
            count as int,
        )->0),
        r matches Ok(ts) ==> ts@.len() <= count,
{
    let doc = match parse_json(body) {
        Some(d) => d,
        None => {
            return Err(ListError::Parse);
        },
    };
    tags_from_release_list(&doc, count)
}

} // verus!
