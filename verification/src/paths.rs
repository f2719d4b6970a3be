//! Paths as texts, with `/` for the separator: joining a directory and a
//! relative path, and cutting the final segment off a URL.

use crate::text::chars_of;
use vstd::prelude::*;
use vstd::string::{StrSliceExecFns, StringExecFns};

verus! {

/// The separator of path segments.
pub const SEPARATOR: char = '/';

/// `rest` below the directory `base`: the two with one separator between
/// them. An empty `base` stands for the current directory and leaves `rest`
/// as it is.
pub open spec fn joined(base: Seq<char>, rest: Seq<char>) -> Seq<char> {
    if base.len() == 0 {
        rest
    } else if base.last() == SEPARATOR {
        base + rest
    } else {
        base + seq![SEPARATOR] + rest
    }
}

/// The final segment of `path` starts at `cut`: what follows holds no
/// separator, and `cut` is the start of the text or stands right behind a
/// separator.
pub open spec fn is_segment_start(path: Seq<char>, cut: int) -> bool {
    &&& 0 <= cut <= path.len()
    &&& cut > 0 ==> path[cut - 1] == SEPARATOR
    &&& forall|j: int| cut <= j < path.len() ==> path[j] != SEPARATOR
}

/// The final segment of `path`: what follows its last separator, or all of
/// it where it holds none.
pub open spec fn last_segment_of(path: Seq<char>) -> Seq<char> {
    path.skip(choose|cut: int| is_segment_start(path, cut))
}

/// The path of `rest` below the directory `base`.
pub fn join(base: &str, rest: &str) -> (path: String)
    ensures
        path@ == joined(base@, rest@),
{
    let base_chars = chars_of(base);
    if base_chars.len() == 0 {
        return String::from_str(rest);
    }
    let mut path = String::from_str(base);
    if base_chars[base_chars.len() - 1] != SEPARATOR {
        proof {
            reveal_strlit("/");
        }
        path.append("/");
    }
    path.append(rest);
    path
}

/// The final segment of `path`.
pub fn last_segment(path: &str) -> (segment: String)
    ensures
        segment@ == last_segment_of(path@),
{
    let chars = chars_of(path);
    let mut cut: usize = chars.len();
    while cut > 0 && chars[cut - 1] != SEPARATOR
        invariant
            cut <= chars.len(),
            forall|j: int| cut <= j < chars.len() ==> chars@[j] != SEPARATOR,
        decreases cut,
    {
        cut -= 1;
    }
    proof {
        lemma_segment_start_is_unique(path@, cut as int);
    }
    String::from_str(path.substring_char(cut, chars.len()))
}

/// A path has one place where its final segment starts.
pub proof fn lemma_segment_start_is_unique(path: Seq<char>, cut: int)
    requires
        is_segment_start(path, cut),
    ensures
        forall|other: int| is_segment_start(path, other) ==> other == cut,
        last_segment_of(path) == path.skip(cut),
{
    assert forall|other: int| is_segment_start(path, other) implies other == cut by {}
}

} // verus!
