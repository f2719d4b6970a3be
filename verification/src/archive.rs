//! The listing of an archive: the output of the listing tool, one entry on
//! each line.

use crate::error::ErrorKind;
use crate::text::chars_of;
use vstd::prelude::*;
use vstd::string::{StrSliceExecFns, StringExecFns};
use vstd::utf8::{decode_utf8, valid_utf8};

verus! {

/// The number of characters from position `from` up to the next line feed,
/// or up to the end of the text.
pub open spec fn line_length(text: Seq<char>, from: int) -> nat
    decreases text.len() - from,
{
    if from < 0 || from >= text.len() || text[from] == '\n' {
        0
    } else {
        1 + line_length(text, from + 1)
    }
}

/// The lines of the text from position `from` on. A line ends at a line
/// feed, or at a carriage return followed by a line feed; neither belongs to
/// the line. What follows the last line feed is a line unless it is empty.
pub open spec fn lines_from(text: Seq<char>, from: int) -> Seq<Seq<char>>
    decreases text.len() - from,
{
    if from < 0 || from >= text.len() {
        Seq::empty()
    } else {
        let end = from + line_length(text, from);
        if end < text.len() {
            seq![without_return(text.subrange(from, end))] + lines_from(text, end + 1)
        } else {
            seq![text.subrange(from, end)]
        }
    }
}

/// The line without the carriage return at its end, where it has one.
pub open spec fn without_return(line: Seq<char>) -> Seq<char> {
    if line.len() > 0 && line.last() == '\r' {
        line.drop_last()
    } else {
        line
    }
}

/// The lines of a text.
pub open spec fn lines_of(text: Seq<char>) -> Seq<Seq<char>> {
    lines_from(text, 0)
}

/// The lines of a text, in order.
pub fn lines(text: &str) -> (found: Vec<String>)
    ensures
        found.deep_view() == lines_of(text@),
{
    let chars = chars_of(text);
    let mut found: Vec<String> = Vec::new();
    let mut from: usize = 0;
    while from < chars.len()
        invariant
            from <= chars.len(),
            chars@ == text@,
            lines_of(text@) == found.deep_view() + lines_from(text@, from as int),
        decreases chars.len() - from,
    {
        let mut end: usize = from;
        while end < chars.len() && chars[end] != '\n'
            invariant
                from <= end <= chars.len(),
                chars@ == text@,
                line_length(text@, from as int) == (end - from) + line_length(text@, end as int),
            decreases chars.len() - end,
        {
            end += 1;
        }
        if end < chars.len() {
            let stop: usize = if end > from && chars[end - 1] == '\r' {
                end - 1
            } else {
                end
            };
            let line = String::from_str(text.substring_char(from, stop));
            assert(line@ == without_return(text@.subrange(from as int, end as int)));
            found.push(line);
            from = end + 1;
        } else {
            let line = String::from_str(text.substring_char(from, end));
            found.push(line);
            from = end;
        }
    }
    found
}

/// Calls `String::from_utf8`. Trusted: the text is returned exactly where the
/// bytes are valid UTF-8, and it is what they decode to.
#[verifier::external_body]
fn utf8_text(bytes: Vec<u8>) -> (text: Option<String>)
    ensures
        match text {
            Some(decoded) => valid_utf8(bytes@) && decoded@ == decode_utf8(bytes@),
            None => !valid_utf8(bytes@),
        },
{
    String::from_utf8(bytes).ok()
}

/// The entries of an archive, from the output of the listing tool. Fails with
/// `Archive` exactly where the output is not valid UTF-8.
pub fn archive_entries(listing: Vec<u8>) -> (entries: Result<Vec<String>, ErrorKind>)
    ensures
        match entries {
            Ok(found) => valid_utf8(listing@) && found.deep_view() == lines_of(
                decode_utf8(listing@),
            ),
            Err(kind) => kind == ErrorKind::Archive && !valid_utf8(listing@),
        },
{
    match utf8_text(listing) {
        Some(text) => Ok(lines(text.as_str())),
        None => Err(ErrorKind::Archive),
    }
}

} // verus!
