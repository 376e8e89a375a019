//! Small operations on text that the rest of the library shares.

use vstd::prelude::*;
use vstd::string::StringExecFns;

verus! {

/// The lower-case form that `str::to_lowercase` gives a text.
pub uninterp spec fn lowercase_of(text: Seq<char>) -> Seq<char>;

/// Whether a character is white space for `str::trim`: whether it has the
/// Unicode property `White_Space`, as `char::is_whitespace` tells.
pub uninterp spec fn is_white_space(c: char) -> bool;

/// A text without the white space at its start.
pub open spec fn without_leading_space(text: Seq<char>) -> Seq<char>
    decreases text.len(),
{
    if text.len() > 0 && is_white_space(text[0]) {
        without_leading_space(text.skip(1))
    } else {
        text
    }
}

/// A text without the white space at its end.
pub open spec fn without_trailing_space(text: Seq<char>) -> Seq<char>
    decreases text.len(),
{
    if text.len() > 0 && is_white_space(text.last()) {
        without_trailing_space(text.drop_last())
    } else {
        text
    }
}

/// A text without the white space at its start and at its end.
pub open spec fn trimmed(text: Seq<char>) -> Seq<char> {
    without_trailing_space(without_leading_space(text))
}

/// Calls `str::to_lowercase`, which maps each character to its Unicode
/// lower-case equivalent. The contract only names the result: it is a function
/// of the text alone.
#[verifier::external_body]
pub(crate) fn to_lowercase(text: &str) -> (lower: String)
    ensures
        lower@ == lowercase_of(text@),
{
    text.to_lowercase()
}

/// Calls `str::trim`, which returns the text with leading and trailing white
/// space removed; white space is what `char::is_whitespace` holds of, the
/// characters with the Unicode property `White_Space`. The contract says that,
/// and leaves open only which characters those are: what is left neither
/// starts nor ends with one of them.
#[verifier::external_body]
pub(crate) fn trim(text: &str) -> (inner: &str)
    ensures
        inner@ == trimmed(text@),
        inner@.len() > 0 ==> !is_white_space(inner@[0]) && !is_white_space(inner@.last()),
{
    text.trim()
}

/// Whether a text holds nothing but white space.
pub open spec fn is_blank(text: Seq<char>) -> bool {
    trimmed(text).len() == 0
}

/// Of a text that starts with no white space, the start stays when the end is trimmed.
proof fn trailing_keeps_solid_start(text: Seq<char>)
    requires
        text.len() > 0,
        !is_white_space(text[0]),
    ensures
        without_trailing_space(text).len() > 0,
    decreases text.len(),
{
    if is_white_space(text.last()) {
        assert(text.len() > 1);
        trailing_keeps_solid_start(text.drop_last());
    }
}

/// A text is blank exactly if each of its characters is white space. So the
/// empty text is blank.
pub proof fn blank_is_all_white_space(text: Seq<char>)
    ensures
        is_blank(text) <==> forall|i: int| 0 <= i < text.len() ==> is_white_space(#[trigger] text[i]),
        text.len() == 0 ==> is_blank(text),
    decreases text.len(),
{
    if text.len() > 0 {
        if is_white_space(text[0]) {
            let rest = text.skip(1);
            blank_is_all_white_space(rest);
            if is_blank(rest) {
                assert forall|i: int| 0 <= i < text.len() implies is_white_space(
                    #[trigger] text[i],
                ) by {
                    if i > 0 {
                        assert(text[i] == rest[i - 1]);
                    }
                }
            } else {
                let i = choose|i: int| 0 <= i < rest.len() && !is_white_space(#[trigger] rest[i]);
                assert(text[i + 1] == rest[i]);
            }
        } else {
            trailing_keeps_solid_start(text);
        }
    }
}

/// Whether a text holds nothing but white space.
pub fn blank(text: &str) -> (r: bool)
    ensures
        r == is_blank(text@),
{
    trim(text).is_empty()
}

/// The lines of a text wrapped by `textwrap::wrap` to lines of `width` columns.
pub uninterp spec fn wrapped_lines(text: Seq<char>, width: int) -> Seq<Seq<char>>;

/// Calls `textwrap::wrap` with a plain width, which breaks the text into lines
/// of at most that many columns where words allow it. The contract names the
/// lines: they are a function of the text and the width alone.
#[verifier::external_body]
pub(crate) fn wrap(text: &str, width: usize) -> (lines: Vec<String>)
    ensures
        lines@.map_values(|line: String| line@) == wrapped_lines(text@, width as int),
{
    textwrap::wrap(text, width).into_iter().map(|line| line.into_owned()).collect()
}

/// Lines joined into one text, with a line feed between each two.
pub open spec fn joined(lines: Seq<Seq<char>>) -> Seq<char>
    decreases lines.len(),
{
    if lines.len() == 0 {
        Seq::empty()
    } else if lines.len() == 1 {
        lines[0]
    } else {
        joined(lines.drop_last()) + "\n"@ + lines.last()
    }
}

/// Joins lines into one text, with a line feed between each two.
pub fn join_lines(lines: &Vec<String>) -> (text: String)
    ensures
        text@ == joined(lines@.map_values(|line: String| line@)),
{
    let ghost all = lines@.map_values(|line: String| line@);
    let mut text = String::new();
    let mut i: usize = 0;
    while i < lines.len()
        invariant
            0 <= i <= lines.len(),
            all == lines@.map_values(|line: String| line@),
            text@ == joined(all.take(i as int)),
        decreases lines.len() - i,
    {
        proof {
            let next = all.take(i + 1);
            assert(next.drop_last() =~= all.take(i as int));
            assert(next.last() == lines@[i as int]@);
            if i == 0 {
                assert(text@ + lines@[0]@ =~= next[0]);
            }
        }
        if i > 0 {
            text.append("\n");
        }
        text.append(lines[i].as_str());
        i += 1;
    }
    assert(all.take(i as int) =~= all);
    text
}

/// The width to which replies are wrapped when they are shown.
pub const WIDTH: usize = 72;

/// A text as it is shown: wrapped to the display width.
pub open spec fn filled(text: Seq<char>) -> Seq<char> {
    joined(wrapped_lines(text, WIDTH as int))
}

/// Wraps a text to the display width.
pub fn fill(text: &str) -> (shown: String)
    ensures
        shown@ == filled(text@),
{
    let lines = wrap(text, WIDTH);
    join_lines(&lines)
}

/// Whether two texts hold the same characters.
pub fn same_text(a: &str, b: &str) -> (same: bool)
    ensures
        same == (a@ == b@),
{
    let left: String = String::from_str(a);
    let right: String = String::from_str(b);
    left == right
}

} // verus!
