//! Blank lines, and the short preview of a line that goes into a diagnostic.
use vstd::prelude::*;

verus! {

/// The characters that `char::is_whitespace` accepts: those with the Unicode
/// property White_Space.
pub open spec fn is_white_space(c: char) -> bool {
    ('\u{9}' <= c && c <= '\u{d}') || c == ' ' || c == '\u{85}' || c == '\u{a0}'
        || c == '\u{1680}' || ('\u{2000}' <= c && c <= '\u{200a}') || c == '\u{2028}'
        || c == '\u{2029}' || c == '\u{202f}' || c == '\u{205f}' || c == '\u{3000}'
}

/// The text without its leading white space.
pub open spec fn trim_start(s: Seq<char>) -> Seq<char>
    decreases s.len(),
{
    if s.len() > 0 && is_white_space(s[0]) {
        trim_start(s.drop_first())
    } else {
        s
    }
}

/// The text without its trailing white space.
pub open spec fn trim_end(s: Seq<char>) -> Seq<char>
    decreases s.len(),
{
    if s.len() > 0 && is_white_space(s.last()) {
        trim_end(s.drop_last())
    } else {
        s
    }
}

/// Whether a line holds nothing but white space.
pub open spec fn is_blank(s: Seq<char>) -> bool {
    trim_end(trim_start(s)).len() == 0
}

/// Relies on str::trim: the text without leading and trailing white space.
#[verifier::external_body]
fn trim(s: &str) -> (r: &str)
    ensures
        r@ == trim_end(trim_start(s@)),
{
    s.trim()
}

/// Whether a line holds nothing but white space.
pub fn is_blank_line(line: &str) -> (r: bool)
    ensures
        r == is_blank(line@),
{
    trim(line).is_empty()
}

/// The number of bytes that a character takes in UTF-8.
pub open spec fn char_bytes(c: char) -> int {
    if (c as u32) < 0x80 {
        1
    } else if (c as u32) < 0x800 {
        2
    } else if (c as u32) < 0x10000 {
        3
    } else {
        4
    }
}

/// The number of bytes that a text takes in UTF-8.
pub open spec fn utf8_len(s: Seq<char>) -> int
    decreases s.len(),
{
    if s.len() == 0 {
        0
    } else {
        utf8_len(s.drop_last()) + char_bytes(s.last())
    }
}

/// How many bytes of a line a diagnostic shows at most.
pub const PREVIEW_BYTES: usize = 100;

/// The position up to which characters still fit in the preview, counting
/// from position `i` with `used` bytes already taken.
pub open spec fn fitting_chars(s: Seq<char>, i: int, used: int) -> int
    decreases s.len() - i,
{
    if 0 <= i < s.len() && used + char_bytes(s[i]) <= PREVIEW_BYTES {
        fitting_chars(s, i + 1, used + char_bytes(s[i]))
    } else {
        i
    }
}

/// The longest prefix of a line that takes at most `PREVIEW_BYTES` bytes in
/// UTF-8; it never ends inside a character.
pub open spec fn preview_of(s: Seq<char>) -> Seq<char> {
    s.subrange(0, fitting_chars(s, 0, 0))
}

fn utf8_width(c: char) -> (r: usize)
    ensures
        r == char_bytes(c),
{
    if (c as u32) < 0x80 {
        1
    } else if (c as u32) < 0x800 {
        2
    } else if (c as u32) < 0x10000 {
        3
    } else {
        4
    }
}

/// The longest prefix of a line that takes at most `PREVIEW_BYTES` bytes in
/// UTF-8.
pub fn line_preview(line: &str) -> (r: String)
    ensures
        r@ == preview_of(line@),
        r@ == line@.subrange(0, r@.len() as int),
        utf8_len(r@) <= PREVIEW_BYTES,
        r@.len() == line@.len() || utf8_len(r@) + char_bytes(line@[r@.len() as int]) > PREVIEW_BYTES,
{
    let n = line.unicode_len();
    let mut i: usize = 0;
    let mut used: usize = 0;
    let mut full = false;
    while i < n && !full
        invariant
            n == line@.len(),
            i <= n,
            used <= PREVIEW_BYTES,
            used == utf8_len(line@.subrange(0, i as int)),
            fitting_chars(line@, 0, 0) == fitting_chars(line@, i as int, used as int),
            full ==> i < n && used + char_bytes(line@[i as int]) > PREVIEW_BYTES,
        decreases n - i + if full { 0int } else { 1int },
    {
        let b = utf8_width(line.get_char(i));
        if used + b > PREVIEW_BYTES {
            full = true;
        } else {
            assert(line@.subrange(0, i + 1).drop_last() == line@.subrange(0, i as int));
            used = used + b;
            i = i + 1;
        }
    }
    assert(fitting_chars(line@, i as int, used as int) == i);
    String::from_str(line.substring_char(0, i))
}

/// Whether `pattern` occurs in `s`.
pub open spec fn contains_text(s: Seq<char>, pattern: Seq<char>) -> bool {
    exists|i: int| 0 <= i && i + pattern.len() <= s.len() && #[trigger] s.subrange(i, i + pattern.len()) == pattern
}

/// Relies on str::contains with a string pattern: whether the pattern occurs
/// in the text.
#[verifier::external_body]
fn contains(s: &str, pattern: &str) -> (r: bool)
    ensures
        r == contains_text(s@, pattern@),
{
    s.contains(pattern)
}

/// The lines that are not blank, in order.
pub fn non_blank_lines(lines: &[String]) -> (r: Vec<String>)
    ensures
        r@ == lines@.filter(|l: String| !is_blank(l@)),
{
    let mut r: Vec<String> = Vec::new();
    let mut i: usize = 0;
    while i < lines.len()
        invariant
            i <= lines@.len(),
            r@ == lines@.subrange(0, i as int).filter(|l: String| !is_blank(l@)),
        decreases lines@.len() - i,
    {
        let ghost prev = lines@.subrange(0, i as int);
        let ghost next = lines@.subrange(0, i + 1);
        if !is_blank_line(lines[i].as_str()) {
            r.push(lines[i].clone());
        }
        proof {
            reveal_with_fuel(Seq::filter, 1);
            assert(next.drop_last() == prev);
            assert(next.last() == lines@[i as int]);
            assert(next.filter(|l: String| !is_blank(l@)) == if !is_blank(next.last()@) {
                prev.filter(|l: String| !is_blank(l@)).push(next.last())
            } else {
                prev.filter(|l: String| !is_blank(l@))
            });
        }
        i += 1;
    }
    assert(lines@.subrange(0, i as int) == lines@);
    r
}

/// The lines in which `pattern` occurs, in order.
pub fn lines_containing(lines: &[String], pattern: &str) -> (r: Vec<String>)
    ensures
        r@ == lines@.filter(|l: String| contains_text(l@, pattern@)),
{
    let mut r: Vec<String> = Vec::new();
    let mut i: usize = 0;
    while i < lines.len()
        invariant
            i <= lines@.len(),
            r@ == lines@.subrange(0, i as int).filter(|l: String| contains_text(l@, pattern@)),
        decreases lines@.len() - i,
    {
        let ghost prev = lines@.subrange(0, i as int);
        let ghost next = lines@.subrange(0, i + 1);
        if contains(lines[i].as_str(), pattern) {
            r.push(lines[i].clone());
        }
        proof {
            reveal_with_fuel(Seq::filter, 1);
            assert(next.drop_last() == prev);
            assert(next.last() == lines@[i as int]);
            assert(next.filter(|l: String| contains_text(l@, pattern@)) == if contains_text(next.last()@, pattern@) {
                prev.filter(|l: String| contains_text(l@, pattern@)).push(next.last())
            } else {
                prev.filter(|l: String| contains_text(l@, pattern@))
            });
        }
        i += 1;
    }
    assert(lines@.subrange(0, i as int) == lines@);
    r
}

} // verus!
