//! Removing comments from source text before it is parsed.
use vstd::prelude::*;
use crate::text::{chars_of, text_of};

verus! {

/// The first position from `from` on that holds a line feed; the length of
/// the text when there is none.
pub open spec fn line_feed_from(s: Seq<char>, from: int) -> int
    decreases s.len() - from,
{
    if from >= s.len() || s[from] == '\n' {
        from
    } else {
        line_feed_from(s, from + 1)
    }
}

/// Whether `s` holds the two characters `a`, `b` at position `at`.
pub open spec fn pair_at(s: Seq<char>, at: int, a: char, b: char) -> bool {
    0 <= at && at + 1 < s.len() && s[at] == a && s[at + 1] == b
}

pub open spec fn nested_message() -> Seq<char> {
    "Nested multi-line comments are not allowed"@
}

pub open spec fn unterminated_message() -> Seq<char> {
    "Unterminated multi-line comment"@
}

/// The text from position `from` on without its comments, written after
/// `out`; `inside` says whether `from` lies in a block comment.
///
/// A line comment runs from `//` to the end of its line and leaves the line
/// feed. A block comment runs from `/*` to the next `*/` and leaves
/// nothing. A `/*` inside a block comment is an error, and so is a block
/// comment that the text ends in.
pub open spec fn stripped_from(s: Seq<char>, from: int, out: Seq<char>, inside: bool) -> Result<
    Seq<char>,
    Seq<char>,
>
    decreases s.len() - from,
{
    if from >= s.len() || from < 0 {
        if inside {
            Err(unterminated_message())
        } else {
            Ok(out)
        }
    } else if inside {
        if pair_at(s, from, '*', '/') {
            stripped_from(s, from + 2, out, false)
        } else if pair_at(s, from, '/', '*') {
            Err(nested_message())
        } else {
            stripped_from(s, from + 1, out, true)
        }
    } else if pair_at(s, from, '/', '/') {
        let end = line_feed_from(s, from + 2);
        if from + 2 <= end < s.len() {
            stripped_from(s, end + 1, out.push('\n'), false)
        } else {
            Ok(out)
        }
    } else if pair_at(s, from, '/', '*') {
        stripped_from(s, from + 2, out, true)
    } else {
        stripped_from(s, from + 1, out.push(s[from]), false)
    }
}

/// The source without its comments, or why it cannot be had.
pub open spec fn stripped(source: Seq<char>) -> Result<Seq<char>, Seq<char>> {
    stripped_from(source, 0, Seq::empty(), false)
}

fn find_line_feed(chars: &Vec<char>, from: usize) -> (r: usize)
    requires
        from <= chars.len(),
    ensures
        from <= r <= chars.len(),
        r == line_feed_from(chars@, from as int),
{
    let mut i = from;
    while i < chars.len()
        invariant
            from <= i <= chars.len(),
            line_feed_from(chars@, i as int) == line_feed_from(chars@, from as int),
        decreases chars.len() - i,
    {
        if chars[i] == '\n' {
            return i;
        }
        i += 1;
    }
    i
}

fn has_pair(chars: &Vec<char>, at: usize, a: char, b: char) -> (r: bool)
    requires
        at < chars.len(),
    ensures
        r == pair_at(chars@, at as int, a, b),
{
    chars[at] == a && at + 1 < chars.len() && chars[at + 1] == b
}

/// Removes the comments from `source`.
pub fn strip_comments(source: &str) -> (r: Result<String, String>)
    ensures
        match r {
            Ok(text) => stripped(source@) == Ok::<Seq<char>, Seq<char>>(text@),
            Err(message) => stripped(source@) == Err::<Seq<char>, Seq<char>>(message@),
        },
{
    let chars = chars_of(source);
    let mut out: Vec<char> = Vec::new();
    let mut inside = false;
    let mut i: usize = 0;
    while i < chars.len()
        invariant
            i <= chars.len(),
            chars@ == source@,
            stripped_from(chars@, i as int, out@, inside) == stripped(source@),
        decreases chars.len() - i,
    {
        if inside {
            if has_pair(&chars, i, '*', '/') {
                inside = false;
                i += 2;
            } else if has_pair(&chars, i, '/', '*') {
                return Err("Nested multi-line comments are not allowed".to_owned());
            } else {
                i += 1;
            }
        } else if has_pair(&chars, i, '/', '/') {
            let end = find_line_feed(&chars, i + 2);
            if end < chars.len() {
                out.push('\n');
                i = end + 1;
            } else {
                return Ok(text_of(&out));
            }
        } else if has_pair(&chars, i, '/', '*') {
            inside = true;
            i += 2;
        } else {
            out.push(chars[i]);
            i += 1;
        }
    }
    if inside {
        Err("Unterminated multi-line comment".to_owned())
    } else {
        Ok(text_of(&out))
    }
}

} // verus!
