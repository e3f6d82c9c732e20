//! Building text: decimal numerals, characters, and buffers of lines.
use vstd::prelude::*;
use vstd::std_specs::iter::IteratorSpec;
use vstd::string::StringExecFns;

verus! {

/// The character that writes the decimal digit `d`.
pub open spec fn digit_char(d: nat) -> char {
    if d == 0 {
        '0'
    } else if d == 1 {
        '1'
    } else if d == 2 {
        '2'
    } else if d == 3 {
        '3'
    } else if d == 4 {
        '4'
    } else if d == 5 {
        '5'
    } else if d == 6 {
        '6'
    } else if d == 7 {
        '7'
    } else if d == 8 {
        '8'
    } else {
        '9'
    }
}

/// The decimal numeral of a natural number, without leading zeros.
pub open spec fn nat_text(n: nat) -> Seq<char>
    decreases n,
{
    if n < 10 {
        seq![digit_char(n)]
    } else {
        nat_text(n / 10).push(digit_char(n % 10))
    }
}

/// The decimal numeral of an integer, with a leading minus sign when negative.
pub open spec fn int_text(i: int) -> Seq<char> {
    if i < 0 {
        seq!['-'] + nat_text((-i) as nat)
    } else {
        nat_text(i as nat)
    }
}

/// What a buffer of lines holds, as text.
pub open spec fn lines(v: Seq<String>) -> Seq<Seq<char>> {
    Seq::new(v.len(), |i: int| v[i]@)
}

/// `String::push` of the standard library: appends one character to the end
/// of the string and changes nothing else.
#[verifier::external_body]
pub(crate) fn push_char(s: &mut String, c: char)
    ensures
        final(s)@ == old(s)@.push(c),
{
    s.push(c)
}

/// Whether the standard library counts `c` as alphabetic.
pub uninterp spec fn alphabetic(c: char) -> bool;

/// Whether the standard library counts `c` as alphabetic or numeric.
pub uninterp spec fn alphanumeric(c: char) -> bool;

/// Whether the standard library counts `c` as white space.
pub uninterp spec fn whitespace(c: char) -> bool;

/// `char::is_alphabetic` of the standard library, which goes by the Unicode
/// character tables. The contract names its result and says nothing else of
/// it.
#[verifier::external_body]
pub(crate) fn is_alphabetic(c: char) -> (b: bool)
    ensures
        b == alphabetic(c),
{
    c.is_alphabetic()
}

/// `char::is_alphanumeric` of the standard library, which goes by the
/// Unicode character tables. The contract names its result and says nothing
/// else of it.
#[verifier::external_body]
pub(crate) fn is_alphanumeric(c: char) -> (b: bool)
    ensures
        b == alphanumeric(c),
{
    c.is_alphanumeric()
}

/// `char::is_whitespace` of the standard library, which goes by the Unicode
/// character tables. The contract names its result and says nothing else of
/// it.
#[verifier::external_body]
pub(crate) fn is_whitespace(c: char) -> (b: bool)
    ensures
        b == whitespace(c),
{
    c.is_whitespace()
}

/// How the standard library writes a string for debugging: in double
/// quotes, with quotes, backslashes and unprintable characters escaped.
pub uninterp spec fn debug_text(s: Seq<char>) -> Seq<char>;

/// The `Debug` formatting of a string by the standard library. The contract
/// names its result and says nothing else of it.
#[verifier::external_body]
pub(crate) fn debug_string(s: &str) -> (r: String)
    ensures
        r@ == debug_text(s@),
{
    format!("{:?}", s)
}

/// The text that `chars` spell.
pub fn text_of(chars: &Vec<char>) -> (s: String)
    ensures
        s@ == chars@,
{
    let mut s = String::new();
    let mut i: usize = 0;
    while i < chars.len()
        invariant
            i <= chars.len(),
            s@ == chars@.take(i as int),
        decreases chars.len() - i,
    {
        push_char(&mut s, chars[i]);
        i += 1;
        assert(s@ =~= chars@.take(i as int));
    }
    assert(chars@.take(chars.len() as int) =~= chars@);
    s
}

fn digit(d: usize) -> (c: char)
    requires
        d < 10,
    ensures
        c == digit_char(d as nat),
{
    if d == 0 {
        '0'
    } else if d == 1 {
        '1'
    } else if d == 2 {
        '2'
    } else if d == 3 {
        '3'
    } else if d == 4 {
        '4'
    } else if d == 5 {
        '5'
    } else if d == 6 {
        '6'
    } else if d == 7 {
        '7'
    } else if d == 8 {
        '8'
    } else {
        '9'
    }
}

/// Appends the decimal numeral of `n` to `s`.
pub fn push_nat(s: &mut String, n: usize)
    ensures
        final(s)@ == old(s)@ + nat_text(n as nat),
    decreases n,
{
    if n < 10 {
        push_char(s, digit(n));
        assert(s@ =~= old(s)@ + nat_text(n as nat));
    } else {
        push_nat(s, n / 10);
        push_char(s, digit(n % 10));
        assert(s@ =~= old(s)@ + nat_text(n as nat));
    }
}

/// The decimal numeral of `n`.
pub fn nat_to_text(n: usize) -> (s: String)
    ensures
        s@ == nat_text(n as nat),
{
    let mut s = String::new();
    push_nat(&mut s, n);
    assert(s@ =~= nat_text(n as nat));
    s
}

/// The decimal numeral of `i`.
pub fn int_to_text(i: i32) -> (s: String)
    ensures
        s@ == int_text(i as int),
{
    let mut s = String::new();
    if i < 0 {
        push_char(&mut s, '-');
        // The magnitude of `i32::MIN` does not fit in `i32`, so widen first.
        let wide: i64 = i as i64;
        let magnitude: usize = (-wide) as usize;
        push_nat(&mut s, magnitude);
        assert(s@ =~= int_text(i as int));
    } else {
        push_nat(&mut s, i as usize);
        assert(s@ =~= int_text(i as int));
    }
    s
}

/// The characters of `s`, in order.
pub fn chars_of(s: &str) -> (v: Vec<char>)
    ensures
        v@ == s@,
{
    broadcast use vstd::string::group_string_axioms;

    let mut rest = s.chars();
    let mut v: Vec<char> = Vec::new();
    loop
        invariant
            v@ + rest.remaining() == s@,
            rest.obeys_prophetic_iter_laws(),
            rest.decrease() is Some,
        decreases rest.decrease()->0,
    {
        let ghost before = rest.remaining();
        match rest.next() {
            Some(c) => {
                v.push(c);
                assert(v@ + rest.remaining() =~= s@);
            },
            None => {
                assert(before.len() == 0);
                assert(v@ =~= s@);
                return v;
            },
        }
    }
}

/// Appends `line` to the buffer.
pub fn push_line(buffer: &mut Vec<String>, line: String)
    ensures
        lines(final(buffer)@) == lines(old(buffer)@).push(line@),
{
    buffer.push(line);
    assert(lines(buffer@) =~= lines(old(buffer)@).push(line@));
}

/// Moves every line of `source` to the end of `buffer`, in order.
pub fn append_lines(buffer: &mut Vec<String>, source: &mut Vec<String>)
    ensures
        lines(final(buffer)@) == lines(old(buffer)@) + lines(old(source)@),
        lines(final(source)@) == Seq::<Seq<char>>::empty(),
{
    buffer.append(source);
    assert(lines(buffer@) =~= lines(old(buffer)@) + lines(old(source)@));
    assert(lines(source@) =~= Seq::<Seq<char>>::empty());
}

/// `a` followed by `b`.
pub fn join2(a: &str, b: &str) -> (s: String)
    ensures
        s@ == a@ + b@,
{
    let mut s = a.to_owned();
    s.append(b);
    s
}

} // verus!
