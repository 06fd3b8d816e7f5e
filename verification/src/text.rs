//! Character-level text handling: Unicode whitespace, trimming, and editing a line of input.

use vstd::prelude::*;

verus! {

/// The characters that carry the Unicode `White_Space` property.
pub open spec fn is_whitespace(c: char) -> bool {
    let n: u32 = c as u32;
    ||| 0x09 <= n <= 0x0d
    ||| n == 0x20
    ||| n == 0x85
    ||| n == 0xa0
    ||| n == 0x1680
    ||| 0x2000 <= n <= 0x200a
    ||| n == 0x2028
    ||| n == 0x2029
    ||| n == 0x202f
    ||| n == 0x205f
    ||| n == 0x3000
}

/// `s` without its leading whitespace.
pub open spec fn trim_start(s: Seq<char>) -> Seq<char>
    decreases s.len(),
{
    if s.len() > 0 && is_whitespace(s[0]) {
        trim_start(s.drop_first())
    } else {
        s
    }
}

/// `s` without its trailing whitespace.
pub open spec fn trim_end(s: Seq<char>) -> Seq<char>
    decreases s.len(),
{
    if s.len() > 0 && is_whitespace(s.last()) {
        trim_end(s.drop_last())
    } else {
        s
    }
}

/// `s` without leading and trailing whitespace.
pub open spec fn trim(s: Seq<char>) -> Seq<char> {
    trim_end(trim_start(s))
}

/// Whether `c` is Unicode whitespace.
pub fn char_is_whitespace(c: char) -> (r: bool)
    ensures
        r == is_whitespace(c),
{
    let n: u32 = c as u32;
    (0x09 <= n && n <= 0x0d) || n == 0x20 || n == 0x85 || n == 0xa0 || n == 0x1680 || (0x2000
        <= n && n <= 0x200a) || n == 0x2028 || n == 0x2029 || n == 0x202f || n == 0x205f || n
        == 0x3000
}

/// A copy of `s` with leading and trailing Unicode whitespace removed.
pub fn trimmed(s: &str) -> (r: String)
    ensures
        r@ == trim(s@),
{
    let n: usize = s.unicode_len();
    let ghost whole = s@;
    let mut start: usize = 0;
    assert(whole.subrange(0, n as int) =~= whole);
    while start < n && char_is_whitespace(s.get_char(start))
        invariant
            n == whole.len(),
            whole == s@,
            start <= n,
            trim_start(whole) == trim_start(whole.subrange(start as int, n as int)),
        decreases n - start,
    {
        assert(whole.subrange(start as int, n as int).drop_first() =~= whole.subrange(
            start + 1,
            n as int,
        ));
        start = start + 1;
    }
    assert(trim_start(whole) == whole.subrange(start as int, n as int));
    let mut end: usize = n;
    while end > start && char_is_whitespace(s.get_char(end - 1))
        invariant
            n == whole.len(),
            whole == s@,
            start <= end <= n,
            trim(whole) == trim_end(whole.subrange(start as int, end as int)),
        decreases end - start,
    {
        assert(whole.subrange(start as int, end as int).drop_last() =~= whole.subrange(
            start as int,
            end - 1,
        ));
        end = end - 1;
    }
    let piece = s.substring_char(start, end);
    String::from_str(piece)
}

/// Whether `s` holds nothing but Unicode whitespace.
pub fn is_blank(s: &str) -> (r: bool)
    ensures
        r == (trim(s@).len() == 0),
{
    let t = trimmed(s);
    t.as_str().unicode_len() == 0
}

/// Calls `String::push`, which appends `c` to the end of `s`.
#[verifier::external_body]
pub(crate) fn push_char(s: &mut String, c: char)
    ensures
        final(s)@ == old(s)@.push(c),
{
    s.push(c)
}

/// Calls `String::pop`, which removes the last character of `s` and returns it, or returns
/// `None` and leaves `s` alone when it is empty.
#[verifier::external_body]
pub(crate) fn pop_char(s: &mut String) -> (r: Option<char>)
    ensures
        old(s)@.len() == 0 ==> r == None::<char> && final(s)@ == old(s)@,
        old(s)@.len() > 0 ==> r == Some(old(s)@.last()) && final(s)@ == old(s)@.drop_last(),
{
    s.pop()
}

} // verus!
