use vstd::prelude::*;
use vstd::string::{StrSliceExecFns, StringExecFns};

verus! {

/// The characters of `s`, in order.
pub(crate) fn chars_of(s: &str) -> (r: Vec<char>)
    ensures
        r@ == s@,
{
    broadcast use vstd::string::group_string_axioms;

    let mut r: Vec<char> = Vec::new();
    for c in it: s.chars()
        invariant
            r@ == it.seq().subrange(0, it.index() as int),
    {
        r.push(c);
    }
    r
}

/// `w` is the first word of `s`: the longest prefix of `s` without a space.
pub open spec fn is_first_word(s: Seq<char>, w: Seq<char>) -> bool {
    &&& w.len() <= s.len()
    &&& w == s.subrange(0, w.len() as int)
    &&& !w.contains(' ')
    &&& (w.len() == s.len() || s[w.len() as int] == ' ')
}

/// The part of `s` before its first space, or all of `s` if it has none.
pub fn first_word(s: &str) -> (r: &str)
    ensures
        is_first_word(s@, r@),
{
    let cs = chars_of(s);
    let mut i: usize = 0;
    while i < cs.len() && cs[i] != ' '
        invariant
            i <= cs@.len(),
            cs@ == s@,
            forall|j: int| 0 <= j < i ==> cs@[j] != ' ',
        decreases cs@.len() - i,
    {
        i = i + 1;
    }
    let r = s.substring_char(0, i);
    assert(!r@.contains(' ')) by {
        assert(forall|j: int| 0 <= j < r@.len() ==> r@[j] == cs@[j]);
    }
    r
}

/// Appends " + " and then `s2` to `s1`, and returns a copy of the result.
pub fn concat_string(s1: &mut String, s2: String) -> (r: String)
    ensures
        final(s1)@ == old(s1)@ + " + "@ + s2@,
        r@ == final(s1)@,
{
    s1.append(" + ");
    s1.append(s2.as_str());
    s1.clone()
}

/// `s` followed by " World".
pub fn modify_string(s: String) -> (r: String)
    ensures
        r@ == s@ + " World"@,
{
    let mut s = s;
    s.append(" World");
    s
}

/// Appends `s2` to `s` and returns the whole of `s`.
pub fn append_word<'a>(s: &'a mut String, s2: &'a str) -> (r: &'a str)
    ensures
        final(s)@ == old(s)@ + s2@,
        r@ == final(s)@,
{
    s.append(s2);
    s.as_str()
}

/// `c` in upper case if it is an ASCII lower-case letter, else `c` itself.
pub open spec fn ascii_upper(c: char) -> char {
    if 'a' <= c && c <= 'z' {
        ((c as u8) - 32) as u8 as char
    } else {
        c
    }
}

/// Every character of `s` through `ascii_upper`.
pub open spec fn ascii_uppercase(s: Seq<char>) -> Seq<char> {
    s.map_values(|c: char| ascii_upper(c))
}

/// Relies on str::make_ascii_uppercase: in place, 'a' to 'z' become 'A' to
/// 'Z' and every other character stays as it is.
#[verifier::external_body]
fn make_ascii_uppercase(s: &mut String)
    ensures
        final(s)@ == ascii_uppercase(old(s)@),
{
    s.make_ascii_uppercase()
}

/// Turns the ASCII letters of `s` into upper case, in place.
pub fn upper_word(s: &mut String)
    ensures
        final(s)@ == ascii_uppercase(old(s)@),
{
    make_ascii_uppercase(s)
}

/// The length of `s` in bytes of UTF-8.
pub fn calculate_length(s: &String) -> (r: usize)
    ensures
        r == vstd::utf8::encode_utf8(s@).len() as usize,
{
    s.as_str().len()
}

/// Appends ", C++ Dev!" to `some_string`.
pub fn change(some_string: &mut String)
    ensures
        final(some_string)@ == old(some_string)@ + ", C++ Dev!"@,
{
    some_string.append(", C++ Dev!");
}

} // verus!
