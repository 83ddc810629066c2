//! Text primitives: walking a string slice character by character, comparing
//! slices, and lower-casing.
//!
//! Everything here speaks of a string through its view, the sequence of its
//! characters.

use vstd::prelude::*;
use vstd::string::axiom_spec_iter;

verus! {

/// The lower-case form of a text, as `str::to_lowercase` computes it from the
/// Unicode case tables. It depends on the characters of the text alone.
pub uninterp spec fn lowercase_of(s: Seq<char>) -> Seq<char>;

/// Lower-cases `s` with `str::to_lowercase` of the standard library.
///
/// Not proved: that the returned string is `lowercase_of` of the input. The
/// claim is only that the call is a function of the characters of `s`, which
/// gives its result a name that contracts can speak of.
#[verifier::external_body]
pub(crate) fn lowercase(s: &str) -> (lowered: String)
    ensures
        lowered@ == lowercase_of(s@),
{
    s.to_lowercase()
}

/// Appends `c` to `s` with `String::push` of the standard library.
///
/// Not proved: that afterwards the string holds its former characters followed
/// by `c`.
#[verifier::external_body]
pub(crate) fn push_char(s: &mut String, c: char)
    ensures
        final(s)@ == old(s)@.push(c),
{
    s.push(c)
}

/// The characters of `s`, in order.
pub fn chars_of(s: &str) -> (v: Vec<char>)
    ensures
        v@ == s@,
{
    broadcast use axiom_spec_iter;

    let mut v: Vec<char> = Vec::new();
    for c in it: s.chars()
        invariant
            it.seq() == s@,
            v@ == it.seq().take(it.index()),
    {
        v.push(c);
    }
    v
}

/// The string that holds `chars[from..to]`.
pub fn string_of(chars: &Vec<char>, from: usize, to: usize) -> (s: String)
    requires
        from <= to <= chars.len(),
    ensures
        s@ == chars@.subrange(from as int, to as int),
{
    let mut s = String::new();
    let mut i: usize = from;
    while i < to
        invariant
            from <= i <= to <= chars.len(),
            s@ == chars@.subrange(from as int, i as int),
        decreases to - i,
    {
        push_char(&mut s, chars[i]);
        i += 1;
    }
    s
}

/// Whether `chars` spells exactly `text`.
pub fn spells(chars: &Vec<char>, text: &str) -> (b: bool)
    ensures
        b == (chars@ == text@),
{
    broadcast use axiom_spec_iter;

    let mut same = true;
    let mut i: usize = 0;
    for c in it: text.chars()
        invariant
            it.seq() == text@,
            same ==> i == it.index() && i <= chars.len() && chars@.take(i as int)
                == text@.take(i as int),
            !same ==> chars@ != text@,
    {
        if same {
            if i < chars.len() && chars[i] == c {
                i += 1;
            } else {
                same = false;
            }
        }
    }
    proof {
        if same {
            assert(text@.take(i as int) == text@);
            if i == chars.len() {
                assert(chars@.take(i as int) == chars@);
            }
        }
    }
    same && i == chars.len()
}

/// Whether `chars` begins with `prefix`.
pub fn begins_with(chars: &Vec<char>, prefix: &str) -> (b: bool)
    ensures
        b == prefix@.is_prefix_of(chars@),
{
    broadcast use axiom_spec_iter;

    let mut same = true;
    let mut i: usize = 0;
    for c in it: prefix.chars()
        invariant
            it.seq() == prefix@,
            same ==> i == it.index() && i <= chars.len() && chars@.take(i as int)
                == prefix@.take(i as int),
            !same ==> !prefix@.is_prefix_of(chars@),
    {
        if same {
            if i < chars.len() && chars[i] == c {
                i += 1;
            } else {
                proof {
                    if prefix@.is_prefix_of(chars@) {
                        assert(chars@.subrange(0, prefix@.len() as int)[i as int]
                            == prefix@[i as int]);
                    }
                }
                same = false;
            }
        }
    }
    same
}

} // verus!
