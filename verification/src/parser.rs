//! The command parser: splits a raw command text on runs of whitespace into
//! a verb and its arguments.
//!
//! A token is a maximal run of characters that are not whitespace. The first
//! token of a text is its verb, the tokens after it are its arguments, in the
//! order in which they stand in the text and in the case in which they were
//! written. A text without a token (empty, or whitespace only) has the empty
//! verb and no arguments.

use crate::chars::{is_space, is_space_char};
use crate::text::{chars_of, string_of};
use vstd::prelude::*;

verus! {

/// The length of the longest prefix of `s` that holds no whitespace.
pub open spec fn word_len(s: Seq<char>) -> nat
    decreases s.len(),
{
    if s.len() == 0 || is_space(s[0]) {
        0
    } else {
        1 + word_len(s.skip(1))
    }
}

/// The tokens of `s`: its maximal runs of non-whitespace characters, from left
/// to right.
pub open spec fn tokens(s: Seq<char>) -> Seq<Seq<char>>
    decreases s.len(),
    via tokens_decreases
{
    if s.len() == 0 {
        Seq::empty()
    } else if is_space(s[0]) {
        tokens(s.skip(1))
    } else {
        seq![s.take(word_len(s) as int)] + tokens(s.skip(word_len(s) as int))
    }
}

#[via_fn]
proof fn tokens_decreases(s: Seq<char>) {
    lemma_word_len_bounds(s);
}

/// The verb of `s`: its first token, or the empty text where it has none.
pub open spec fn verb_of(s: Seq<char>) -> Seq<char> {
    if tokens(s).len() > 0 {
        tokens(s)[0]
    } else {
        Seq::empty()
    }
}

/// The arguments of `s`: its tokens after the first.
pub open spec fn arguments_of(s: Seq<char>) -> Seq<Seq<char>> {
    if tokens(s).len() > 0 {
        tokens(s).skip(1)
    } else {
        Seq::empty()
    }
}

/// Whether `s` holds nothing but whitespace.
pub open spec fn is_blank(s: Seq<char>) -> bool {
    forall|i: int| 0 <= i < s.len() ==> is_space(#[trigger] s[i])
}

/// Whether `s` is a word: not empty, and without whitespace.
pub open spec fn is_word(s: Seq<char>) -> bool {
    s.len() > 0 && forall|i: int| 0 <= i < s.len() ==> !is_space(#[trigger] s[i])
}

/// The first word of a text ends within the text, and is not empty where the
/// text begins with a character that is no whitespace.
pub proof fn lemma_word_len_bounds(s: Seq<char>)
    ensures
        word_len(s) <= s.len(),
        s.len() > 0 && !is_space(s[0]) ==> word_len(s) >= 1,
    decreases s.len(),
{
    if s.len() > 0 && !is_space(s[0]) {
        lemma_word_len_bounds(s.skip(1));
    }
}

/// A run of `n` characters without whitespace that ends at the end of the text
/// or before a whitespace character is the first word of the text.
pub proof fn lemma_word_len_of_run(s: Seq<char>, n: nat)
    requires
        n <= s.len(),
        forall|i: int| 0 <= i < n ==> !is_space(#[trigger] s[i]),
        n == s.len() || is_space(s[n as int]),
    ensures
        word_len(s) == n,
    decreases n,
{
    if n > 0 {
        let rest = s.skip(1);
        lemma_word_len_of_run(rest, (n - 1) as nat);
    }
}

/// The first word of a text holds no whitespace, and what follows it, if
/// anything, is a whitespace character.
pub proof fn lemma_word_len_is_run(s: Seq<char>)
    ensures
        forall|i: int| 0 <= i < word_len(s) ==> !is_space(#[trigger] s[i]),
        word_len(s) == s.len() || is_space(s[word_len(s) as int]),
    decreases s.len(),
{
    if s.len() > 0 && !is_space(s[0]) {
        let rest = s.skip(1);
        lemma_word_len_is_run(rest);
        lemma_word_len_bounds(rest);
        assert forall|i: int| 0 <= i < word_len(s) implies !is_space(#[trigger] s[i]) by {
            if i > 0 {
                assert(s[i] == rest[i - 1]);
            }
        }
    }
}

/// Every token is a word: it is not empty and holds no whitespace.
pub proof fn lemma_tokens_are_words(s: Seq<char>)
    ensures
        forall|k: int| 0 <= k < tokens(s).len() ==> is_word(#[trigger] tokens(s)[k]),
    decreases s.len(),
{
    if s.len() > 0 && is_space(s[0]) {
        lemma_tokens_are_words(s.skip(1));
        assert(tokens(s) == tokens(s.skip(1)));
    } else if s.len() > 0 {
        let n = word_len(s) as int;
        lemma_word_len_bounds(s);
        lemma_word_len_is_run(s);
        lemma_tokens_are_words(s.skip(n));
        let first = s.take(n);
        assert(is_word(first));
        assert forall|k: int| 0 <= k < tokens(s).len() implies is_word(
            #[trigger] tokens(s)[k],
        ) by {
            if k > 0 {
                assert(tokens(s)[k] == tokens(s.skip(n))[k - 1]);
            }
        }
    }
}

/// A text has no token exactly when it is blank. So the verb of an empty or
/// whitespace-only text is empty, and it has no arguments.
pub proof fn lemma_blank_has_no_tokens(s: Seq<char>)
    ensures
        is_blank(s) <==> tokens(s).len() == 0,
        is_blank(s) ==> verb_of(s) == Seq::<char>::empty() && arguments_of(s)
            == Seq::<Seq<char>>::empty(),
    decreases s.len(),
{
    if s.len() > 0 && is_space(s[0]) {
        let rest = s.skip(1);
        lemma_blank_has_no_tokens(rest);
        if is_blank(rest) {
            assert forall|i: int| 0 <= i < s.len() implies is_space(#[trigger] s[i]) by {
                if i > 0 {
                    assert(s[i] == rest[i - 1]);
                }
            }
        }
    }
}

/// A word is its own and only token.
pub proof fn lemma_tokens_of_word(s: Seq<char>)
    requires
        is_word(s),
    ensures
        tokens(s) == seq![s],
        verb_of(s) == s,
        arguments_of(s) == Seq::<Seq<char>>::empty(),
{
    lemma_word_len_of_run(s, s.len());
    assert(s.take(s.len() as int) == s);
    assert(tokens(s.skip(s.len() as int)) == Seq::<Seq<char>>::empty());
}

/// Tokens never reach across whitespace: the tokens of two texts that are
/// joined by a whitespace character are the tokens of the first followed by
/// the tokens of the second.
pub proof fn lemma_tokens_split_at_space(a: Seq<char>, c: char, b: Seq<char>)
    requires
        is_space(c),
    ensures
        tokens(a + seq![c] + b) == tokens(a) + tokens(b),
    decreases a.len(),
{
    let s = a + seq![c] + b;
    if a.len() == 0 {
        assert(s.skip(1) == b);
    } else if is_space(a[0]) {
        assert(s.skip(1) == a.skip(1) + seq![c] + b);
        lemma_tokens_split_at_space(a.skip(1), c, b);
    } else {
        let n = word_len(a);
        lemma_word_len_bounds(a);
        lemma_word_len_is_run(a);
        assert(is_space(s[n as int]));
        lemma_word_len_of_run(s, n);
        assert(s.take(n as int) == a.take(n as int));
        assert(s.skip(n as int) == a.skip(n as int) + seq![c] + b);
        lemma_tokens_split_at_space(a.skip(n as int), c, b);
        assert(seq![a.take(n as int)] + (tokens(a.skip(n as int)) + tokens(b)) == (seq![
            a.take(n as int),
        ] + tokens(a.skip(n as int))) + tokens(b));
    }
}

/// A command text taken apart: the verb and the arguments, each as it was
/// written.
#[derive(Debug, Clone, PartialEq, Eq)]
pub struct ParsedCommand {
    /// The first token, or the empty string where the text had none.
    pub verb: String,
    /// The tokens after the verb, in order.
    pub arguments: Vec<String>,
}

/// What a [`ParsedCommand`] stands for.
pub struct Parsed {
    pub verb: Seq<char>,
    pub arguments: Seq<Seq<char>>,
}

impl View for ParsedCommand {
    type V = Parsed;

    open spec fn view(&self) -> Parsed {
        Parsed { verb: self.verb@, arguments: self.arguments.deep_view() }
    }
}

/// The parse of `s`.
pub open spec fn parsed(s: Seq<char>) -> Parsed {
    Parsed { verb: verb_of(s), arguments: arguments_of(s) }
}

/// Splits `raw` into its tokens.
pub fn tokenize(raw: &str) -> (out: Vec<String>)
    ensures
        out.deep_view() == tokens(raw@),
{
    let chars = chars_of(raw);
    let n = chars.len();
    let mut out: Vec<String> = Vec::new();
    let mut i: usize = 0;
    assert(chars@.skip(0) == chars@);
    while i < n
        invariant
            n == chars.len(),
            i <= n,
            out.deep_view() + tokens(chars@.skip(i as int)) == tokens(chars@),
        decreases n - i,
    {
        let ghost rest = chars@.skip(i as int);
        if is_space_char(chars[i]) {
            assert(rest.skip(1) == chars@.skip(i + 1));
            i += 1;
        } else {
            let start = i;
            while i < n && !is_space_char(chars[i])
                invariant
                    n == chars.len(),
                    start <= i <= n,
                    forall|k: int| start <= k < i ==> !is_space(#[trigger] chars@[k]),
                decreases n - i,
            {
                i += 1;
            }
            let word = string_of(&chars, start, i);
            proof {
                let len = (i - start) as nat;
                lemma_word_len_of_run(rest, len);
                assert(rest.take(len as int) == chars@.subrange(start as int, i as int));
                assert(rest.skip(len as int) == chars@.skip(i as int));
                assert(out.deep_view().push(word@) + tokens(chars@.skip(i as int))
                    == out.deep_view() + (seq![word@] + tokens(chars@.skip(i as int))));
            }
            out.push(word);
        }
    }
    out
}

/// Parses `raw` into its verb and arguments. Every text parses: one without a
/// token gives the empty verb and no arguments.
pub fn parse(raw: &str) -> (command: ParsedCommand)
    ensures
        command@ == parsed(raw@),
{
    let mut words = tokenize(raw);
    if words.len() == 0 {
        assert(words.deep_view() =~= arguments_of(raw@));
        ParsedCommand { verb: String::new(), arguments: words }
    } else {
        let ghost all = words;
        let verb = words.remove(0);
        assert(words.deep_view() =~= all.deep_view().skip(1));
        ParsedCommand { verb, arguments: words }
    }
}

} // verus!
