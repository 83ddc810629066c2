//! The dispatch rules: which verbs the terminal knows, and in which order
//! they are tried.
//!
//! Each rule has a keyword. The rule for the games matches every verb that
//! begins with its keyword; each other rule matches the verb that is its
//! keyword. Verbs are matched in lower case. The rules are tried in a fixed
//! order and the first that matches decides; a verb that no rule matches is
//! answered by the default.

use crate::text::{begins_with, chars_of, spells};
use vstd::prelude::*;

verus! {

/// A dispatch rule.
#[derive(Debug, Clone, Copy, PartialEq, Eq, Structural)]
pub enum Rule {
    Welcome,
    Help,
    Games,
    Projects,
    History,
}

/// How many rules there are.
pub const RULE_COUNT: usize = 5;

/// The rules in the order in which they are tried.
pub const RULES: [Rule; 5] = [
    Rule::Welcome,
    Rule::Help,
    Rule::Games,
    Rule::Projects,
    Rule::History,
];

/// The order of the rules, as a sequence.
pub open spec fn rule_order() -> Seq<Rule> {
    RULES@
}

impl Rule {
    /// The keyword of this rule.
    pub open spec fn keyword(self) -> Seq<char> {
        match self {
            Rule::Welcome => "welcome"@,
            Rule::Help => "help"@,
            Rule::Games => "games"@,
            Rule::Projects => "projects"@,
            Rule::History => "history"@,
        }
    }

    /// Whether this rule asks only that the verb begins with the keyword.
    pub open spec fn by_prefix(self) -> bool {
        self == Rule::Games
    }

    /// Whether this rule matches the lower-case verb `verb`.
    pub open spec fn matches(self, verb: Seq<char>) -> bool {
        if self.by_prefix() {
            self.keyword().is_prefix_of(verb)
        } else {
            verb == self.keyword()
        }
    }

    /// The keyword of this rule.
    pub fn word(self) -> (word: &'static str)
        ensures
            word@ == self.keyword(),
    {
        match self {
            Rule::Welcome => "welcome",
            Rule::Help => "help",
            Rule::Games => "games",
            Rule::Projects => "projects",
            Rule::History => "history",
        }
    }

    /// Decides whether this rule matches the lower-case verb `verb`.
    pub fn applies(self, verb: &Vec<char>) -> (b: bool)
        ensures
            b == self.matches(verb@),
    {
        match self {
            Rule::Games => begins_with(verb, self.word()),
            _ => spells(verb, self.word()),
        }
    }
}

/// The first rule at position `from` or later that matches `verb`, if any.
pub open spec fn first_match_from(verb: Seq<char>, from: int) -> Option<Rule>
    decreases rule_order().len() - from,
{
    if from < 0 || from >= rule_order().len() {
        None
    } else if rule_order()[from].matches(verb) {
        Some(rule_order()[from])
    } else {
        first_match_from(verb, from + 1)
    }
}

/// The rule that decides for the lower-case verb `verb`: the first in the
/// order that matches it, if any does.
pub open spec fn first_match(verb: Seq<char>) -> Option<Rule> {
    first_match_from(verb, 0)
}

/// Finds the rule that decides for the lower-case verb `verb`.
pub fn first_matching_rule(verb: &str) -> (found: Option<Rule>)
    ensures
        found == first_match(verb@),
{
    let chars = chars_of(verb);
    let mut i: usize = 0;
    while i < RULE_COUNT
        invariant
            i <= RULE_COUNT,
            chars@ == verb@,
            rule_order().len() == RULE_COUNT,
            first_match(verb@) == first_match_from(verb@, i as int),
        decreases RULE_COUNT - i,
    {
        let rule = RULES[i];
        if rule.applies(&chars) {
            return Some(rule);
        }
        i += 1;
    }
    None
}

/// What the keywords are made of, as far as telling them apart needs it: the
/// length of each, and the letters in which they differ.
pub proof fn lemma_keywords()
    ensures
        Rule::Welcome.keyword().len() == 7 && Rule::Welcome.keyword()[0] == 'w',
        Rule::Help.keyword().len() == 4 && Rule::Help.keyword()[0] == 'h',
        Rule::Games.keyword().len() == 5 && Rule::Games.keyword()[0] == 'g',
        Rule::Projects.keyword().len() == 8 && Rule::Projects.keyword()[0] == 'p',
        Rule::History.keyword().len() == 7 && Rule::History.keyword()[0] == 'h',
{
    reveal_strlit("welcome");
    reveal_strlit("help");
    reveal_strlit("games");
    reveal_strlit("projects");
    reveal_strlit("history");
}

/// The first match is the first: the rule that decides matches the verb and
/// no rule before it in the order does; where no rule decides, none matches.
pub proof fn lemma_first_match_is_first(verb: Seq<char>)
    ensures
        match first_match(verb) {
            Some(rule) => exists|i: int|
                0 <= i < rule_order().len() && #[trigger] rule_order()[i] == rule && rule.matches(
                    verb,
                ) && forall|j: int| 0 <= j < i ==> !(#[trigger] rule_order()[j]).matches(verb),
            None => forall|j: int|
                0 <= j < rule_order().len() ==> !(#[trigger] rule_order()[j]).matches(verb),
        },
{
    lemma_first_match_from(verb, 0);
}

/// The same, for the search that starts at position `from`.
proof fn lemma_first_match_from(verb: Seq<char>, from: int)
    requires
        0 <= from <= rule_order().len(),
    ensures
        match first_match_from(verb, from) {
            Some(rule) => exists|i: int|
                from <= i < rule_order().len() && #[trigger] rule_order()[i] == rule
                    && rule.matches(verb) && forall|j: int|
                    from <= j < i ==> !(#[trigger] rule_order()[j]).matches(verb),
            None => forall|j: int|
                from <= j < rule_order().len() ==> !(#[trigger] rule_order()[j]).matches(verb),
        },
    decreases rule_order().len() - from,
{
    if from < rule_order().len() && !rule_order()[from].matches(verb) {
        lemma_first_match_from(verb, from + 1);
    }
}

/// No verb is matched by two rules. So the rule that decides is the only one
/// that matches, and the order of the rules never shows in an answer.
pub proof fn lemma_rules_are_exclusive(verb: Seq<char>, one: Rule, other: Rule)
    requires
        one.matches(verb),
        other.matches(verb),
    ensures
        one == other,
        first_match(verb) == Some(one),
{
    lemma_keywords();
    lemma_first_match_is_first(verb);
}

} // verus!
