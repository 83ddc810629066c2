//! The view resolver: decides which view answers a command.
//!
//! The decision looks at the verb and at the first argument, both in lower
//! case, and takes the first of these rules that matches:
//!
//! - the verb is `welcome`: the welcome menu;
//! - the verb is `help`: the help menu;
//! - the verb begins with `games`: the modal of the game that the first
//!   argument selects, or the game menu where there is no argument or the
//!   argument selects no game;
//! - the verb is `projects`: the projects menu;
//! - the verb is `history`: the listing of the history log;
//! - anything else, the empty verb included: a blank line.
//!
//! The games rule is a prefix rule on the verb, so `gamesxyz` opens the game
//! menu just as `games` does. A game is selected by its name or by its id, as
//! the table of the games lists them; an argument that selects no game is
//! passed over in silence.
//!
//! A command without a verb, that is an empty or blank text, is answered with
//! the blank line outright, before anything is lower-cased.
//!
//! Every command text is appended to the history log before the decision is
//! made, whether or not a rule knows its verb, so the listing of the history
//! ends with the `history` command that asked for it.

use crate::games::{game_for, select_game};
use crate::history::HistoryLog;
use crate::parser::{is_blank, lemma_blank_has_no_tokens, parse, parsed, Parsed, ParsedCommand};
use crate::rules::{
    first_match, first_matching_rule, lemma_first_match_is_first, lemma_rules_are_exclusive, Rule,
};
use crate::text::{lowercase, lowercase_of};
use vstd::prelude::*;

verus! {

/// Which view answers a command, with what that view needs.
#[derive(Debug, Clone, PartialEq, Eq)]
pub enum ViewDirective {
    /// The welcome menu.
    ShowWelcome,
    /// The help menu.
    ShowHelp,
    /// The menu of the games.
    ShowGameMenu,
    /// The modal of the game with this number.
    ShowGameModal(u32),
    /// The projects menu.
    ShowProjects,
    /// The listing of these history entries, oldest first.
    ShowHistory(Vec<String>),
    /// A blank terminal line: the answer to everything else.
    ShowBlankLine,
}

/// What a [`ViewDirective`] stands for: the same choice, with the history
/// entries as sequences of characters.
pub enum Directive {
    ShowWelcome,
    ShowHelp,
    ShowGameMenu,
    ShowGameModal(u32),
    ShowProjects,
    ShowHistory(Seq<Seq<char>>),
    ShowBlankLine,
}

impl View for ViewDirective {
    type V = Directive;

    open spec fn view(&self) -> Directive {
        match self {
            ViewDirective::ShowWelcome => Directive::ShowWelcome,
            ViewDirective::ShowHelp => Directive::ShowHelp,
            ViewDirective::ShowGameMenu => Directive::ShowGameMenu,
            ViewDirective::ShowGameModal(game) => Directive::ShowGameModal(*game),
            ViewDirective::ShowProjects => Directive::ShowProjects,
            ViewDirective::ShowHistory(entries) => Directive::ShowHistory(entries.deep_view()),
            ViewDirective::ShowBlankLine => Directive::ShowBlankLine,
        }
    }
}

/// The variant of a directive, without what it carries.
#[derive(Debug, Clone, Copy, PartialEq, Eq, Structural)]
pub enum ViewKind {
    Welcome,
    Help,
    GameMenu,
    GameModal,
    Projects,
    History,
    BlankLine,
}

impl Directive {
    /// The variant of this directive.
    pub open spec fn kind(self) -> ViewKind {
        match self {
            Directive::ShowWelcome => ViewKind::Welcome,
            Directive::ShowHelp => ViewKind::Help,
            Directive::ShowGameMenu => ViewKind::GameMenu,
            Directive::ShowGameModal(_) => ViewKind::GameModal,
            Directive::ShowProjects => ViewKind::Projects,
            Directive::ShowHistory(_) => ViewKind::History,
            Directive::ShowBlankLine => ViewKind::BlankLine,
        }
    }
}

impl ViewDirective {
    /// The variant of this directive.
    pub fn kind(&self) -> (kind: ViewKind)
        ensures
            kind == self@.kind(),
    {
        match self {
            ViewDirective::ShowWelcome => ViewKind::Welcome,
            ViewDirective::ShowHelp => ViewKind::Help,
            ViewDirective::ShowGameMenu => ViewKind::GameMenu,
            ViewDirective::ShowGameModal(_) => ViewKind::GameModal,
            ViewDirective::ShowProjects => ViewKind::Projects,
            ViewDirective::ShowHistory(_) => ViewKind::History,
            ViewDirective::ShowBlankLine => ViewKind::BlankLine,
        }
    }
}

/// The view that the rule `rule` gives, for the lower-case selector
/// `selector`, the first argument if there is one, with the history log `log`
/// at hand.
pub open spec fn rule_directive(
    rule: Rule,
    selector: Option<Seq<char>>,
    log: Seq<Seq<char>>,
) -> Directive {
    match rule {
        Rule::Welcome => Directive::ShowWelcome,
        Rule::Help => Directive::ShowHelp,
        Rule::Games => match selector {
            Some(token) => match game_for(token) {
                Some(game) => Directive::ShowGameModal(game),
                None => Directive::ShowGameMenu,
            },
            None => Directive::ShowGameMenu,
        },
        Rule::Projects => Directive::ShowProjects,
        Rule::History => Directive::ShowHistory(log),
    }
}

/// The view for the lower-case verb `verb` and the lower-case selector
/// `selector`: what the first rule that matches the verb gives, and a blank
/// line where no rule matches.
pub open spec fn directive_for(
    verb: Seq<char>,
    selector: Option<Seq<char>>,
    log: Seq<Seq<char>>,
) -> Directive {
    match first_match(verb) {
        Some(rule) => rule_directive(rule, selector, log),
        None => Directive::ShowBlankLine,
    }
}

/// The first argument of a parsed command in lower case, if it has one.
pub open spec fn selector_of(command: Parsed) -> Option<Seq<char>> {
    if command.arguments.len() > 0 {
        Some(lowercase_of(command.arguments[0]))
    } else {
        None
    }
}

/// The view for a parsed command with the history log `log` at hand. A
/// command without a verb gets the blank line. For any other, the verb and the
/// first argument are lower-cased, then the rules decide.
pub open spec fn routing(command: Parsed, log: Seq<Seq<char>>) -> Directive {
    if command.verb.len() == 0 {
        Directive::ShowBlankLine
    } else {
        directive_for(lowercase_of(command.verb), selector_of(command), log)
    }
}

/// The view for the command text `raw`, where `log` is the history log with
/// `raw` already appended.
pub open spec fn resolution(raw: Seq<char>, log: Seq<Seq<char>>) -> Directive {
    routing(parsed(raw), log)
}

/// Decides the view for a verb and a selector that are already in lower case.
/// The history log is read only where the verb asks for its listing.
pub fn select_view(verb: &str, selector: Option<&str>, history: &HistoryLog) -> (directive:
    ViewDirective)
    ensures
        directive@ == directive_for(
            verb@,
            match selector {
                Some(token) => Some(token@),
                None => None,
            },
            history@,
        ),
{
    match first_matching_rule(verb) {
        Some(Rule::Welcome) => ViewDirective::ShowWelcome,
        Some(Rule::Help) => ViewDirective::ShowHelp,
        Some(Rule::Games) => match selector {
            Some(token) => match select_game(token) {
                Some(game) => ViewDirective::ShowGameModal(game),
                None => ViewDirective::ShowGameMenu,
            },
            None => ViewDirective::ShowGameMenu,
        },
        Some(Rule::Projects) => ViewDirective::ShowProjects,
        Some(Rule::History) => ViewDirective::ShowHistory(history.snapshot()),
        None => ViewDirective::ShowBlankLine,
    }
}

/// Decides the view for a parsed command, with the history log as it stands.
/// Verb and first argument are matched without regard to case; a command
/// without a verb gets the blank line.
pub fn route(command: &ParsedCommand, history: &HistoryLog) -> (directive: ViewDirective)
    ensures
        directive@ == routing(command@, history@),
        command@.verb.len() == 0 ==> directive@ == Directive::ShowBlankLine,
{
    if command.verb.as_str().is_empty() {
        return ViewDirective::ShowBlankLine;
    }
    let verb = lowercase(command.verb.as_str());
    if command.arguments.len() > 0 {
        let selector = lowercase(command.arguments[0].as_str());
        select_view(verb.as_str(), Some(selector.as_str()), history)
    } else {
        select_view(verb.as_str(), None, history)
    }
}

/// Interprets one submitted command text: appends it, verbatim, to the history
/// log, and decides the view that answers it.
///
/// The log grows by exactly this one entry, for every text, known verb or not.
/// The decision is made on the log as it is after the append. An empty or
/// blank text is recorded like any other and answered with the blank line.
pub fn resolve(raw: &str, history: &mut HistoryLog) -> (directive: ViewDirective)
    ensures
        final(history)@ == old(history)@.push(raw@),
        directive@ == resolution(raw@, final(history)@),
        is_blank(raw@) ==> directive@ == Directive::ShowBlankLine,
{
    history.append(raw);
    let command = parse(raw);
    proof {
        lemma_blank_has_no_tokens(raw@);
    }
    route(&command, history)
}

/// An empty or blank command text resolves to the blank line, whatever the
/// history log holds.
pub proof fn lemma_blank_text_gives_blank_line(raw: Seq<char>, log: Seq<Seq<char>>)
    requires
        is_blank(raw),
    ensures
        resolution(raw, log) == Directive::ShowBlankLine,
        resolved_kind(raw) == ViewKind::BlankLine,
{
    lemma_blank_has_no_tokens(raw);
}

/// The variant of the view that answers `raw`. It depends on the text alone.
pub open spec fn resolved_kind(raw: Seq<char>) -> ViewKind {
    resolution(raw, Seq::empty()).kind()
}

/// Which variant answers a command text does not depend on the history log:
/// resolving the same text again, against any log, gives the same variant, and
/// any directive but a history listing is the same in whole. Only the entries
/// that a history listing carries follow the log.
pub proof fn lemma_resolution_ignores_log(
    raw: Seq<char>,
    first: Seq<Seq<char>>,
    second: Seq<Seq<char>>,
)
    ensures
        resolution(raw, first).kind() == resolution(raw, second).kind(),
        resolution(raw, first).kind() == resolved_kind(raw),
        resolution(raw, first).kind() != ViewKind::History ==> resolution(raw, first)
            == resolution(raw, second),
        resolution(raw, first).kind() == ViewKind::History ==> resolution(raw, first)
            == Directive::ShowHistory(first),
{
}

/// A command whose verb asks for the history is answered with the whole log,
/// the command itself as the last entry: after `resolve`, the listing is the
/// log as it was before, followed by the command text.
pub proof fn lemma_history_lists_itself(raw: Seq<char>, before: Seq<Seq<char>>)
    requires
        resolved_kind(raw) == ViewKind::History,
    ensures
        resolution(raw, before.push(raw)) == Directive::ShowHistory(before.push(raw)),
        before.push(raw).last() == raw,
        before.push(raw).len() == before.len() + 1,
{
}

/// Case does not show in an answer: two command texts that both have a verb,
/// whose verbs are the same in lower case, and whose first arguments are the
/// same in lower case or both missing, resolve to the same view against the
/// same log.
pub proof fn lemma_resolution_is_case_blind(
    one: Seq<char>,
    other: Seq<char>,
    log: Seq<Seq<char>>,
)
    requires
        parsed(one).verb.len() > 0,
        parsed(other).verb.len() > 0,
        lowercase_of(parsed(one).verb) == lowercase_of(parsed(other).verb),
        selector_of(parsed(one)) == selector_of(parsed(other)),
    ensures
        resolution(one, log) == resolution(other, log),
{
}

/// The games rule is a prefix rule: every lower-case verb that begins with
/// `games` is answered by the modal of the game that the selector stands for,
/// and by the game menu where there is no selector or it stands for no game.
/// No other verb is answered by either.
pub proof fn lemma_games_prefix_rule(
    verb: Seq<char>,
    selector: Option<Seq<char>>,
    log: Seq<Seq<char>>,
)
    ensures
        "games"@.is_prefix_of(verb) ==> directive_for(verb, selector, log) == (match selector {
            Some(token) => match game_for(token) {
                Some(game) => Directive::ShowGameModal(game),
                None => Directive::ShowGameMenu,
            },
            None => Directive::ShowGameMenu,
        }),
        !"games"@.is_prefix_of(verb) ==> directive_for(verb, selector, log).kind()
            != ViewKind::GameMenu && directive_for(verb, selector, log).kind()
            != ViewKind::GameModal,
{
    if Rule::Games.matches(verb) {
        lemma_rules_are_exclusive(verb, Rule::Games, Rule::Games);
    } else {
        lemma_first_match_is_first(verb);
    }
}

/// Each verb that is a keyword is answered by the view of its rule, and a
/// verb that no rule matches by a blank line.
pub proof fn lemma_directive_by_rule(
    verb: Seq<char>,
    selector: Option<Seq<char>>,
    log: Seq<Seq<char>>,
    rule: Rule,
)
    ensures
        rule.matches(verb) ==> directive_for(verb, selector, log) == rule_directive(
            rule,
            selector,
            log,
        ),
        first_match(verb).is_none() ==> directive_for(verb, selector, log)
            == Directive::ShowBlankLine,
{
    if rule.matches(verb) {
        lemma_rules_are_exclusive(verb, rule, rule);
    }
}

} // verus!
