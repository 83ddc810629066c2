//! The render dispatcher: maps a view directive to the fragment that shows
//! it, and the outcome of rendering to the reply that is sent.
//!
//! A fragment names a template and carries the parameters that the template
//! takes. The markup itself is produced elsewhere, by a template engine; this
//! module decides what is handed to it and what becomes of its answer:
//! rendered markup goes out unchanged, as markup; a failure to render is
//! reported in plain words as a server error of its own, never turned into a
//! blank reply.

use crate::resolver::{Directive, ViewDirective};
use vstd::prelude::*;
use vstd::string::StringExecFns;

verus! {

/// The status of a reply that carries rendered markup.
pub const STATUS_OK: u16 = 200;

/// The status of a reply that reports a failure to render.
pub const STATUS_INTERNAL_SERVER_ERROR: u16 = 500;

/// A unit of output for the terminal: a template, with its parameters.
///
/// `init` says whether the fragment is rendered for the first load of the
/// page; fragments that answer a command are rendered into a page that is
/// already set up, and carry `false`.
#[derive(Debug, Clone, PartialEq, Eq)]
pub enum Fragment {
    /// The terminal page itself.
    Terminal { init: bool, modal: bool, game: Option<u32> },
    /// The welcome menu.
    Welcome { init: bool },
    /// The help menu.
    Help { init: bool },
    /// The menu of the games.
    GameMenu { init: bool },
    /// The projects menu.
    Projects { init: bool },
    /// A blank terminal line.
    TermLine { init: bool },
    /// The modal of a game.
    Modal { init: bool, game: Option<u32> },
    /// The listing of the command history, oldest entry first.
    History { init: bool, commands: Vec<String> },
}

/// What a [`Fragment`] stands for: the same template and parameters, with the
/// history entries as sequences of characters.
pub enum FragmentView {
    Terminal { init: bool, modal: bool, game: Option<u32> },
    Welcome { init: bool },
    Help { init: bool },
    GameMenu { init: bool },
    Projects { init: bool },
    TermLine { init: bool },
    Modal { init: bool, game: Option<u32> },
    History { init: bool, commands: Seq<Seq<char>> },
}

impl View for Fragment {
    type V = FragmentView;

    open spec fn view(&self) -> FragmentView {
        match self {
            Fragment::Terminal { init, modal, game } => FragmentView::Terminal {
                init: *init,
                modal: *modal,
                game: *game,
            },
            Fragment::Welcome { init } => FragmentView::Welcome { init: *init },
            Fragment::Help { init } => FragmentView::Help { init: *init },
            Fragment::GameMenu { init } => FragmentView::GameMenu { init: *init },
            Fragment::Projects { init } => FragmentView::Projects { init: *init },
            Fragment::TermLine { init } => FragmentView::TermLine { init: *init },
            Fragment::Modal { init, game } => FragmentView::Modal { init: *init, game: *game },
            Fragment::History { init, commands } => FragmentView::History {
                init: *init,
                commands: commands.deep_view(),
            },
        }
    }
}

impl FragmentView {
    /// The path of the template that renders this fragment.
    pub open spec fn template_path(self) -> Seq<char> {
        match self {
            FragmentView::Terminal { .. } => "pages/terminal.html"@,
            FragmentView::Welcome { .. } => "menus/welcome.html"@,
            FragmentView::Help { .. } => "menus/help.html"@,
            FragmentView::GameMenu { .. } => "menus/game.html"@,
            FragmentView::Projects { .. } => "menus/projects.html"@,
            FragmentView::TermLine { .. } => "components/term-line.html"@,
            FragmentView::Modal { .. } => "components/modal.html"@,
            FragmentView::History { .. } => "components/history.html"@,
        }
    }
}

impl Fragment {
    /// The path of the template that renders this fragment.
    pub fn template_path(&self) -> (path: &'static str)
        ensures
            path@ == self@.template_path(),
    {
        match self {
            Fragment::Terminal { .. } => "pages/terminal.html",
            Fragment::Welcome { .. } => "menus/welcome.html",
            Fragment::Help { .. } => "menus/help.html",
            Fragment::GameMenu { .. } => "menus/game.html",
            Fragment::Projects { .. } => "menus/projects.html",
            Fragment::TermLine { .. } => "components/term-line.html",
            Fragment::Modal { .. } => "components/modal.html",
            Fragment::History { .. } => "components/history.html",
        }
    }
}

/// The fragment that shows `directive`.
pub open spec fn fragment_for(directive: Directive) -> FragmentView {
    match directive {
        Directive::ShowWelcome => FragmentView::Welcome { init: false },
        Directive::ShowHelp => FragmentView::Help { init: false },
        Directive::ShowGameMenu => FragmentView::GameMenu { init: false },
        Directive::ShowGameModal(game) => FragmentView::Modal { init: false, game: Some(game) },
        Directive::ShowProjects => FragmentView::Projects { init: false },
        Directive::ShowHistory(entries) => FragmentView::History { init: false, commands: entries },
        Directive::ShowBlankLine => FragmentView::TermLine { init: false },
    }
}

/// The terminal page as it is first loaded: set up anew, with no modal open
/// and no game chosen.
pub open spec fn first_page() -> FragmentView {
    FragmentView::Terminal { init: true, modal: false, game: None }
}

/// Maps a directive to the fragment that shows it.
pub fn render(directive: ViewDirective) -> (fragment: Fragment)
    ensures
        fragment@ == fragment_for(directive@),
{
    match directive {
        ViewDirective::ShowWelcome => Fragment::Welcome { init: false },
        ViewDirective::ShowHelp => Fragment::Help { init: false },
        ViewDirective::ShowGameMenu => Fragment::GameMenu { init: false },
        ViewDirective::ShowGameModal(game) => Fragment::Modal { init: false, game: Some(game) },
        ViewDirective::ShowProjects => Fragment::Projects { init: false },
        ViewDirective::ShowHistory(entries) => Fragment::History { init: false, commands: entries },
        ViewDirective::ShowBlankLine => Fragment::TermLine { init: false },
    }
}

/// The fragment of the terminal page as it is first loaded.
pub fn terminal_page() -> (fragment: Fragment)
    ensures
        fragment@ == first_page(),
{
    Fragment::Terminal { init: true, modal: false, game: None }
}

/// Why a fragment could not be rendered, in the words of the template engine.
#[derive(Debug, Clone, PartialEq, Eq)]
pub struct RenderError {
    pub message: String,
}

/// What kind of text the body of a reply is.
#[derive(Debug, Clone, Copy, PartialEq, Eq, Structural)]
pub enum BodyKind {
    /// Rendered markup, to be sent as HTML.
    Markup,
    /// A message in plain words.
    PlainText,
}

/// What is sent back for a request: a status, and a body with its kind.
#[derive(Debug, Clone, PartialEq, Eq)]
pub struct Reply {
    pub status: u16,
    pub kind: BodyKind,
    pub body: String,
}

impl Reply {
    /// Whether the body is rendered markup, to be sent as HTML.
    pub fn is_markup(&self) -> (b: bool)
        ensures
            b == (self.kind == BodyKind::Markup),
    {
        match self.kind {
            BodyKind::Markup => true,
            BodyKind::PlainText => false,
        }
    }
}

/// The body of the reply that reports the render failure `message`.
pub open spec fn failure_text(message: Seq<char>) -> Seq<char> {
    "Failed to render tempalte. Error: "@ + message
}

/// Turns the outcome of rendering into the reply: the markup as it is, marked
/// as markup, with the status for success; or the failure in plain words, with
/// the status for a server error. The body of a reply is markup exactly when
/// rendering succeeded.
pub fn reply_for(outcome: Result<String, RenderError>) -> (reply: Reply)
    ensures
        match outcome {
            Ok(markup) => reply.status == STATUS_OK && reply.kind == BodyKind::Markup
                && reply.body@ == markup@,
            Err(error) => reply.status == STATUS_INTERNAL_SERVER_ERROR && reply.kind
                == BodyKind::PlainText && reply.body@ == failure_text(error.message@),
        },
        (reply.kind == BodyKind::Markup) == outcome.is_ok(),
{
    match outcome {
        Ok(markup) => Reply { status: STATUS_OK, kind: BodyKind::Markup, body: markup },
        Err(error) => {
            let body = String::from_str("Failed to render tempalte. Error: ").concat(
                error.message.as_str(),
            );
            Reply { status: STATUS_INTERNAL_SERVER_ERROR, kind: BodyKind::PlainText, body }
        },
    }
}

} // verus!
