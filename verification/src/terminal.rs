//! The terminal as its users see it: the page that opens it, and the one
//! operation that answers a submitted command.

use crate::history::HistoryLog;
use crate::parser::is_blank;
use crate::render::{first_page, fragment_for, render, terminal_page, Fragment, FragmentView};
use crate::resolver::{resolution, resolve};
use vstd::prelude::*;

verus! {

/// The fragment that opens the terminal.
pub fn open_terminal() -> (fragment: Fragment)
    ensures
        fragment@ == first_page(),
{
    terminal_page()
}

/// Answers one submitted command: records its text in the history log, decides
/// the view, and gives the fragment that shows it.
///
/// No text is refused. The log grows by exactly the submitted text, and the
/// fragment is the one for the view that the text resolves to against the log
/// as it is after that. An empty or blank text gets a blank terminal line.
pub fn submit_command(text: &str, history: &mut HistoryLog) -> (fragment: Fragment)
    ensures
        final(history)@ == old(history)@.push(text@),
        fragment@ == fragment_for(resolution(text@, final(history)@)),
        is_blank(text@) ==> fragment@ == (FragmentView::TermLine { init: false }),
{
    let directive = resolve(text, history);
    render(directive)
}

} // verus!
