use webterm::render::{
    render, reply_for, terminal_page, BodyKind, Fragment, RenderError, Reply,
    STATUS_INTERNAL_SERVER_ERROR, STATUS_OK,
};
use webterm::resolver::ViewDirective;

#[test]
fn render_maps_each_menu() {
    assert_eq!(render(ViewDirective::ShowWelcome), Fragment::Welcome { init: false });
    assert_eq!(render(ViewDirective::ShowHelp), Fragment::Help { init: false });
    assert_eq!(render(ViewDirective::ShowGameMenu), Fragment::GameMenu { init: false });
    assert_eq!(render(ViewDirective::ShowProjects), Fragment::Projects { init: false });
    assert_eq!(render(ViewDirective::ShowBlankLine), Fragment::TermLine { init: false });
}

#[test]
fn render_modal_carries_the_game() {
    assert_eq!(render(ViewDirective::ShowGameModal(1)), Fragment::Modal { init: false, game: Some(1) });
    assert_eq!(render(ViewDirective::ShowGameModal(2)), Fragment::Modal { init: false, game: Some(2) });
}

#[test]
fn render_history_carries_the_entries_in_order() {
    let entries = vec!["a".to_string(), "b".to_string(), "history".to_string()];
    assert_eq!(
        render(ViewDirective::ShowHistory(entries.clone())),
        Fragment::History { init: false, commands: entries }
    );
    assert_eq!(
        render(ViewDirective::ShowHistory(vec![])),
        Fragment::History { init: false, commands: vec![] }
    );
}

#[test]
fn terminal_page_is_set_up_anew() {
    assert_eq!(terminal_page(), Fragment::Terminal { init: true, modal: false, game: None });
}

#[test]
fn template_paths() {
    assert_eq!(terminal_page().template_path(), "pages/terminal.html");
    assert_eq!(Fragment::Welcome { init: false }.template_path(), "menus/welcome.html");
    assert_eq!(Fragment::Help { init: false }.template_path(), "menus/help.html");
    assert_eq!(Fragment::GameMenu { init: false }.template_path(), "menus/game.html");
    assert_eq!(Fragment::Projects { init: false }.template_path(), "menus/projects.html");
    assert_eq!(Fragment::TermLine { init: false }.template_path(), "components/term-line.html");
    assert_eq!(Fragment::Modal { init: false, game: Some(1) }.template_path(), "components/modal.html");
    assert_eq!(
        Fragment::History { init: false, commands: vec![] }.template_path(),
        "components/history.html"
    );
}

#[test]
fn reply_for_success_sends_the_markup() {
    assert_eq!(STATUS_OK, 200);
    assert_eq!(
        reply_for(Ok("<p>hi</p>".to_string())),
        Reply { status: 200, kind: BodyKind::Markup, body: "<p>hi</p>".to_string() }
    );
    assert_eq!(
        reply_for(Ok(String::new())),
        Reply { status: 200, kind: BodyKind::Markup, body: String::new() }
    );
}

#[test]
fn reply_for_failure_is_a_server_error() {
    assert_eq!(STATUS_INTERNAL_SERVER_ERROR, 500);
    assert_eq!(
        reply_for(Err(RenderError { message: "missing block".to_string() })),
        Reply {
            status: 500,
            kind: BodyKind::PlainText,
            body: "Failed to render tempalte. Error: missing block".to_string(),
        }
    );
    assert_eq!(
        reply_for(Err(RenderError { message: String::new() })),
        Reply {
            status: 500,
            kind: BodyKind::PlainText,
            body: "Failed to render tempalte. Error: ".to_string(),
        }
    );
}

#[test]
fn reply_for_failure_differs_from_a_blank_success() {
    let failed = reply_for(Err(RenderError { message: String::new() }));
    let blank = reply_for(Ok(String::new()));
    assert_ne!(failed.status, blank.status);
    assert_ne!(failed.body, blank.body);
}

#[test]
fn reply_body_is_markup_exactly_for_success() {
    assert!(reply_for(Ok("<p>hi</p>".to_string())).is_markup());
    assert!(reply_for(Ok(String::new())).is_markup());
    assert!(!reply_for(Err(RenderError { message: "<p>hi</p>".to_string() })).is_markup());
    assert!(!reply_for(Err(RenderError { message: String::new() })).is_markup());
}

#[test]
fn reply_keeps_the_markup_byte_for_byte() {
    let markup = "<ol>\n  <li>a &amp; b</li>\n  <li>\u{4e16}\u{754c}</li>\n</ol>\n".to_string();
    let reply = reply_for(Ok(markup.clone()));
    assert_eq!(reply.body.as_bytes(), markup.as_bytes());
    assert_eq!(reply.kind, BodyKind::Markup);
    assert_eq!(reply.status, STATUS_OK);
}

#[test]
fn is_markup_reads_the_kind() {
    let markup = Reply { status: 200, kind: BodyKind::Markup, body: String::new() };
    let plain = Reply { status: 200, kind: BodyKind::PlainText, body: String::new() };
    assert!(markup.is_markup());
    assert!(!plain.is_markup());
}
