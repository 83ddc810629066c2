use webterm::history::HistoryLog;
use webterm::render::Fragment;
use webterm::terminal::{open_terminal, submit_command};

#[test]
fn open_terminal_gives_the_first_page() {
    assert_eq!(open_terminal(), Fragment::Terminal { init: true, modal: false, game: None });
}

#[test]
fn submit_command_answers_each_verb() {
    let mut log = HistoryLog::new();
    assert_eq!(submit_command("welcome", &mut log), Fragment::Welcome { init: false });
    assert_eq!(submit_command("Help", &mut log), Fragment::Help { init: false });
    assert_eq!(submit_command("games", &mut log), Fragment::GameMenu { init: false });
    assert_eq!(submit_command("games Dieggle", &mut log), Fragment::Modal { init: false, game: Some(1) });
    assert_eq!(submit_command("games 2", &mut log), Fragment::Modal { init: false, game: Some(2) });
    assert_eq!(submit_command("games unknown", &mut log), Fragment::GameMenu { init: false });
    assert_eq!(submit_command("projects", &mut log), Fragment::Projects { init: false });
    assert_eq!(submit_command("", &mut log), Fragment::TermLine { init: false });
    assert_eq!(submit_command("nonsense", &mut log), Fragment::TermLine { init: false });
    assert_eq!(log.len(), 9);
}

#[test]
fn submit_command_answers_blank_text_with_a_blank_line() {
    let mut log = HistoryLog::new();
    assert_eq!(submit_command("", &mut log), Fragment::TermLine { init: false });
    assert_eq!(submit_command(" \t ", &mut log), Fragment::TermLine { init: false });
    assert_eq!(log.len(), 2);
}

#[test]
fn submit_command_takes_a_game_id_as_it_is_written() {
    let mut log = HistoryLog::new();
    assert_eq!(submit_command("games 1", &mut log), Fragment::Modal { init: false, game: Some(1) });
    assert_eq!(submit_command("games 01", &mut log), Fragment::GameMenu { init: false });
    assert_eq!(submit_command("games 2", &mut log), Fragment::Modal { init: false, game: Some(2) });
    assert_eq!(submit_command("games 02", &mut log), Fragment::GameMenu { init: false });
}

#[test]
fn submit_command_records_every_text() {
    let mut log = HistoryLog::new();
    let _a = submit_command("a", &mut log);
    let _b = submit_command("b", &mut log);
    assert_eq!(
        submit_command("history", &mut log),
        Fragment::History {
            init: false,
            commands: vec!["a".to_string(), "b".to_string(), "history".to_string()],
        }
    );
    assert_eq!(log.len(), 3);
}

#[test]
fn submit_command_under_a_lock_loses_nothing() {
    let store = std::sync::Mutex::new(HistoryLog::new());
    let n = 64usize;
    for i in 0..n {
        let mut guard = store.lock().unwrap();
        let _fragment = submit_command(&format!("command {}", i), &mut guard);
    }
    let log = store.into_inner().unwrap();
    assert_eq!(log.len(), n);
    let mut seen = log.snapshot();
    seen.sort();
    seen.dedup();
    assert_eq!(seen.len(), n);
}
