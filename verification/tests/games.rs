use webterm::games::{select_game, DEATHWALK, DIEGGLE};

#[test]
fn game_numbers() {
    assert_eq!(DIEGGLE, 1);
    assert_eq!(DEATHWALK, 2);
}

#[test]
fn select_game_looks_up_the_table() {
    assert_eq!(select_game("dieggle"), Some(1));
    assert_eq!(select_game("1"), Some(1));
    assert_eq!(select_game("deathwalk"), Some(2));
    assert_eq!(select_game("2"), Some(2));
}

#[test]
fn select_game_by_name_and_id_agree() {
    assert_eq!(select_game("dieggle"), select_game("1"));
    assert_eq!(select_game("deathwalk"), select_game("2"));
    assert_ne!(select_game("dieggle"), select_game("deathwalk"));
}

#[test]
fn select_game_takes_an_id_as_it_is_written() {
    assert_eq!(select_game("01"), None);
    assert_eq!(select_game("001"), None);
    assert_eq!(select_game("02"), None);
    assert_eq!(select_game("0002"), None);
    assert_eq!(select_game("1 "), None);
    assert_eq!(select_game("+1"), None);
    assert_eq!(select_game("1.0"), None);
    assert_eq!(select_game("11"), None);
    assert_eq!(select_game("12"), None);
    assert_eq!(select_game("21"), None);
}

#[test]
fn select_game_knows_no_other_selector() {
    assert_eq!(select_game(""), None);
    assert_eq!(select_game("0"), None);
    assert_eq!(select_game("3"), None);
    assert_eq!(select_game("10"), None);
    assert_eq!(select_game("4294967297"), None);
    assert_eq!(select_game("18446744073709551617"), None);
    assert_eq!(select_game("one"), None);
    assert_eq!(select_game("unknown"), None);
    assert_eq!(select_game("dieggle1"), None);
    assert_eq!(select_game("diegglee"), None);
    assert_eq!(select_game("dieggl"), None);
    assert_eq!(select_game("deathwalk2"), None);
}

#[test]
fn select_game_expects_lower_case() {
    assert_eq!(select_game("Dieggle"), None);
    assert_eq!(select_game("DIEGGLE"), None);
    assert_eq!(select_game("DeathWalk"), None);
}

#[test]
fn select_game_gives_only_games() {
    let selectors = ["", "0", "1", "2", "3", "01", "002", "dieggle", "deathwalk", "x", "1 ", "2x"];
    for selector in selectors {
        if let Some(game) = select_game(selector) {
            assert!(game == DIEGGLE || game == DEATHWALK, "{:?}", selector);
        }
    }
}
