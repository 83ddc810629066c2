//! The games that the terminal offers, and how a command selects one.
//!
//! A game is selected by its name or by its id. A selector is looked up, in
//! lower case and as it is written, in a fixed table:
//!
//! | name        | id  | game |
//! |-------------|-----|------|
//! | `dieggle`   | `1` | 1    |
//! | `deathwalk` | `2` | 2    |
//!
//! A numeric selector is looked up among the ids, any other among the names.
//! Nothing but these four texts selects a game: `01`, `+1` and `3` select
//! none.

use crate::chars::{is_number, is_number_text};
use crate::text::{chars_of, spells};
use vstd::prelude::*;

verus! {

/// The number of the game `dieggle`.
pub const DIEGGLE: u32 = 1;

/// The number of the game `deathwalk`.
pub const DEATHWALK: u32 = 2;

/// The game with the name `name`, if there is one.
pub open spec fn game_named(name: Seq<char>) -> Option<u32> {
    if name == "dieggle"@ {
        Some(DIEGGLE)
    } else if name == "deathwalk"@ {
        Some(DEATHWALK)
    } else {
        None
    }
}

/// The game with the id `id`, if there is one.
pub open spec fn game_with_id(id: Seq<char>) -> Option<u32> {
    if id == "1"@ {
        Some(DIEGGLE)
    } else if id == "2"@ {
        Some(DEATHWALK)
    } else {
        None
    }
}

/// The game that the lower-case selector `selector` stands for, if any: the
/// first game for `dieggle` or `1`, the second for `deathwalk` or `2`, and
/// none for any other text.
pub open spec fn game_for(selector: Seq<char>) -> Option<u32> {
    if selector == "dieggle"@ || selector == "1"@ {
        Some(DIEGGLE)
    } else if selector == "deathwalk"@ || selector == "2"@ {
        Some(DEATHWALK)
    } else {
        None
    }
}

/// The ids of the table are numeric and its names are not. So a numeric
/// selector stands for the game with that id, and any other selector for the
/// game with that name.
pub proof fn lemma_game_table_columns(selector: Seq<char>)
    ensures
        is_number("1"@),
        is_number("2"@),
        !is_number("dieggle"@),
        !is_number("deathwalk"@),
        game_for(selector) == (if is_number(selector) {
            game_with_id(selector)
        } else {
            game_named(selector)
        }),
{
    reveal_strlit("1");
    reveal_strlit("2");
    reveal_strlit("dieggle");
    reveal_strlit("deathwalk");
    assert(!is_number("dieggle"@)) by {
        assert("dieggle"@[0] == 'd');
    }
    assert(!is_number("deathwalk"@)) by {
        assert("deathwalk"@[0] == 'd');
    }
}

/// A selected game is one of the two games.
pub proof fn lemma_game_for_is_a_game(selector: Seq<char>)
    ensures
        game_for(selector) matches Some(game) ==> game == DIEGGLE || game == DEATHWALK,
{
}

/// Looks up the game that the lower-case selector stands for.
pub fn select_game(selector: &str) -> (game: Option<u32>)
    ensures
        game == game_for(selector@),
{
    let chars = chars_of(selector);
    proof {
        lemma_game_table_columns(selector@);
    }
    if is_number_text(&chars) {
        if spells(&chars, "1") {
            Some(DIEGGLE)
        } else if spells(&chars, "2") {
            Some(DEATHWALK)
        } else {
            None
        }
    } else if spells(&chars, "dieggle") {
        Some(DIEGGLE)
    } else if spells(&chars, "deathwalk") {
        Some(DEATHWALK)
    } else {
        None
    }
}

} // verus!
