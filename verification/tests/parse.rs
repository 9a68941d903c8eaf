use rusthello::game::{Coord, OtherAction, PlayerAction, Side, UserCommand};
use rusthello::parse::{choose_new_player, human_make_move, input_main_menu, normalize, parse_coord};
use rusthello::turn::Turn;

fn blank_turn(state: Option<Side>) -> Turn {
    Turn::new(vec![None; 64], vec![false; 64], state, 2, 2)
}

fn turn_with_legal(state: Option<Side>, legal_cells: &[(usize, usize)]) -> Turn {
    let mut legal = vec![false; 64];
    for &(r, c) in legal_cells {
        legal[r * 8 + c] = true;
    }
    Turn::new(vec![None; 64], legal, state, 2, 2)
}

#[test]
fn normalize_trims_and_folds() {
    assert_eq!(normalize(" AbC "), "abc");
    assert_eq!(normalize("\t Q \n"), "q");
    assert_eq!(normalize(""), "");
    assert_eq!(normalize("   "), "");
    assert_eq!(normalize("a b"), "a b");
}

#[test]
fn normalize_full_whitespace_set() {
    // Vertical tab, no-break space and the wider Unicode spaces trim too.
    assert_eq!(normalize("\u{b}q\u{b}"), "q");
    assert_eq!(normalize("\u{a0}\u{2003}q\u{2028}\u{3000}"), "q");
    assert_eq!(normalize("\u{85}help\u{202f}"), "help");
}

#[test]
fn normalize_folds_beyond_ascii() {
    // The Kelvin sign folds to a plain 'k', as str::to_lowercase does.
    assert_eq!(normalize("WEA\u{212a}"), "weak");
    assert_eq!(normalize("\u{c9}"), "\u{e9}");
}

#[test]
fn coord_any_order_and_case() {
    let expected = Some(Coord::new(3, 2));
    assert_eq!(parse_coord("c4"), expected);
    assert_eq!(parse_coord("C4"), expected);
    assert_eq!(parse_coord("4c"), expected);
    assert_eq!(parse_coord("4C"), expected);
    assert_eq!(parse_coord(" c4 "), expected);
    assert_eq!(parse_coord("x(c=4)!"), expected);
}

#[test]
fn coord_missing_class_rejected() {
    assert_eq!(parse_coord("z9"), None);
    assert_eq!(parse_coord("44"), None);
    assert_eq!(parse_coord("cc"), None);
    assert_eq!(parse_coord(""), None);
    assert_eq!(parse_coord("i1"), None);
    assert_eq!(parse_coord("a9"), None);
    assert_eq!(parse_coord("a0"), None);
}

#[test]
fn coord_later_character_wins() {
    assert_eq!(parse_coord("a14"), Some(Coord::new(3, 0)));
    assert_eq!(parse_coord("ab1"), Some(Coord::new(0, 1)));
    assert_eq!(parse_coord("1a2b"), Some(Coord::new(1, 1)));
    assert_eq!(parse_coord("h8"), Some(Coord::new(7, 7)));
    assert_eq!(parse_coord("a1"), Some(Coord::new(0, 0)));
}

#[test]
fn main_menu_quit_variants() {
    assert_eq!(input_main_menu(" Q "), Some(UserCommand::Quit));
    assert_eq!(input_main_menu("q"), Some(UserCommand::Quit));
    assert_eq!(input_main_menu("Quit"), Some(UserCommand::Quit));
    assert_eq!(input_main_menu("QUIT"), Some(UserCommand::Quit));
    assert_eq!(input_main_menu("exit"), Some(UserCommand::Quit));
}

#[test]
fn main_menu_commands() {
    assert_eq!(input_main_menu("n"), Some(UserCommand::NewGame));
    assert_eq!(input_main_menu("new game"), Some(UserCommand::NewGame));
    assert_eq!(input_main_menu("h"), Some(UserCommand::Help));
    assert_eq!(input_main_menu("help"), Some(UserCommand::Help));
    assert_eq!(input_main_menu("c"), Some(UserCommand::Credits));
    assert_eq!(input_main_menu("credits"), Some(UserCommand::Credits));
    assert_eq!(input_main_menu("xyzzy"), None);
    assert_eq!(input_main_menu(""), None);
    assert_eq!(input_main_menu("new  game"), None);
}

#[test]
fn player_menu_commands() {
    assert_eq!(choose_new_player("h"), Some(UserCommand::HumanPlayer));
    assert_eq!(choose_new_player("human"), Some(UserCommand::HumanPlayer));
    assert_eq!(choose_new_player("player"), Some(UserCommand::HumanPlayer));
    assert_eq!(choose_new_player("human player"), Some(UserCommand::HumanPlayer));
    assert_eq!(choose_new_player("w"), Some(UserCommand::AiWeak));
    assert_eq!(choose_new_player("weak ai"), Some(UserCommand::AiWeak));
    assert_eq!(choose_new_player("m"), Some(UserCommand::AiMedium));
    assert_eq!(choose_new_player("Medium"), Some(UserCommand::AiMedium));
    assert_eq!(choose_new_player("s"), Some(UserCommand::AiStrong));
    assert_eq!(choose_new_player("STRONG AI"), Some(UserCommand::AiStrong));
    assert_eq!(choose_new_player("q"), Some(UserCommand::Quit));
    assert_eq!(choose_new_player("exit"), Some(UserCommand::Quit));
    assert_eq!(choose_new_player("z"), None);
}

#[test]
fn commands_accept_unicode_whitespace_and_folds() {
    assert_eq!(input_main_menu("\u{b} Q \u{a0}"), Some(UserCommand::Quit));
    assert_eq!(choose_new_player("wea\u{212a}"), Some(UserCommand::AiWeak));
}

#[test]
fn game_input_special_commands() {
    let turn = blank_turn(Some(Side::Dark));
    assert_eq!(
        human_make_move(&turn, "h"),
        Some(PlayerAction::Other(OtherAction::Help))
    );
    assert_eq!(
        human_make_move(&turn, " HELP "),
        Some(PlayerAction::Other(OtherAction::Help))
    );
    assert_eq!(human_make_move(&turn, "u"), Some(PlayerAction::Undo));
    assert_eq!(human_make_move(&turn, "undo"), Some(PlayerAction::Undo));
    assert_eq!(
        human_make_move(&turn, "q"),
        Some(PlayerAction::Other(OtherAction::Quit))
    );
    assert_eq!(
        human_make_move(&turn, "quit"),
        Some(PlayerAction::Other(OtherAction::Quit))
    );
    // "exit" is a menu synonym only, not an in-game command.
    assert_eq!(human_make_move(&turn, "exit"), None);
}

#[test]
fn game_input_moves() {
    let turn = turn_with_legal(Some(Side::Dark), &[(3, 2)]);
    assert_eq!(
        human_make_move(&turn, "c4"),
        Some(PlayerAction::Move(Coord::new(3, 2)))
    );
    assert_eq!(
        human_make_move(&turn, " 4C "),
        Some(PlayerAction::Move(Coord::new(3, 2)))
    );
    // A well-formed coordinate the authority rejects reads like a malformed one.
    assert_eq!(human_make_move(&turn, "d4"), None);
    assert_eq!(human_make_move(&turn, "zz"), None);
    assert_eq!(human_make_move(&turn, ""), None);
}

#[test]
fn game_input_occupied_cell_rejected() {
    let mut cells: Vec<Option<Side>> = vec![None; 64];
    cells[3 * 8 + 2] = Some(Side::Light);
    let mut legal = vec![false; 64];
    legal[3 * 8 + 2] = true;
    let turn = Turn::new(cells, legal, Some(Side::Dark), 2, 2);
    assert_eq!(human_make_move(&turn, "c4"), None);
}
