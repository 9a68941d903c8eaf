use rusthello::text::{
    commands_info, credits, help, intro, main_menu, new_player_menu, COMMANDS_INFO, HELP,
    MAIN_MENU, NEW_PLAYER_MENU,
};

#[test]
fn menu_texts() {
    assert_eq!(main_menu(), MAIN_MENU);
    assert!(main_menu().contains("------- MAIN MENU -------"));
    assert!(main_menu().contains("\tn - New match"));
    assert!(main_menu().contains("\tq - Quit RUSThello"));
    assert_eq!(new_player_menu(), NEW_PLAYER_MENU);
    assert!(new_player_menu().contains("---- CHOOSE A PLAYER ----"));
    assert!(new_player_menu().contains("\th - Human Player"));
}

#[test]
fn commands_info_text() {
    assert_eq!(commands_info(), COMMANDS_INFO);
    assert!(commands_info().contains("Type a cell's coordinates"));
    assert!(commands_info().contains("'undo' or 'u'"));
}

#[test]
fn help_text() {
    assert_eq!(help(), HELP);
    assert!(help().contains("-------- REVERSI --------"));
    assert!(help().contains("Dark moves first."));
    assert!(help().contains("all legal moves are marked on the board by an asterisk."));
}

#[test]
fn intro_and_credits_take_version() {
    let banner = intro("1.2.3");
    assert!(banner.contains("------- RUSThello -------"));
    assert!(banner.ends_with("\n\t        v. 1.2.3"));
    let c = credits("0.9");
    assert!(c.contains("-------- CREDITS --------"));
    assert!(c.contains("\tRUSThello v. 0.9\n"));
    assert!(c.contains("Released under MIT license"));
}
