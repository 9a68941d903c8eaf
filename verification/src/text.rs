//! The fixed texts this interface shows: intro banner, menus, in-game
//! command summary, help, and credits.
//!
//! The texts that name the program's version take it as an argument, so
//! the caller decides what version string to show.

use vstd::prelude::*;

verus! {

pub const INTRO: &'static str = "\n\n
\t-------------------------
\t------- RUSThello -------
\t-------------------------
\t  a simple Reversi game
\twritten in Rust with love";

pub const VERSION_LINE: &'static str = "\n\t        v. ";

pub const MAIN_MENU: &'static str = "\n\n
\t-------------------------
\t------- MAIN MENU -------
\t-------------------------
\tn - New match
\th - Help
\tc - Credits
\tq - Quit RUSThello
\t-------------------------";

pub const NEW_PLAYER_MENU: &'static str = "\n\n
\t-------------------------
\t---- CHOOSE A PLAYER ----
\t-------------------------
\th - Human Player
\tw - Weak   AI
\tm - Medium AI
\ts - Strong AI
\tq - Quit match
\t-------------------------";

pub const COMMANDS_INFO: &'static str = "\n\n
\tStarting new game...
\tType a cell's coordinates to place your disk there.
\tExaple: \"c4\" (or \"C4\", \"4c\", \"4C\", etc...).
\tType 'help' or 'h' to display a help message.
\tType 'undo' or 'u' to undo the last move.
\tType 'quit' or 'q' to abandon the game.";

pub const HELP: &'static str = "\n\n
\t-------------------------
\t-------- REVERSI --------
\t-------------------------
\tReversi is a board game where two players compete against each other. \
The game is played on a 8x8 board, just like chess but for the squares\u{2019} colour which is always green. \
There are 64 identical pieces called disks, which are white on one side and black on the other. \
A player is Dark, using disks\u{2019} black side, and the other one is Light, using disks' white side. \
The game starts with four disks already placed at the centre of the board, two for each side. \
Dark moves first.\n
\tLet\u{2019}s say it\u{2019}s Dark\u{2019}s turn, for simplicity's sake, as for Light the rules are just the same. \
Dark has to place a disk in a free square of the board, with the black side facing up. \
Whenever the newly placed black disk and any other previously placed black disk enclose a sequence of white disks (horizontal, vertical or diagonal and of any length), all of those flip and turn black. \
It is mandatory to place the new disk such that at least a white disk is flipped, otherwise the move is not valid.\n
\tUsually players\u{2019} turn alternate, passing from one to the other. \
When a player cannot play any legal move, the turn goes back to the other player, thus allowing the same player to play consecutive turns. \
When neither player can play a legal move, the game ends. \
Usually, this happens when the board is completely filled up with disks (for a total of 60 turns). \
Games also happen sometimes to end before that, leaving empty squares on the board.\n
\tWhen the game ends, the player with more disks turned to its side wins. \
Ties are possible as well, if both player have the same number of disks.
\t-------------------------\n\n
\t-------------------------
\t------- RUSThello -------
\t-------------------------
\tTo play RUSThello you first have to choose who is playing on each side, Dark and Light. \
You can choose a human players or an AI. \
Choose human for both players and challenge a friend, or test your skills against an AI, or even relax as you watch two AIs competing against each other: all combinations are possible!\n
\tAs a human player, you move by entering the coordinates (a letter and a number) of the square you want to place your disk on, e.g. all of 'c4', 'C4', '4c' and '4C' are valid and equivalent coordinates. \
For your ease of use, all legal moves are marked on the board by an asterisk.\n
\tFurthermore, on your turn you can also input special commands: 'undo' (or 'u') to undo your last move (and yes, you can 'undo' as many times as you like), 'help' (or 'h') to see this help message again, and 'quit' (or 'q') to quit the game.
\t-------------------------";

pub const CREDITS_HEAD: &'static str = "\n\n
\t-------------------------
\t-------- CREDITS --------
\t-------------------------
\tRUSThello v. ";

pub const CREDITS_TAIL: &'static str = "
\tby Enrico Ghiorzi
\tCopyright (c) 2015-2016
\tby Enrico Ghiorzi
\tReleased under MIT license
\t-------------------------";

/// The intro banner, with the version line appended.
pub fn intro(version: &str) -> (r: String)
    ensures
        r@ == INTRO@ + VERSION_LINE@ + version@,
{
    let mut out = String::new();
    out.append(INTRO);
    out.append(VERSION_LINE);
    out.append(version);
    proof {
        assert(out@ =~= INTRO@ + VERSION_LINE@ + version@);
    }
    out
}

/// The main-menu text.
pub fn main_menu() -> (r: &'static str)
    ensures
        r == MAIN_MENU,
{
    MAIN_MENU
}

/// The player-selection menu text.
pub fn new_player_menu() -> (r: &'static str)
    ensures
        r == NEW_PLAYER_MENU,
{
    NEW_PLAYER_MENU
}

/// The summary of in-game commands shown when a match starts.
pub fn commands_info() -> (r: &'static str)
    ensures
        r == COMMANDS_INFO,
{
    COMMANDS_INFO
}

/// The full help text.
pub fn help() -> (r: &'static str)
    ensures
        r == HELP,
{
    HELP
}

/// The credits text, with the version spliced in.
pub fn credits(version: &str) -> (r: String)
    ensures
        r@ == CREDITS_HEAD@ + version@ + CREDITS_TAIL@,
{
    let mut out = String::new();
    out.append(CREDITS_HEAD);
    out.append(version);
    out.append(CREDITS_TAIL);
    proof {
        assert(out@ =~= CREDITS_HEAD@ + version@ + CREDITS_TAIL@);
    }
    out
}

} // verus!
