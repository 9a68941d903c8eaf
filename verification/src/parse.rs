//! Lexical normalizer, command interpreters, and the coordinate parser.
//!
//! Every interpreter first normalizes its input line (Unicode whitespace
//! is trimmed at both ends, then the line is folded to lower case) and
//! matches the result against a fixed table of accepted phrases, or, for
//! in-game input, scans it for a board coordinate. An unrecognized line is
//! reported as `None`: the caller reprompts and tries again.
//!
//! The lowercase folding is `str::to_lowercase`'s, whose full mapping this
//! crate does not restate: its result is only named ([`lower_of`]), and
//! everything after the fold — the phrase tables and the coordinate scan —
//! stands in public verified functions over the folded token.

use vstd::prelude::*;
use crate::game::{Coord, OtherAction, PlayerAction, UserCommand};
use crate::strbuf::push_char;
use crate::strbuf::str_eq;
use crate::turn::Turn;

verus! {

/// Whitespace trimmed from either end of a line: the Unicode White_Space
/// set, exactly the characters `char::is_whitespace` accepts.
pub open spec fn is_space_char(c: char) -> bool {
    ('\u{9}' <= c && c <= '\u{d}') || c == ' ' || c == '\u{85}' || c == '\u{a0}' || c
        == '\u{1680}' || ('\u{2000}' <= c && c <= '\u{200a}') || c == '\u{2028}' || c == '\u{2029}'
        || c == '\u{202f}' || c == '\u{205f}' || c == '\u{3000}'
}

fn is_space(c: char) -> (r: bool)
    ensures
        r == is_space_char(c),
{
    ('\u{9}' <= c && c <= '\u{d}') || c == ' ' || c == '\u{85}' || c == '\u{a0}' || c
        == '\u{1680}' || ('\u{2000}' <= c && c <= '\u{200a}') || c == '\u{2028}' || c == '\u{2029}'
        || c == '\u{202f}' || c == '\u{205f}' || c == '\u{3000}'
}

/// `s` without its leading whitespace.
pub open spec fn spec_trim_start(s: Seq<char>) -> Seq<char>
    decreases s.len(),
{
    if s.len() > 0 && is_space_char(s[0]) {
        spec_trim_start(s.drop_first())
    } else {
        s
    }
}

/// `s` without its trailing whitespace.
pub open spec fn spec_trim_end(s: Seq<char>) -> Seq<char>
    decreases s.len(),
{
    if s.len() > 0 && is_space_char(s.last()) {
        spec_trim_end(s.drop_last())
    } else {
        s
    }
}

/// `s` without its surrounding whitespace.
pub open spec fn spec_trim(s: Seq<char>) -> Seq<char> {
    spec_trim_end(spec_trim_start(s))
}

/// What `str::to_lowercase` returns for `s`: a function of the characters
/// alone, not restated here.
pub uninterp spec fn lower_of(s: Seq<char>) -> Seq<char>;

/// Relies on `str::to_lowercase` from std: the result depends on the
/// characters alone, and an empty string stays empty.
#[verifier::external_body]
fn lowercase(s: &str) -> (r: String)
    ensures
        r@ == lower_of(s@),
        s@.len() == 0 ==> r@.len() == 0,
{
    s.to_lowercase()
}

/// The lexical normalizer: trim surrounding whitespace, then fold to
/// lower case.
pub open spec fn spec_normalize(s: Seq<char>) -> Seq<char> {
    lower_of(spec_trim(s))
}

/// Trims surrounding whitespace and folds the line to lower case.
pub fn normalize(s: &str) -> (r: String)
    ensures
        r@ == spec_normalize(s@),
{
    let len = s.unicode_len();
    let mut start: usize = 0;
    proof {
        assert(s@.subrange(0, len as int) =~= s@);
    }
    while start < len && is_space(s.get_char(start))
        invariant
            start <= len,
            len == s@.len(),
            spec_trim_start(s@) == spec_trim_start(s@.subrange(start as int, len as int)),
        decreases len - start,
    {
        proof {
            let sub = s@.subrange(start as int, len as int);
            assert(sub.drop_first() =~= s@.subrange(start as int + 1, len as int));
        }
        start += 1;
    }
    proof {
        let sub = s@.subrange(start as int, len as int);
        assert(sub.len() == 0 || !is_space_char(sub[0]));
        assert(spec_trim_start(s@) == sub);
    }
    let mut end: usize = len;
    while end > start && is_space(s.get_char(end - 1))
        invariant
            start <= end <= len,
            len == s@.len(),
            spec_trim_start(s@) == s@.subrange(start as int, len as int),
            spec_trim_end(spec_trim_start(s@)) == spec_trim_end(
                s@.subrange(start as int, end as int),
            ),
        decreases end,
    {
        proof {
            let sub = s@.subrange(start as int, end as int);
            assert(sub.last() == s@[end - 1]);
            assert(sub.drop_last() =~= s@.subrange(start as int, end as int - 1));
        }
        end -= 1;
    }
    proof {
        let sub = s@.subrange(start as int, end as int);
        assert(sub.len() == 0 || !is_space_char(sub.last()));
        assert(spec_trim(s@) == sub);
    }
    let mut trimmed = String::new();
    let mut k = start;
    while k < end
        invariant
            start <= k <= end <= len,
            len == s@.len(),
            trimmed@ == s@.subrange(start as int, k as int),
        decreases end - k,
    {
        let c = s.get_char(k);
        push_char(&mut trimmed, c);
        proof {
            assert(s@.subrange(start as int, k as int + 1) =~= s@.subrange(
                start as int,
                k as int,
            ).push(c));
        }
        k += 1;
    }
    proof {
        assert(trimmed@ == spec_trim(s@));
    }
    lowercase(trimmed.as_str())
}

/// A character that sets the row: a digit in `'1'..='8'`.
pub open spec fn is_row_char(c: char) -> bool {
    '1' <= c && c <= '8'
}

/// A character that sets the column: a letter in `'a'..='h'`.
pub open spec fn is_col_char(c: char) -> bool {
    'a' <= c && c <= 'h'
}

/// The row a digit denotes: `'1'` is row 0.
pub open spec fn spec_row_value(c: char) -> usize {
    ((c as u32) - 49) as usize
}

/// The column a letter denotes: `'a'` is column 0.
pub open spec fn spec_col_value(c: char) -> usize {
    ((c as u32) - 97) as usize
}

/// The row set by the last row digit of `s`, if any: a later digit
/// overwrites an earlier one.
pub open spec fn spec_last_row(s: Seq<char>) -> Option<usize>
    decreases s.len(),
{
    if s.len() == 0 {
        None
    } else if is_row_char(s.last()) {
        Some(spec_row_value(s.last()))
    } else {
        spec_last_row(s.drop_last())
    }
}

/// The column set by the last column letter of `s`, if any.
pub open spec fn spec_last_col(s: Seq<char>) -> Option<usize>
    decreases s.len(),
{
    if s.len() == 0 {
        None
    } else if is_col_char(s.last()) {
        Some(spec_col_value(s.last()))
    } else {
        spec_last_col(s.drop_last())
    }
}

/// The coordinate a scan of `s` yields: the last row digit and the last
/// column letter, each independent of position and order, with every other
/// character ignored. `None` when either class of character never occurs.
pub open spec fn spec_scan_coord(s: Seq<char>) -> Option<Coord> {
    match (spec_last_row(s), spec_last_col(s)) {
        (Some(row), Some(col)) => Some(Coord { row, col }),
        _ => None,
    }
}

/// A row set by some digit lies on the board.
pub proof fn lemma_last_row_range(s: Seq<char>)
    ensures
        spec_last_row(s) matches Some(row) ==> row < 8,
    decreases s.len(),
{
    if s.len() > 0 && !is_row_char(s.last()) {
        lemma_last_row_range(s.drop_last());
    }
}

/// A column set by some letter lies on the board.
pub proof fn lemma_last_col_range(s: Seq<char>)
    ensures
        spec_last_col(s) matches Some(col) ==> col < 8,
    decreases s.len(),
{
    if s.len() > 0 && !is_col_char(s.last()) {
        lemma_last_col_range(s.drop_last());
    }
}

/// Every coordinate a scan yields lies on the board.
pub proof fn lemma_scan_coord_wf(s: Seq<char>)
    ensures
        spec_scan_coord(s) matches Some(c) ==> c.wf(),
{
    lemma_last_row_range(s);
    lemma_last_col_range(s);
}

/// Scans an already-normalized token for a board coordinate.
pub fn scan_coord(token: &str) -> (r: Option<Coord>)
    ensures
        r == spec_scan_coord(token@),
        r matches Some(c) ==> c.wf(),
{
    let len = token.unicode_len();
    let mut row: Option<usize> = None;
    let mut col: Option<usize> = None;
    let mut i: usize = 0;
    proof {
        assert(token@.subrange(0, 0) =~= Seq::<char>::empty());
    }
    while i < len
        invariant
            i <= len,
            len == token@.len(),
            row == spec_last_row(token@.subrange(0, i as int)),
            col == spec_last_col(token@.subrange(0, i as int)),
        decreases len - i,
    {
        let c = token.get_char(i);
        proof {
            let next = token@.subrange(0, i as int + 1);
            assert(next.last() == c);
            assert(next.drop_last() =~= token@.subrange(0, i as int));
        }
        if '1' <= c && c <= '8' {
            row = Some(((c as u8) - 49) as usize);
        } else if 'a' <= c && c <= 'h' {
            col = Some(((c as u8) - 97) as usize);
        }
        i += 1;
    }
    proof {
        assert(token@.subrange(0, len as int) =~= token@);
        lemma_scan_coord_wf(token@);
    }
    match (row, col) {
        (Some(row), Some(col)) => Some(Coord { row, col }),
        _ => None,
    }
}

/// The coordinate parser: normalizes the line, then scans it.
pub fn parse_coord(line: &str) -> (r: Option<Coord>)
    ensures
        r == spec_scan_coord(spec_normalize(line@)),
        r matches Some(c) ==> c.wf(),
{
    let n = normalize(line);
    scan_coord(n.as_str())
}

/// What a normalized token means at the main menu, or `None` to reprompt.
pub open spec fn spec_main_menu_table(n: Seq<char>) -> Option<UserCommand> {
    if n == "n"@ || n == "new game"@ {
        Some(UserCommand::NewGame)
    } else if n == "h"@ || n == "help"@ {
        Some(UserCommand::Help)
    } else if n == "c"@ || n == "credits"@ {
        Some(UserCommand::Credits)
    } else if n == "q"@ || n == "quit"@ || n == "exit"@ {
        Some(UserCommand::Quit)
    } else {
        None
    }
}

/// Matches an already-normalized token against the main-menu table.
pub fn match_main_menu(token: &str) -> (r: Option<UserCommand>)
    ensures
        r == spec_main_menu_table(token@),
{
    if str_eq(token, "n") || str_eq(token, "new game") {
        Some(UserCommand::NewGame)
    } else if str_eq(token, "h") || str_eq(token, "help") {
        Some(UserCommand::Help)
    } else if str_eq(token, "c") || str_eq(token, "credits") {
        Some(UserCommand::Credits)
    } else if str_eq(token, "q") || str_eq(token, "quit") || str_eq(token, "exit") {
        Some(UserCommand::Quit)
    } else {
        None
    }
}

/// What a line means at the main menu, or `None` to reprompt.
pub open spec fn spec_main_menu_command(line: Seq<char>) -> Option<UserCommand> {
    spec_main_menu_table(spec_normalize(line))
}

/// Interprets one line of main-menu input.
pub fn input_main_menu(line: &str) -> (r: Option<UserCommand>)
    ensures
        r == spec_main_menu_command(line@),
{
    let n = normalize(line);
    match_main_menu(n.as_str())
}

/// What a normalized token means at the player-selection menu, or `None`
/// to reprompt.
pub open spec fn spec_player_table(n: Seq<char>) -> Option<UserCommand> {
    if n == "h"@ || n == "human"@ || n == "player"@ || n == "human player"@ {
        Some(UserCommand::HumanPlayer)
    } else if n == "w"@ || n == "weak"@ || n == "weak ai"@ {
        Some(UserCommand::AiWeak)
    } else if n == "m"@ || n == "medium"@ || n == "medium ai"@ {
        Some(UserCommand::AiMedium)
    } else if n == "s"@ || n == "strong"@ || n == "strong ai"@ {
        Some(UserCommand::AiStrong)
    } else if n == "q"@ || n == "quit"@ || n == "exit"@ {
        Some(UserCommand::Quit)
    } else {
        None
    }
}

/// Matches an already-normalized token against the player-selection table.
pub fn match_player(token: &str) -> (r: Option<UserCommand>)
    ensures
        r == spec_player_table(token@),
{
    if str_eq(token, "h") || str_eq(token, "human") || str_eq(token, "player") || str_eq(
        token,
        "human player",
    ) {
        Some(UserCommand::HumanPlayer)
    } else if str_eq(token, "w") || str_eq(token, "weak") || str_eq(token, "weak ai") {
        Some(UserCommand::AiWeak)
    } else if str_eq(token, "m") || str_eq(token, "medium") || str_eq(token, "medium ai") {
        Some(UserCommand::AiMedium)
    } else if str_eq(token, "s") || str_eq(token, "strong") || str_eq(token, "strong ai") {
        Some(UserCommand::AiStrong)
    } else if str_eq(token, "q") || str_eq(token, "quit") || str_eq(token, "exit") {
        Some(UserCommand::Quit)
    } else {
        None
    }
}

/// What a line means at the player-selection menu, or `None` to reprompt.
pub open spec fn spec_player_command(line: Seq<char>) -> Option<UserCommand> {
    spec_player_table(spec_normalize(line))
}

/// Interprets one line of player-selection input.
pub fn choose_new_player(line: &str) -> (r: Option<UserCommand>)
    ensures
        r == spec_player_command(line@),
{
    let n = normalize(line);
    match_player(n.as_str())
}

/// What a normalized token means during a match: a special command, a
/// move the authority accepts, or `None` to reprompt. A well-formed
/// coordinate the authority rejects is indistinguishable from a malformed
/// one.
pub open spec fn spec_game_table(t: Turn, n: Seq<char>) -> Option<PlayerAction> {
    if n == "h"@ || n == "help"@ {
        Some(PlayerAction::Other(OtherAction::Help))
    } else if n == "u"@ || n == "undo"@ {
        Some(PlayerAction::Undo)
    } else if n == "q"@ || n == "quit"@ {
        Some(PlayerAction::Other(OtherAction::Quit))
    } else {
        match spec_scan_coord(n) {
            Some(c) => if t.spec_check_move(c.row as int, c.col as int) {
                Some(PlayerAction::Move(c))
            } else {
                None
            },
            None => None,
        }
    }
}

/// Matches an already-normalized token against the in-game table, falling
/// back to the coordinate scan.
pub fn match_game_input(turn: &Turn, token: &str) -> (r: Option<PlayerAction>)
    requires
        turn.wf(),
    ensures
        r == spec_game_table(*turn, token@),
{
    if str_eq(token, "h") || str_eq(token, "help") {
        Some(PlayerAction::Other(OtherAction::Help))
    } else if str_eq(token, "u") || str_eq(token, "undo") {
        Some(PlayerAction::Undo)
    } else if str_eq(token, "q") || str_eq(token, "quit") {
        Some(PlayerAction::Other(OtherAction::Quit))
    } else {
        match scan_coord(token) {
            Some(c) => if turn.check_move(c) {
                Some(PlayerAction::Move(c))
            } else {
                None
            },
            None => None,
        }
    }
}

/// What a line means during a match, or `None` to reprompt.
pub open spec fn spec_game_action(t: Turn, line: Seq<char>) -> Option<PlayerAction> {
    spec_game_table(t, spec_normalize(line))
}

/// Interprets one line of a human player's in-game input.
pub fn human_make_move(turn: &Turn, line: &str) -> (r: Option<PlayerAction>)
    requires
        turn.wf(),
        turn.state is Some,
    ensures
        r == spec_game_action(*turn, line@),
{
    let n = normalize(line);
    match_game_input(turn, n.as_str())
}

/// A two-character token of one row digit and one column letter parses to
/// the same coordinate in either order.
pub proof fn lemma_scan_order_irrelevant(d: char, l: char)
    requires
        is_row_char(d),
        is_col_char(l),
    ensures
        spec_scan_coord(seq![d, l]) == Some(Coord { row: spec_row_value(d), col: spec_col_value(l) }),
        spec_scan_coord(seq![l, d]) == Some(Coord { row: spec_row_value(d), col: spec_col_value(l) }),
{
    let dl = seq![d, l];
    let ld = seq![l, d];
    assert(!is_row_char(l));
    assert(!is_col_char(d));
    assert(dl.last() == l);
    assert(ld.last() == d);
    assert(dl.drop_last() =~= seq![d]);
    assert(ld.drop_last() =~= seq![l]);
    assert(seq![d].last() == d);
    assert(seq![l].last() == l);
    assert(spec_last_col(dl) == Some(spec_col_value(l)));
    assert(spec_last_row(dl) == spec_last_row(seq![d]));
    assert(spec_last_row(seq![d]) == Some(spec_row_value(d)));
    assert(spec_last_row(ld) == Some(spec_row_value(d)));
    assert(spec_last_col(ld) == spec_last_col(seq![l]));
    assert(spec_last_col(seq![l]) == Some(spec_col_value(l)));
}

/// A character that sets neither the row nor the column never changes what
/// a scan yields, wherever in the token it is inserted.
pub proof fn lemma_scan_ignores_other(s: Seq<char>, i: int, c: char)
    requires
        0 <= i <= s.len(),
        !is_row_char(c),
        !is_col_char(c),
    ensures
        spec_scan_coord(s.insert(i, c)) == spec_scan_coord(s),
{
    lemma_last_row_insert_other(s, i, c);
    lemma_last_col_insert_other(s, i, c);
}

proof fn lemma_last_row_insert_other(s: Seq<char>, i: int, c: char)
    requires
        0 <= i <= s.len(),
        !is_row_char(c),
    ensures
        spec_last_row(s.insert(i, c)) == spec_last_row(s),
    decreases s.len(),
{
    let t = s.insert(i, c);
    if i == s.len() {
        assert(t.last() == c);
        assert(t.drop_last() =~= s);
    } else {
        assert(t.last() == s.last());
        assert(t.drop_last() =~= s.drop_last().insert(i, c));
        if !is_row_char(s.last()) {
            lemma_last_row_insert_other(s.drop_last(), i, c);
        }
    }
}

proof fn lemma_last_col_insert_other(s: Seq<char>, i: int, c: char)
    requires
        0 <= i <= s.len(),
        !is_col_char(c),
    ensures
        spec_last_col(s.insert(i, c)) == spec_last_col(s),
    decreases s.len(),
{
    let t = s.insert(i, c);
    if i == s.len() {
        assert(t.last() == c);
        assert(t.drop_last() =~= s);
    } else {
        assert(t.last() == s.last());
        assert(t.drop_last() =~= s.drop_last().insert(i, c));
        if !is_col_char(s.last()) {
            lemma_last_col_insert_other(s.drop_last(), i, c);
        }
    }
}

/// A token with no row digit, or no column letter, yields no coordinate:
/// the caller reprompts.
pub proof fn lemma_scan_incomplete(s: Seq<char>)
    ensures
        (forall|i: int| 0 <= i < s.len() ==> !is_row_char(s[i])) ==> spec_scan_coord(s) is None,
        (forall|i: int| 0 <= i < s.len() ==> !is_col_char(s[i])) ==> spec_scan_coord(s) is None,
{
    if forall|i: int| 0 <= i < s.len() ==> !is_row_char(s[i]) {
        lemma_no_row_digit(s);
    }
    if forall|i: int| 0 <= i < s.len() ==> !is_col_char(s[i]) {
        lemma_no_col_letter(s);
    }
}

proof fn lemma_no_row_digit(s: Seq<char>)
    requires
        forall|i: int| 0 <= i < s.len() ==> !is_row_char(s[i]),
    ensures
        spec_last_row(s) is None,
    decreases s.len(),
{
    if s.len() > 0 {
        assert(!is_row_char(s.last()));
        assert(forall|i: int| 0 <= i < s.drop_last().len() ==> !is_row_char(s.drop_last()[i]));
        lemma_no_row_digit(s.drop_last());
    }
}

proof fn lemma_no_col_letter(s: Seq<char>)
    requires
        forall|i: int| 0 <= i < s.len() ==> !is_col_char(s[i]),
    ensures
        spec_last_col(s) is None,
    decreases s.len(),
{
    if s.len() > 0 {
        assert(!is_col_char(s.last()));
        assert(forall|i: int| 0 <= i < s.drop_last().len() ==> !is_col_char(s.drop_last()[i]));
        lemma_no_col_letter(s.drop_last());
    }
}

/// When several row digits are present the last-scanned one determines
/// the row; likewise for column letters.
pub proof fn lemma_later_character_wins(s: Seq<char>, c: char)
    ensures
        is_row_char(c) ==> spec_last_row(s.push(c)) == Some(spec_row_value(c)),
        is_col_char(c) ==> spec_last_col(s.push(c)) == Some(spec_col_value(c)),
{
    assert(s.push(c).last() == c);
}

proof fn lemma_all_space_trim_start(ws: Seq<char>)
    requires
        forall|i: int| 0 <= i < ws.len() ==> is_space_char(ws[i]),
    ensures
        spec_trim_start(ws) == Seq::<char>::empty(),
    decreases ws.len(),
{
    if ws.len() > 0 {
        assert(forall|i: int|
            0 <= i < ws.drop_first().len() ==> is_space_char(ws.drop_first()[i]));
        lemma_all_space_trim_start(ws.drop_first());
    } else {
        assert(ws =~= Seq::<char>::empty());
    }
}

proof fn lemma_trim_start_concat(a: Seq<char>, b: Seq<char>)
    ensures
        spec_trim_start(a + b) == if spec_trim_start(a).len() == 0 {
            spec_trim_start(b)
        } else {
            spec_trim_start(a) + b
        },
    decreases a.len(),
{
    if a.len() == 0 {
        assert(a + b =~= b);
    } else {
        assert((a + b)[0] == a[0]);
        if is_space_char(a[0]) {
            assert((a + b).drop_first() =~= a.drop_first() + b);
            lemma_trim_start_concat(a.drop_first(), b);
        }
    }
}

proof fn lemma_trim_end_append(t: Seq<char>, ws: Seq<char>)
    requires
        forall|i: int| 0 <= i < ws.len() ==> is_space_char(ws[i]),
    ensures
        spec_trim_end(t + ws) == spec_trim_end(t),
    decreases ws.len(),
{
    if ws.len() == 0 {
        assert(t + ws =~= t);
    } else {
        assert((t + ws).last() == ws.last());
        assert((t + ws).drop_last() =~= t + ws.drop_last());
        assert(forall|i: int| 0 <= i < ws.drop_last().len() ==> is_space_char(ws.drop_last()[i]));
        lemma_trim_end_append(t, ws.drop_last());
    }
}

/// Command interpretation trims surrounding whitespace: padding a line
/// with whitespace on either side never changes how it normalizes, so
/// every interpreter treats the padded line alike.
pub proof fn lemma_trim_padding(ws1: Seq<char>, s: Seq<char>, ws2: Seq<char>)
    requires
        forall|i: int| 0 <= i < ws1.len() ==> is_space_char(ws1[i]),
        forall|i: int| 0 <= i < ws2.len() ==> is_space_char(ws2[i]),
    ensures
        spec_trim(ws1 + s + ws2) == spec_trim(s),
        spec_normalize(ws1 + s + ws2) == spec_normalize(s),
{
    assert(ws1 + s + ws2 =~= ws1 + (s + ws2));
    lemma_all_space_trim_start(ws1);
    lemma_trim_start_concat(ws1, s + ws2);
    lemma_trim_start_concat(s, ws2);
    if spec_trim_start(s).len() == 0 {
        lemma_all_space_trim_start(ws2);
        assert(spec_trim_start(ws1 + (s + ws2)) == Seq::<char>::empty());
        assert(spec_trim_end(Seq::<char>::empty()) =~= Seq::<char>::empty());
        assert(spec_trim_end(spec_trim_start(s)) =~= Seq::<char>::empty());
    } else {
        lemma_trim_end_append(spec_trim_start(s), ws2);
    }
}

} // verus!
