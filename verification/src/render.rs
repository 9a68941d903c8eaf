//! Board renderer and status messages.
//!
//! `draw_board` produces, character for character, the text the interface
//! shows after each turn: the labelled grid, the score line with a
//! direction marker for the side to move, and, once the game has ended,
//! the winner or tie line picked by strict comparison of the two scores.

use vstd::prelude::*;
use crate::game::{Coord, Side, BOARD_SIZE};
use crate::strbuf::{push_char, push_decimal, spec_decimal, spec_digit_char};
use crate::turn::Turn;

verus! {

/// The process-wide rendering profile, resolved once at start: plain ASCII
/// glyphs for constrained terminals, richer symbol glyphs otherwise.
#[derive(Clone, Copy, PartialEq, Eq, Structural, Debug)]
pub enum RenderProfile {
    Ascii,
    Symbols,
}

impl RenderProfile {
    /// Glyph for a cell occupied by Dark.
    pub open spec fn spec_dark_disk(self) -> char {
        match self {
            RenderProfile::Ascii => 'X',
            RenderProfile::Symbols => '\u{25cf}',
        }
    }

    /// Glyph for a cell occupied by Light.
    pub open spec fn spec_light_disk(self) -> char {
        match self {
            RenderProfile::Ascii => 'O',
            RenderProfile::Symbols => '\u{25cb}',
        }
    }

    /// Glyph for an empty cell with no legal move on it.
    pub open spec fn spec_empty_cell(self) -> char {
        match self {
            RenderProfile::Ascii => '-',
            RenderProfile::Symbols => '\u{2219}',
        }
    }

    /// Glyph marking an empty cell the side to move may play.
    pub open spec fn spec_legal_move(self) -> char {
        match self {
            RenderProfile::Ascii => ' ',
            RenderProfile::Symbols => '*',
        }
    }

    pub fn dark_disk(self) -> (c: char)
        ensures
            c == self.spec_dark_disk(),
    {
        match self {
            RenderProfile::Ascii => 'X',
            RenderProfile::Symbols => '\u{25cf}',
        }
    }

    pub fn light_disk(self) -> (c: char)
        ensures
            c == self.spec_light_disk(),
    {
        match self {
            RenderProfile::Ascii => 'O',
            RenderProfile::Symbols => '\u{25cb}',
        }
    }

    pub fn empty_cell(self) -> (c: char)
        ensures
            c == self.spec_empty_cell(),
    {
        match self {
            RenderProfile::Ascii => '-',
            RenderProfile::Symbols => '\u{2219}',
        }
    }

    pub fn legal_move(self) -> (c: char)
        ensures
            c == self.spec_legal_move(),
    {
        match self {
            RenderProfile::Ascii => ' ',
            RenderProfile::Symbols => '*',
        }
    }
}

/// The glyph one cell renders as: the occupying side's disk, or, on an
/// empty cell, the legal-move marker exactly when the authority accepts a
/// move there.
pub open spec fn spec_cell_char(t: Turn, p: RenderProfile, row: int, col: int) -> char {
    match t.spec_cell(row, col) {
        Some(side) => match side {
            Side::Dark => p.spec_dark_disk(),
            Side::Light => p.spec_light_disk(),
        },
        None => if t.spec_check_move(row, col) {
            p.spec_legal_move()
        } else {
            p.spec_empty_cell()
        },
    }
}

/// The first `n` cells of one grid row, each glyph followed by a space.
pub open spec fn spec_cells_prefix(t: Turn, p: RenderProfile, row: int, n: int) -> Seq<char>
    decreases n,
{
    if n <= 0 {
        Seq::empty()
    } else {
        spec_cells_prefix(t, p, row, n - 1) + seq![spec_cell_char(t, p, row, n - 1), ' ']
    }
}

/// The digit labelling a grid row: rows are shown 1-based.
pub open spec fn spec_row_label(row: int) -> char {
    spec_digit_char(row + 1)
}

/// One full grid row, flanked by its 1-based label on both sides.
pub open spec fn spec_row_line(t: Turn, p: RenderProfile, row: int) -> Seq<char> {
    seq!['\t', spec_row_label(row), ' ', ' '] + spec_cells_prefix(t, p, row, 8) + seq![
        ' ',
        spec_row_label(row),
        '\n',
    ]
}

/// The first `n` grid rows.
pub open spec fn spec_rows_prefix(t: Turn, p: RenderProfile, n: int) -> Seq<char>
    decreases n,
{
    if n <= 0 {
        Seq::empty()
    } else {
        spec_rows_prefix(t, p, n - 1) + spec_row_line(t, p, n - 1)
    }
}

/// The grid with its column labels above and below.
pub open spec fn spec_board_grid(t: Turn, p: RenderProfile) -> Seq<char> {
    "\n\t   A B C D E F G H\n"@ + spec_rows_prefix(t, p, 8) + "\t   A B C D E F G H\n"@
}

/// A score right-aligned to a width of at least two columns.
pub open spec fn spec_pad_left2(n: nat) -> Seq<char> {
    if n < 10 {
        seq![' '] + spec_decimal(n)
    } else {
        spec_decimal(n)
    }
}

/// A score left-aligned to a width of at least two columns.
pub open spec fn spec_pad_right2(n: nat) -> Seq<char> {
    if n < 10 {
        spec_decimal(n).push(' ')
    } else {
        spec_decimal(n)
    }
}

/// The score line: both disk counts, and between them a direction marker
/// pointing at the side to move, or blank space once the game has ended.
pub open spec fn spec_score_line(t: Turn, p: RenderProfile) -> Seq<char> {
    let mid: Seq<char> = match t.state {
        Some(side) => match side {
            Side::Dark => " <<< "@,
            Side::Light => " >>> "@,
        },
        None => "     "@,
    };
    "\t    "@ + spec_pad_left2(t.score_dark as nat) + seq![' ', p.spec_dark_disk()] + mid + seq![
        p.spec_light_disk(),
        ' ',
    ] + spec_pad_right2(t.score_light as nat) + "\n\n"@
}

/// The end-of-game lines: the winner line picked by strict comparison
/// of the two scores, or the tie line; nothing while the game is ongoing.
pub open spec fn spec_outcome_lines(t: Turn, p: RenderProfile) -> Seq<char> {
    if t.state is Some {
        Seq::empty()
    } else if t.score_dark > t.score_light {
        seq!['\t', p.spec_dark_disk()] + " Dark wins!\n"@
    } else if t.score_dark < t.score_light {
        seq!['\t', p.spec_light_disk()] + " Light wins!\n"@
    } else {
        "\tTie!\n"@
    }
}

/// Everything one rendering emits: grid, score line, and, once the game
/// has ended, the winner or tie line.
pub open spec fn spec_draw_board(t: Turn, p: RenderProfile) -> Seq<char> {
    spec_board_grid(t, p) + seq!['\n'] + spec_score_line(t, p) + spec_outcome_lines(t, p)
}

/// Appends the labelled grid.
fn push_grid(out: &mut String, turn: &Turn, profile: RenderProfile)
    requires
        turn.wf(),
    ensures
        final(out)@ == old(out)@ + spec_board_grid(*turn, profile),
{
    let ghost base = out@;
    out.append("\n\t   A B C D E F G H\n");
    let mut row: usize = 0;
    while row < BOARD_SIZE
        invariant
            turn.wf(),
            row <= 8,
            out@ == base + "\n\t   A B C D E F G H\n"@ + spec_rows_prefix(
                *turn,
                profile,
                row as int,
            ),
        decreases 8 - row,
    {
        let ghost head = out@;
        push_char(out, '\t');
        let label: u8 = 49 + (row as u8);
        push_char(out, label as char);
        out.append("  ");
        proof {
            reveal_strlit("  ");
            assert(label as char == spec_row_label(row as int));
            assert(out@ =~= head + seq!['\t', spec_row_label(row as int), ' ', ' ']
                + spec_cells_prefix(*turn, profile, row as int, 0));
        }
        let mut col: usize = 0;
        while col < BOARD_SIZE
            invariant
                turn.wf(),
                row < 8,
                col <= 8,
                out@ == head + seq!['\t', spec_row_label(row as int), ' ', ' ']
                    + spec_cells_prefix(*turn, profile, row as int, col as int),
            decreases 8 - col,
        {
            let coord = Coord::new(row, col);
            let ch = match turn.get_cell(coord) {
                Some(side) => match side {
                    Side::Dark => profile.dark_disk(),
                    Side::Light => profile.light_disk(),
                },
                None => if turn.check_move(coord) {
                    profile.legal_move()
                } else {
                    profile.empty_cell()
                },
            };
            push_char(out, ch);
            push_char(out, ' ');
            proof {
                assert(ch == spec_cell_char(*turn, profile, row as int, col as int));
                assert(out@ =~= head + seq!['\t', spec_row_label(row as int), ' ', ' ']
                    + spec_cells_prefix(*turn, profile, row as int, col as int + 1));
            }
            col += 1;
        }
        push_char(out, ' ');
        push_char(out, label as char);
        push_char(out, '\n');
        proof {
            assert(out@ =~= head + spec_row_line(*turn, profile, row as int));
            assert(out@ =~= base + "\n\t   A B C D E F G H\n"@ + spec_rows_prefix(
                *turn,
                profile,
                row as int + 1,
            ));
        }
        row += 1;
    }
    out.append("\t   A B C D E F G H\n");
    proof {
        assert(out@ =~= base + spec_board_grid(*turn, profile));
    }
}

/// Appends the score line.
#[verifier::rlimit(100)]
fn push_score_line(out: &mut String, turn: &Turn, profile: RenderProfile)
    ensures
        final(out)@ == old(out)@ + spec_score_line(*turn, profile),
{
    let ghost base = out@;
    out.append("\t    ");
    if turn.score_dark < 10 {
        push_char(out, ' ');
    }
    push_decimal(out, turn.score_dark);
    proof {
        assert(out@ =~= base + "\t    "@ + spec_pad_left2(turn.score_dark as nat));
    }
    let ghost left_done = out@;
    push_char(out, ' ');
    push_char(out, profile.dark_disk());
    match turn.get_state() {
        Some(side) => match side {
            Side::Dark => out.append(" <<< "),
            Side::Light => out.append(" >>> "),
        },
        None => out.append("     "),
    }
    push_char(out, profile.light_disk());
    push_char(out, ' ');
    let ghost mid_done = out@;
    proof {
        let mid: Seq<char> = match turn.state {
            Some(side) => match side {
                Side::Dark => " <<< "@,
                Side::Light => " >>> "@,
            },
            None => "     "@,
        };
        assert(mid_done =~= left_done + seq![' ', profile.spec_dark_disk()] + mid + seq![
            profile.spec_light_disk(),
            ' ',
        ]);
    }
    push_decimal(out, turn.score_light);
    if turn.score_light < 10 {
        push_char(out, ' ');
    }
    proof {
        assert(out@ =~= mid_done + spec_pad_right2(turn.score_light as nat));
    }
    out.append("\n\n");
    proof {
        assert(out@ =~= base + spec_score_line(*turn, profile));
    }
}

/// Appends the end-of-game lines, or nothing while the game is ongoing.
fn push_outcome(out: &mut String, turn: &Turn, profile: RenderProfile)
    ensures
        final(out)@ == old(out)@ + spec_outcome_lines(*turn, profile),
{
    let ghost base = out@;
    match turn.get_state() {
        Some(_) => {
            proof {
                assert(out@ =~= base + spec_outcome_lines(*turn, profile));
            }
        },
        None => {
            if turn.score_dark > turn.score_light {
                push_char(out, '\t');
                push_char(out, profile.dark_disk());
                out.append(" Dark wins!\n");
            } else if turn.score_dark < turn.score_light {
                push_char(out, '\t');
                push_char(out, profile.light_disk());
                out.append(" Light wins!\n");
            } else {
                out.append("\tTie!\n");
            }
            proof {
                assert(out@ =~= base + spec_outcome_lines(*turn, profile));
            }
        },
    }
}

/// Renders the board, the scores, and, once the game has ended, the
/// winner or tie line, exactly as [`spec_draw_board`] lays them out.
pub fn draw_board(turn: &Turn, profile: RenderProfile) -> (r: String)
    requires
        turn.wf(),
    ensures
        r@ == spec_draw_board(*turn, profile),
{
    let mut out = String::new();
    push_grid(&mut out, turn, profile);
    push_char(&mut out, '\n');
    push_score_line(&mut out, turn, profile);
    push_outcome(&mut out, turn, profile);
    proof {
        assert(out@ =~= spec_draw_board(*turn, profile));
    }
    out
}

/// The line confirming a move: the side's glyph and name, then the cell
/// in letter-digit form.
pub open spec fn spec_move_message(side: Side, coord: Coord, p: RenderProfile) -> Seq<char> {
    let head: Seq<char> = match side {
        Side::Dark => seq!['\t', p.spec_dark_disk()] + " Dark  moves: "@,
        Side::Light => seq!['\t', p.spec_light_disk()] + " Light moves: "@,
    };
    head + seq![((97 + coord.col) as u32) as char, spec_digit_char(coord.row + 1)]
}

/// Formats the per-move confirmation line.
pub fn move_message(side: Side, coord: Coord, profile: RenderProfile) -> (r: String)
    requires
        coord.wf(),
    ensures
        r@ == spec_move_message(side, coord, profile),
{
    let mut out = String::new();
    push_char(&mut out, '\t');
    match side {
        Side::Dark => {
            push_char(&mut out, profile.dark_disk());
            out.append(" Dark  moves: ");
        },
        Side::Light => {
            push_char(&mut out, profile.light_disk());
            out.append(" Light moves: ");
        },
    }
    let col_char: u8 = 97 + (coord.get_col() as u8);
    push_char(&mut out, col_char as char);
    let row_char: u8 = 49 + (coord.get_row() as u8);
    push_char(&mut out, row_char as char);
    proof {
        assert(out@ =~= spec_move_message(side, coord, profile));
    }
    out
}

/// The notice shown when a player quits: one fixed message per side, and a
/// neutral goodbye when quitting from the menu, where no game is running.
pub open spec fn spec_quitting_message(state: Option<Side>) -> Seq<char> {
    match state {
        Some(side) => match side {
            Side::Dark => "\tDark is running away, the coward!"@,
            Side::Light => "\tLight is running away, the coward!"@,
        },
        None => "\n\tGoodbye!"@,
    }
}

/// Picks the quitting notice for `state`.
pub fn quitting_message(state: Option<Side>) -> (r: &'static str)
    ensures
        r@ == spec_quitting_message(state),
{
    match state {
        Some(side) => match side {
            Side::Dark => "\tDark is running away, the coward!",
            Side::Light => "\tLight is running away, the coward!",
        },
        None => "\n\tGoodbye!",
    }
}

/// The notice shown when a side has no move to undo.
pub open spec fn spec_no_undo_message(undecided: Side) -> Seq<char> {
    match undecided {
        Side::Dark => "\tThere is no move Dark can undo."@,
        Side::Light => "\tThere is no move Light can undo."@,
    }
}

/// Picks the no-undo notice for `undecided`.
pub fn no_undo_message(undecided: Side) -> (r: &'static str)
    ensures
        r@ == spec_no_undo_message(undecided),
{
    match undecided {
        Side::Dark => "\tThere is no move Dark can undo.",
        Side::Light => "\tThere is no move Light can undo.",
    }
}


proof fn lemma_cells_prefix_len(t: Turn, p: RenderProfile, row: int, n: int)
    requires
        0 <= n,
    ensures
        spec_cells_prefix(t, p, row, n).len() == 2 * n,
    decreases n,
{
    if n > 0 {
        lemma_cells_prefix_len(t, p, row, n - 1);
    }
}

proof fn lemma_row_line_len(t: Turn, p: RenderProfile, row: int)
    ensures
        spec_row_line(t, p, row).len() == 23,
{
    lemma_cells_prefix_len(t, p, row, 8);
}

proof fn lemma_rows_prefix_len(t: Turn, p: RenderProfile, n: int)
    requires
        0 <= n,
    ensures
        spec_rows_prefix(t, p, n).len() == 23 * n,
    decreases n,
{
    if n > 0 {
        lemma_rows_prefix_len(t, p, n - 1);
        lemma_row_line_len(t, p, n - 1);
    }
}

proof fn lemma_cells_prefix_index(t: Turn, p: RenderProfile, row: int, n: int, col: int)
    requires
        0 <= col < n,
    ensures
        spec_cells_prefix(t, p, row, n)[2 * col] == spec_cell_char(t, p, row, col),
    decreases n,
{
    lemma_cells_prefix_len(t, p, row, n - 1);
    if col < n - 1 {
        lemma_cells_prefix_index(t, p, row, n - 1, col);
    }
}

proof fn lemma_row_line_index(t: Turn, p: RenderProfile, row: int, col: int)
    requires
        0 <= col < 8,
    ensures
        spec_row_line(t, p, row)[4 + 2 * col] == spec_cell_char(t, p, row, col),
{
    lemma_cells_prefix_len(t, p, row, 8);
    lemma_cells_prefix_index(t, p, row, 8, col);
}

proof fn lemma_rows_prefix_index(t: Turn, p: RenderProfile, n: int, row: int, j: int)
    requires
        0 <= row < n,
        0 <= j < 23,
    ensures
        spec_rows_prefix(t, p, n)[23 * row + j] == spec_row_line(t, p, row)[j],
    decreases n,
{
    lemma_rows_prefix_len(t, p, n - 1);
    lemma_row_line_len(t, p, n - 1);
    if row < n - 1 {
        lemma_rows_prefix_index(t, p, n - 1, row, j);
    }
}

/// Index of the glyph for cell `(row, col)` within the rendered text.
pub open spec fn spec_cell_pos(row: int, col: int) -> int {
    21 + 23 * row + 4 + 2 * col
}

/// The rendered text shows, at `spec_cell_pos(row, col)`, exactly the
/// glyph [`spec_cell_char`] chooses for that cell.
pub proof fn lemma_draw_board_cell(t: Turn, p: RenderProfile, row: int, col: int)
    requires
        0 <= row < 8,
        0 <= col < 8,
    ensures
        spec_draw_board(t, p)[spec_cell_pos(row, col)] == spec_cell_char(t, p, row, col),
{
    reveal_strlit("\n\t   A B C D E F G H\n");
    assert("\n\t   A B C D E F G H\n"@.len() == 21);
    lemma_rows_prefix_len(t, p, 8);
    lemma_rows_prefix_index(t, p, 8, row, 4 + 2 * col);
    lemma_row_line_index(t, p, row, col);
}

/// Once the game has ended no cell of the rendered board carries the
/// legal-move marker, whatever the legality overlay holds: an empty cell
/// renders as the plain empty glyph.
pub proof fn lemma_game_over_no_marker(t: Turn, p: RenderProfile, row: int, col: int)
    requires
        t.state is None,
        0 <= row < 8,
        0 <= col < 8,
    ensures
        spec_draw_board(t, p)[spec_cell_pos(row, col)] != p.spec_legal_move(),
        t.spec_cell(row, col) is None ==> spec_draw_board(t, p)[spec_cell_pos(row, col)]
            == p.spec_empty_cell(),
{
    lemma_draw_board_cell(t, p, row, col);
}

/// While the game is ongoing an empty cell carries the legal-move marker
/// exactly when the authority's overlay reports it legal; an occupied
/// cell always shows the occupying side's disk, whatever the overlay
/// holds.
pub proof fn lemma_marker_iff_legal(t: Turn, p: RenderProfile, row: int, col: int)
    requires
        t.state is Some,
        0 <= row < 8,
        0 <= col < 8,
    ensures
        t.spec_cell(row, col) is None ==> ((spec_draw_board(t, p)[spec_cell_pos(row, col)]
            == p.spec_legal_move()) <==> t.spec_overlay(row, col)),
        t.spec_cell(row, col) == Some(Side::Dark) ==> spec_draw_board(t, p)[spec_cell_pos(
            row,
            col,
        )] == p.spec_dark_disk(),
        t.spec_cell(row, col) == Some(Side::Light) ==> spec_draw_board(t, p)[spec_cell_pos(
            row,
            col,
        )] == p.spec_light_disk(),
{
    lemma_draw_board_cell(t, p, row, col);
}

/// End-of-game winner determination is a strict three-way comparison of
/// the two disk counts: more Dark disks yield the Dark winner line, fewer
/// the Light winner line, and equal counts the tie line.
pub proof fn lemma_outcome_three_way(t: Turn, p: RenderProfile)
    requires
        t.state is None,
    ensures
        t.score_dark > t.score_light ==> spec_outcome_lines(t, p) == seq![
            '\t',
            p.spec_dark_disk(),
        ] + " Dark wins!\n"@,
        t.score_dark < t.score_light ==> spec_outcome_lines(t, p) == seq![
            '\t',
            p.spec_light_disk(),
        ] + " Light wins!\n"@,
        t.score_dark == t.score_light ==> spec_outcome_lines(t, p) == "\tTie!\n"@,
{
}

/// The quitting notice is keyed exactly on the optional side value:
/// distinct states always yield distinct messages.
pub proof fn lemma_quitting_message_distinct(s1: Option<Side>, s2: Option<Side>)
    requires
        s1 != s2,
    ensures
        spec_quitting_message(s1) != spec_quitting_message(s2),
{
    reveal_strlit("\tDark is running away, the coward!");
    reveal_strlit("\tLight is running away, the coward!");
    reveal_strlit("\n\tGoodbye!");
    assert("\tDark is running away, the coward!"@.len() == 34);
    assert("\tLight is running away, the coward!"@.len() == 35);
    assert("\n\tGoodbye!"@.len() == 10);
}

} // verus!
