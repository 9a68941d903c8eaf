use rusthello::game::{Coord, Side};
use rusthello::render::{
    draw_board, move_message, no_undo_message, quitting_message, RenderProfile,
};
use rusthello::turn::Turn;

fn opening_turn() -> Turn {
    let mut cells: Vec<Option<Side>> = vec![None; 64];
    cells[3 * 8 + 3] = Some(Side::Light);
    cells[3 * 8 + 4] = Some(Side::Dark);
    cells[4 * 8 + 3] = Some(Side::Dark);
    cells[4 * 8 + 4] = Some(Side::Light);
    let mut legal = vec![false; 64];
    for &(r, c) in &[(2usize, 3usize), (3, 2), (4, 5), (5, 4)] {
        legal[r * 8 + c] = true;
    }
    Turn::new(cells, legal, Some(Side::Dark), 2, 2)
}

fn ended_turn(score_dark: u64, score_light: u64, legal_everywhere: bool) -> Turn {
    let mut cells: Vec<Option<Side>> = vec![None; 64];
    cells[0] = Some(Side::Dark);
    cells[1] = Some(Side::Light);
    let legal = vec![legal_everywhere; 64];
    Turn::new(cells, legal, None, score_dark, score_light)
}

// Index of the glyph for cell (row, col) in the rendered text.
fn cell_pos(row: usize, col: usize) -> usize {
    21 + 23 * row + 4 + 2 * col
}

#[test]
fn opening_position_renders_exactly() {
    let text = draw_board(&opening_turn(), RenderProfile::Symbols);
    let expected: String = [
        "\n\t   A B C D E F G H\n",
        "\t1  \u{2219} \u{2219} \u{2219} \u{2219} \u{2219} \u{2219} \u{2219} \u{2219}  1\n",
        "\t2  \u{2219} \u{2219} \u{2219} \u{2219} \u{2219} \u{2219} \u{2219} \u{2219}  2\n",
        "\t3  \u{2219} \u{2219} \u{2219} * \u{2219} \u{2219} \u{2219} \u{2219}  3\n",
        "\t4  \u{2219} \u{2219} * \u{25cb} \u{25cf} \u{2219} \u{2219} \u{2219}  4\n",
        "\t5  \u{2219} \u{2219} \u{2219} \u{25cf} \u{25cb} * \u{2219} \u{2219}  5\n",
        "\t6  \u{2219} \u{2219} \u{2219} \u{2219} * \u{2219} \u{2219} \u{2219}  6\n",
        "\t7  \u{2219} \u{2219} \u{2219} \u{2219} \u{2219} \u{2219} \u{2219} \u{2219}  7\n",
        "\t8  \u{2219} \u{2219} \u{2219} \u{2219} \u{2219} \u{2219} \u{2219} \u{2219}  8\n",
        "\t   A B C D E F G H\n",
        "\n",
        "\t     2 \u{25cf} <<< \u{25cb} 2 \n\n",
    ]
    .join("");
    assert_eq!(text, expected);
}

#[test]
fn ascii_profile_glyphs() {
    let text = draw_board(&opening_turn(), RenderProfile::Ascii);
    let chars: Vec<char> = text.chars().collect();
    assert_eq!(chars[cell_pos(3, 3)], 'O');
    assert_eq!(chars[cell_pos(3, 4)], 'X');
    assert_eq!(chars[cell_pos(3, 2)], ' ');
    assert_eq!(chars[cell_pos(0, 0)], '-');
    assert!(text.contains("X <<< O"));
}

#[test]
fn ongoing_marker_iff_legal() {
    let turn = opening_turn();
    let text = draw_board(&turn, RenderProfile::Symbols);
    let chars: Vec<char> = text.chars().collect();
    for row in 0..8 {
        for col in 0..8 {
            let ch = chars[cell_pos(row, col)];
            match turn.get_cell(Coord::new(row, col)) {
                Some(Side::Dark) => assert_eq!(ch, '\u{25cf}'),
                Some(Side::Light) => assert_eq!(ch, '\u{25cb}'),
                None => {
                    let legal = turn.check_move(Coord::new(row, col));
                    assert_eq!(ch == '*', legal, "cell ({}, {})", row, col);
                }
            }
        }
    }
}

#[test]
fn game_over_never_marks_legal_moves() {
    // The overlay claims every cell is legal; an ended game must ignore it.
    let text = draw_board(&ended_turn(2, 1, true), RenderProfile::Symbols);
    assert!(!text.contains('*'));
    let chars: Vec<char> = text.chars().collect();
    assert_eq!(chars[cell_pos(0, 0)], '\u{25cf}');
    assert_eq!(chars[cell_pos(0, 1)], '\u{25cb}');
    assert_eq!(chars[cell_pos(5, 5)], '\u{2219}');
}

#[test]
fn winner_three_way() {
    let dark = draw_board(&ended_turn(40, 24, false), RenderProfile::Symbols);
    assert!(dark.ends_with("\t    40 \u{25cf}     \u{25cb} 24\n\n\t\u{25cf} Dark wins!\n"));
    let light = draw_board(&ended_turn(24, 40, false), RenderProfile::Symbols);
    assert!(light.ends_with("\t\u{25cb} Light wins!\n"));
    let tie = draw_board(&ended_turn(32, 32, false), RenderProfile::Symbols);
    assert!(tie.ends_with("\tTie!\n"));
    let ascii = draw_board(&ended_turn(3, 2, false), RenderProfile::Ascii);
    assert!(ascii.ends_with("\tX Dark wins!\n"));
}

#[test]
fn score_line_padding() {
    let mut cells: Vec<Option<Side>> = vec![None; 64];
    cells[0] = Some(Side::Light);
    let turn = Turn::new(cells, vec![false; 64], Some(Side::Light), 12, 5);
    let text = draw_board(&turn, RenderProfile::Symbols);
    assert!(text.contains("\t    12 \u{25cf} >>> \u{25cb} 5 \n\n"));
    let wide = Turn::new(vec![None; 64], vec![false; 64], Some(Side::Dark), 100, 0);
    let text = draw_board(&wide, RenderProfile::Symbols);
    assert!(text.contains("\t    100 \u{25cf} <<< \u{25cb} 0 \n\n"));
}

#[test]
fn move_messages() {
    assert_eq!(
        move_message(Side::Dark, Coord::new(3, 2), RenderProfile::Symbols),
        "\t\u{25cf} Dark  moves: c4"
    );
    assert_eq!(
        move_message(Side::Light, Coord::new(0, 0), RenderProfile::Symbols),
        "\t\u{25cb} Light moves: a1"
    );
    assert_eq!(
        move_message(Side::Dark, Coord::new(7, 7), RenderProfile::Ascii),
        "\tX Dark  moves: h8"
    );
}

#[test]
fn quitting_messages_distinct_per_state() {
    assert_eq!(
        quitting_message(Some(Side::Dark)),
        "\tDark is running away, the coward!"
    );
    assert_eq!(
        quitting_message(Some(Side::Light)),
        "\tLight is running away, the coward!"
    );
    assert_eq!(quitting_message(None), "\n\tGoodbye!");
    assert_ne!(quitting_message(Some(Side::Dark)), quitting_message(Some(Side::Light)));
    assert_ne!(quitting_message(Some(Side::Dark)), quitting_message(None));
    assert_ne!(quitting_message(Some(Side::Light)), quitting_message(None));
}

#[test]
fn no_undo_messages() {
    assert_eq!(
        no_undo_message(Side::Dark),
        "\tThere is no move Dark can undo."
    );
    assert_eq!(
        no_undo_message(Side::Light),
        "\tThere is no move Light can undo."
    );
}
