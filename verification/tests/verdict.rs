//! The verdict across the board once a game is lost.

use tui_tui::games::chess::app::Ending;
use tui_tui::games::chess::controls::Side;
use tui_tui::games::chess::ui::{Geometry, Square};
use tui_tui::games::chess::verdict::{banner_big, banner_rows, glyph, verdict_box, verdict_text};
use tui_tui::ui::Rect;

#[test]
fn the_verdict_names_the_winner_to_whoever_is_looking() {
    let mate = Ending::Checkmate;
    let resign = Ending::Resignation;
    assert_eq!(verdict_text(mate, Some(Side::White), Side::White, "bob"), "bob wins");
    assert_eq!(verdict_text(mate, Some(Side::White), Side::Black, "bob"), "you win");
    assert_eq!(verdict_text(mate, None, Side::Black, "bob"), "white wins");
    assert_eq!(verdict_text(resign, Some(Side::Black), Side::Black, "bob"), "you resigned");
    assert_eq!(
        verdict_text(resign, Some(Side::Black), Side::White, "bob"),
        "bob resigned \u{b7} you win"
    );
    assert_eq!(
        verdict_text(resign, None, Side::White, "bob"),
        "white resigns \u{b7} black wins"
    );
}

#[test]
fn the_word_is_spelled_out_a_letter_at_a_time() {
    let small = banner_rows(Ending::Checkmate, 3, false);
    assert_eq!(small.len(), 1);
    assert_eq!(small[0].concat(), format!("C H E {}", " ".repeat(12)));
    let big = banner_rows(Ending::Resignation, 1, true);
    assert_eq!(big.len(), 5);
    assert_eq!(big[0].len(), 8);
    assert_eq!(big[0][0], glyph('R')[0]);
    assert_eq!(big[2][1], "     ");
    assert_eq!(glyph('x'), ["     "; 5]);
}

#[test]
fn the_verdict_keeps_clear_of_the_losing_king() {
    let g = Geometry::new(Rect::new(0, 0, 200, 60));
    assert!(banner_big(g.board, Ending::Checkmate));
    let half = g.grid.height / 2;
    // The king at the bottom of the screen: the verdict goes in the top half.
    let low = verdict_box(&g, Ending::Resignation, false, Some(Square { file: 4, rank: 0 }), false);
    assert!(low.y >= g.grid.y && low.bottom() <= g.grid.y + half);
    let high = verdict_box(&g, Ending::Resignation, false, Some(Square { file: 4, rank: 7 }), false);
    assert!(high.y >= g.grid.y + half);
    let flipped = verdict_box(&g, Ending::Resignation, false, Some(Square { file: 4, rank: 0 }), true);
    assert_eq!(flipped, high);
    assert!(low.width >= 30);
    // A small board takes the small word, in the middle of the board.
    let small = Geometry::new(Rect::new(0, 0, 60, 18));
    assert!(!banner_big(small.board, Ending::Checkmate));
    let b = verdict_box(&small, Ending::Checkmate, true, None, false);
    assert!(b.x >= small.board.x && b.right() <= small.board.right());
}
