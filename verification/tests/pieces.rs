//! How a piece looks in its square, and the words around the board.

use tui_tui::games::chess::controls::Side;
use tui_tui::games::chess::panels::{ago, centre, chess_footer, footer_keys, move_lines, tray_text};
use tui_tui::games::chess::pieces::{
    canvas_dots, piece_cell, piece_ink, piece_rows, sprite_big, sprite_for, sprite_origin,
    square_colour, Dots, Pixel, Rgb, Role,
};
use tui_tui::games::chess::ui::PieceStyle;
use tui_tui::games::chrome::Tone;

const ROLES: [Role; 6] = [
    Role::King,
    Role::Queen,
    Role::Rook,
    Role::Bishop,
    Role::Knight,
    Role::Pawn,
];

const STYLES: [PieceStyle; 7] = [
    PieceStyle::Octant,
    PieceStyle::Braille,
    PieceStyle::Blocks,
    PieceStyle::BigLetter,
    PieceStyle::Art,
    PieceStyle::Figurine,
    PieceStyle::Letter,
];

const SIZES: [(u16, u16); 5] = [(3, 1), (5, 2), (7, 3), (9, 4), (11, 5)];

#[test]
fn every_cell_is_exactly_as_wide_as_its_square() {
    let bg = Rgb(1, 2, 3);
    for style in STYLES {
        for (cw, ch) in SIZES {
            for role in ROLES {
                for side in [Side::White, Side::Black] {
                    for sub in 0..ch {
                        let cells = piece_cell(role, side, sub, cw, ch, style, bg);
                        let width: usize = cells.iter().map(|c| c.text.chars().count()).sum();
                        assert_eq!(width, cw as usize, "{style:?} {role:?} at {cw}x{ch}");
                    }
                }
            }
        }
    }
}

#[test]
fn every_piece_is_drawn_in_its_square() {
    // Something of every piece shows, whatever the style and size.
    let bg = Rgb(1, 2, 3);
    for style in [PieceStyle::Blocks, PieceStyle::BigLetter, PieceStyle::Art, PieceStyle::Letter] {
        for (cw, ch) in SIZES {
            for role in ROLES {
                let inked = (0..ch)
                    .flat_map(|sub| piece_cell(role, Side::Black, sub, cw, ch, style, bg))
                    .any(|c| c.fg.is_some() && c.text.chars().any(|ch| ch != ' '));
                assert!(inked, "{style:?} {role:?} is blank at {cw}x{ch}");
            }
        }
    }
}

#[test]
fn sprites_are_picked_by_the_room_there_is() {
    assert!(sprite_for(PieceStyle::Blocks, 11, 5, Role::King).unwrap().rows.len() == 8);
    assert!(sprite_for(PieceStyle::Octant, 9, 4, Role::King).unwrap().rows.len() == 7);
    assert!(sprite_for(PieceStyle::Braille, 7, 3, Role::King).unwrap().rows.len() == 5);
    assert!(sprite_for(PieceStyle::Blocks, 5, 2, Role::King).is_none());
    assert!(sprite_for(PieceStyle::Art, 11, 5, Role::King).is_none());
    let font = sprite_for(PieceStyle::BigLetter, 9, 4, Role::Knight).unwrap();
    assert!(font.outline);
    assert_eq!((font.width(), font.height()), (7, 7));
    assert!(sprite_for(PieceStyle::BigLetter, 7, 3, Role::Knight).is_none());
    assert_eq!(canvas_dots(PieceStyle::Octant, 9, 4), Some(Dots::Octant));
    assert_eq!(canvas_dots(PieceStyle::Braille, 11, 5), Some(Dots::Braille));
    assert_eq!(canvas_dots(PieceStyle::Octant, 7, 3), None);
    assert_eq!(canvas_dots(PieceStyle::Blocks, 11, 5), None);
}

#[test]
fn a_sprite_stands_on_its_square() {
    let king = sprite_big(Role::King);
    assert_eq!((king.width(), king.height()), (9, 8));
    assert_eq!(sprite_origin(&king, 11, 5), (1, 1));
    assert_eq!(king.at(4, 0), Some(Pixel::Fill));
    assert_eq!(king.at(1, 7), Some(Pixel::Line));
    assert_eq!(king.at(0, 0), None);
    // Out of range reads as transparent.
    assert_eq!(king.at(100, 100), None);
    assert_eq!(king.raw(-1, 0), None);
}

#[test]
fn an_outline_grows_round_a_letter() {
    let k = sprite_for(PieceStyle::BigLetter, 9, 4, Role::King).unwrap();
    // The letter K starts in its top left corner, one pixel in.
    assert_eq!(k.at(1, 1), Some(Pixel::Fill));
    assert_eq!(k.at(0, 0), Some(Pixel::Line));
    assert_eq!(k.at(6, 6), Some(Pixel::Line));
    assert_eq!(k.at(8, 8), None);
}

#[test]
fn small_squares_fall_back_to_text() {
    let bg = Rgb(0, 0, 0);
    let cells = piece_cell(Role::Knight, Side::White, 0, 5, 2, PieceStyle::Blocks, bg);
    assert_eq!(cells.len(), 1);
    assert_eq!(cells[0].text, "     ");
    let cells = piece_cell(Role::Knight, Side::White, 1, 5, 2, PieceStyle::Blocks, bg);
    assert_eq!(cells[0].text, "  \u{265e}  ");
    assert!(cells[0].bold);
    let cells = piece_cell(Role::Queen, Side::Black, 0, 3, 1, PieceStyle::Letter, bg);
    assert_eq!(cells[0].text, " Q ");
    assert!(!cells[0].bold);
    assert_eq!(cells[0].fg, Some(piece_ink(PieceStyle::Letter, Side::Black).0));
    let art = piece_rows(Role::Rook, PieceStyle::Art, 3);
    assert_eq!(art, ["|-|", "(R)", "/_\\"]);
    assert_eq!(piece_rows(Role::Rook, PieceStyle::Art, 2), ["\u{265c}"]);
    let canvas = piece_cell(Role::Pawn, Side::White, 2, 9, 4, PieceStyle::Octant, bg);
    assert_eq!(canvas.len(), 1);
    assert_eq!(canvas[0].text, " ".repeat(9));
    assert_eq!(canvas[0].fg, None);
}

#[test]
fn both_sides_share_a_shape_in_their_own_colours() {
    let bg = Rgb(9, 9, 9);
    let (white_fill, white_line) = piece_ink(PieceStyle::Blocks, Side::White);
    let (black_fill, black_line) = piece_ink(PieceStyle::Blocks, Side::Black);
    assert_ne!(white_fill, black_fill);
    for sub in 0..5 {
        let w = piece_cell(Role::Bishop, Side::White, sub, 11, 5, PieceStyle::Blocks, bg);
        let b = piece_cell(Role::Bishop, Side::Black, sub, 11, 5, PieceStyle::Blocks, bg);
        for (x, y) in w.iter().zip(&b) {
            assert_eq!(x.text, y.text);
            let swap = |c: Rgb| {
                if c == white_fill {
                    black_fill
                } else if c == white_line {
                    black_line
                } else {
                    c
                }
            };
            assert_eq!(x.fg.map(swap), y.fg);
            assert_eq!(swap(x.bg), y.bg);
        }
    }
}

#[test]
fn squares_alternate_and_mark_the_last_move() {
    assert_eq!(square_colour(0, 0, false), Rgb(137, 99, 73));
    assert_eq!(square_colour(1, 0, false), Rgb(214, 194, 162));
    assert_eq!(square_colour(0, 0, true), Rgb(163, 150, 71));
    assert_eq!(square_colour(7, 0, true), Rgb(206, 204, 122));
}

#[test]
fn the_move_list_pairs_and_numbers_the_moves() {
    let history: Vec<String> = ["e4", "e5", "Nf3", "Nc6", "Bb5"]
        .iter()
        .map(|s| s.to_string())
        .collect();
    let lines = move_lines(&history, 10);
    assert_eq!(lines.len(), 3);
    assert_eq!(
        lines[0],
        ("  1. ".to_string(), "e4      ".to_string(), "e5".to_string())
    );
    assert_eq!(
        lines[2],
        ("  3. ".to_string(), "Bb5     ".to_string(), String::new())
    );
    // Only the tail of the game is kept when it does not fit.
    let tail = move_lines(&history, 2);
    assert_eq!(tail.len(), 2);
    assert_eq!(tail[0].0, "  2. ");
    assert!(move_lines(&Vec::new(), 5).is_empty());
    let long: Vec<String> = (0..2000).map(|_| "a3".to_string()).collect();
    assert_eq!(move_lines(&long, 1)[0].0, "1000. ");
}

#[test]
fn the_footer_narrows_with_the_terminal() {
    assert!(footer_keys(false, 100).contains("arrows/hjkl"));
    assert!(!footer_keys(false, 70).contains("arrows"));
    assert!(footer_keys(false, 70).contains("d draw"));
    assert_eq!(footer_keys(false, 40), "click to move   f flip   r resign   q lobby");
    assert!(footer_keys(true, 100).starts_with("click a piece"));
    let asking = chess_footer(false, true, false, 100);
    assert_eq!(asking.text, "resign this game?   y resign   n cancel");
    assert_eq!(asking.tone, Tone::Asking);
    assert_eq!(chess_footer(false, false, false, 40).tone, Tone::Muted);
}

#[test]
fn the_tray_shows_captures_and_the_edge() {
    let taken = vec![Role::Pawn, Role::Knight];
    assert_eq!(tray_text(&taken, false, 4), "\u{265f}\u{265e}  +4");
    assert_eq!(tray_text(&taken, true, 0), "PN");
    assert_eq!(tray_text(&Vec::new(), true, -3), "");
}

#[test]
fn times_are_told_in_the_coarsest_unit() {
    let now = 1_000_000_000;
    assert_eq!(ago(now, now - 59), "just now");
    assert_eq!(ago(now, now - 60), "1m ago");
    assert_eq!(ago(now, now - 3599), "59m ago");
    assert_eq!(ago(now, now - 7200), "2h ago");
    assert_eq!(ago(now, now - 86_400), "yesterday");
    assert_eq!(ago(now, now - 3 * 86_400), "3d ago");
    assert_eq!(ago(now, now - 15 * 86_400), "2w ago");
    assert_eq!(ago(now, now + 10), "just now");
}

#[test]
fn text_is_centred_or_cut() {
    assert_eq!(centre("K", 5), "  K  ");
    assert_eq!(centre("ab", 5), " ab  ");
    assert_eq!(centre("abcdef", 3), "abc");
    assert_eq!(centre("", 2), "  ");
}
