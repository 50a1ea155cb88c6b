//! Reads the half-block sprites back out of the cells drawn for a square. A
//! piece that would look wrong on screen fails here.

use tui_tui::games::chess::controls::Side;
use tui_tui::games::chess::pieces::{piece_cell, piece_ink, Rgb, Role};
use tui_tui::games::chess::ui::{Geometry, PieceStyle};
use tui_tui::ui::Rect;

/// Every role, in the order the back rank and the pawns bring them out.
const ROLES: [Role; 6] = [
    Role::Rook,
    Role::Knight,
    Role::Bishop,
    Role::Queen,
    Role::King,
    Role::Pawn,
];

/// The square's own colour, which no piece is drawn in.
const SQUARE: Rgb = Rgb(118, 150, 86);

/// The pixel grid drawn for one square of a `w` by `h` screen: `O` body,
/// `#` outline, `.` the square showing through.
fn silhouette(style: PieceStyle, w: u16, h: u16, role: Role, side: Side) -> Vec<String> {
    let g = Geometry::new(Rect::new(0, 0, w, h));
    let (cw, ch) = g.cell;
    let (fill, line) = piece_ink(style, side);
    let ink = |c: Rgb| {
        if c == fill {
            'O'
        } else if c == line {
            '#'
        } else {
            '.'
        }
    };
    let mut rows = Vec::new();
    for sub in 0..ch {
        let (mut top, mut bottom) = (String::new(), String::new());
        for cell in piece_cell(role, side, sub, cw, ch, style, SQUARE) {
            if cell.text == "\u{2580}" {
                top.push(ink(cell.fg.unwrap_or(SQUARE)));
                bottom.push(ink(cell.bg));
            } else {
                for _ in cell.text.chars() {
                    top.push('.');
                    bottom.push('.');
                }
            }
        }
        rows.push(top);
        rows.push(bottom);
    }
    rows
}

/// The text drawn in one square, its rows run together.
fn text_in_square(style: PieceStyle, w: u16, h: u16, role: Role) -> String {
    let g = Geometry::new(Rect::new(0, 0, w, h));
    let (cw, ch) = g.cell;
    (0..ch)
        .flat_map(|sub| piece_cell(role, Side::White, sub, cw, ch, style, SQUARE))
        .map(|c| c.text)
        .collect()
}

fn luma(c: Rgb) -> f32 {
    0.299 * f32::from(c.0) + 0.587 * f32::from(c.1) + 0.114 * f32::from(c.2)
}

#[test]
fn pieces_every_piece_is_drawn_and_stands_on_its_square() {
    for (w, h) in [(100, 30), (120, 40)] {
        for role in ROLES {
            let grid = silhouette(PieceStyle::Blocks, w, h, role, Side::White);
            let inked = grid.iter().flat_map(|r| r.chars()).filter(|c| *c != '.').count();
            assert!(inked > 10, "{role:?} is nearly blank at {w}x{h}: {grid:#?}");

            let base = grid.last().unwrap();
            assert!(base.contains("###"), "{role:?} has no base to stand on at {w}x{h}: {base:?}");
        }
    }
}

#[test]
fn pieces_the_six_pieces_are_told_apart() {
    for (w, h) in [(100, 30), (120, 40)] {
        let drawn: Vec<(Role, Vec<String>)> = ROLES
            .into_iter()
            .map(|role| (role, silhouette(PieceStyle::Blocks, w, h, role, Side::White)))
            .collect();
        for (i, (a_role, a)) in drawn.iter().enumerate() {
            for (b_role, b) in &drawn[i + 1..] {
                assert_ne!(a, b, "{a_role:?} and {b_role:?} look identical at {w}x{h}");
            }
        }
    }
}

#[test]
fn both_sides_share_a_shape() {
    for role in ROLES {
        let white = silhouette(PieceStyle::Blocks, 120, 40, role, Side::White);
        let black = silhouette(PieceStyle::Blocks, 120, 40, role, Side::Black);
        assert_eq!(white, black, "{role:?} differs between the two sides");
    }
}

#[test]
fn small_squares_fall_back_instead_of_going_blank() {
    // 80x24 gives 5x2 squares, too small for a sprite.
    let grid = silhouette(PieceStyle::Blocks, 80, 24, Role::King, Side::White);
    assert!(
        grid.iter().all(|r| r.chars().all(|c| c == '.')),
        "no sprite should be drawn at this size"
    );
    // Something must still be on the square, just not made of half blocks.
    let drawn = text_in_square(PieceStyle::Blocks, 80, 24, Role::King);
    assert!(drawn.contains('\u{265a}'), "expected a figurine fallback, got {drawn:?}");
}

#[test]
fn both_sides_are_outlined_in_near_black() {
    for side in [Side::White, Side::Black] {
        let (fill, line) = piece_ink(PieceStyle::Blocks, side);
        assert!(luma(line) < 50.0, "{side:?} outline is not near-black: {line:?}");
        // The body has to sit far enough off the outline for it to show.
        assert!(
            (luma(fill) - luma(line)).abs() > 30.0,
            "{side:?} body and outline are too close: {fill:?} vs {line:?}"
        );
    }
    // And the two sides must still be obvious apart.
    let (white, _) = piece_ink(PieceStyle::Blocks, Side::White);
    let (black, _) = piece_ink(PieceStyle::Blocks, Side::Black);
    assert!(luma(white) - luma(black) > 120.0, "the two sides look alike");
}

#[test]
fn big_letters_are_drawn_and_told_apart() {
    let drawn: Vec<(Role, Vec<String>)> = ROLES
        .into_iter()
        .map(|role| (role, silhouette(PieceStyle::BigLetter, 120, 40, role, Side::White)))
        .collect();
    for (role, grid) in &drawn {
        let strokes = grid.iter().flat_map(|r| r.chars()).filter(|c| *c == 'O').count();
        assert!(strokes > 8, "{role:?} has almost no letter in it: {grid:#?}");
    }
    for (i, (a_role, a)) in drawn.iter().enumerate() {
        for (b_role, b) in &drawn[i + 1..] {
            assert_ne!(a, b, "{a_role:?} and {b_role:?} read the same");
        }
    }
}

#[test]
fn a_black_letter_reads_against_its_border() {
    let (black, border) = piece_ink(PieceStyle::BigLetter, Side::Black);
    let (white, white_border) = piece_ink(PieceStyle::BigLetter, Side::White);
    // The border stays near-black on both sides, as it is for the sprites.
    assert!(luma(border) < 50.0 && luma(white_border) < 50.0);
    // A letter is thin, so its stroke has to clear its own border.
    assert!(
        luma(black) - luma(border) > 60.0,
        "black strokes vanish into their border: {black:?} on {border:?}"
    );
    // And the two sides still have to be obvious apart.
    assert!(luma(white) - luma(black) > 90.0, "the two sides look alike");
}

#[test]
fn big_letters_fall_back_on_a_small_square() {
    // 80x24 gives 5x2 squares: too small for the 7x7 outlined letter.
    let drawn = text_in_square(PieceStyle::BigLetter, 80, 24, Role::King);
    assert!(drawn.contains('K'), "expected a plain letter fallback, got {drawn:?}");
}
