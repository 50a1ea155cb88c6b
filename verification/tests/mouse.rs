//! Click-to-square mapping.

use tui_tui::games::chess::ui::{Geometry, Square};
use tui_tui::ui::Rect;

fn geometry(w: u16, h: u16) -> Geometry {
    Geometry::new(Rect::new(0, 0, w, h))
}

/// The middle of a square on screen — the inverse of `square_at`.
fn centre_of(g: &Geometry, sq: Square, flipped: bool) -> (u16, u16) {
    let (cw, ch) = g.cell;
    let (file, rank) = (sq.file as u16, sq.rank as u16);
    let col = if flipped { 7 - file } else { file };
    let row = if flipped { rank } else { 7 - rank };
    (g.grid.x + col * cw + cw / 2, g.grid.y + row * ch + ch / 2)
}

fn all_squares() -> Vec<Square> {
    let mut all = Vec::new();
    for rank in 0..8u8 {
        for file in 0..8u8 {
            all.push(Square { file, rank });
        }
    }
    all
}

#[test]
fn the_board_grows_with_the_terminal() {
    let small = geometry(80, 24).cell;
    let big = geometry(120, 40).cell;
    assert!(
        big.0 > small.0 && big.1 > small.1,
        "{big:?} should beat {small:?}"
    );
    // Even a cramped terminal still gets a whole board rather than a clipped one.
    let tiny = geometry(60, 18);
    assert_eq!(tiny.grid.width % 8, 0);
    assert!(tiny.grid.right() <= 60 && tiny.grid.bottom() <= 18);
}

#[test]
fn clicks_land_on_the_right_square() {
    for (w, h) in [(80, 24), (100, 30), (120, 40), (60, 18)] {
        let g = geometry(w, h);
        for flipped in [false, true] {
            for sq in all_squares() {
                let (x, y) = centre_of(&g, sq, flipped);
                assert_eq!(
                    g.square_at(x, y, flipped),
                    Some(sq),
                    "{sq:?} at {w}x{h} flipped={flipped}"
                );
            }
        }
    }
}

#[test]
fn clicks_off_the_grid_hit_nothing() {
    let g = geometry(100, 30);
    // The rank gutter, the border, and the sidebar are not playable.
    assert_eq!(g.square_at(g.board.x, g.grid.y, false), None);
    assert_eq!(g.square_at(g.sidebar.x + 2, g.grid.y, false), None);
    assert_eq!(g.square_at(g.grid.x, g.grid.bottom(), false), None);
    assert_eq!(g.square_at(g.grid.right(), g.grid.y, false), None);
}

#[test]
fn the_biggest_square_that_fits_is_picked() {
    assert_eq!(geometry(80, 24).cell, (5, 2));
    assert_eq!(geometry(120, 40).cell, (9, 4));
    assert_eq!(geometry(200, 60).cell, (11, 5));
    assert_eq!(geometry(20, 10).cell, (3, 1));
}

#[test]
fn every_square_lies_inside_the_board_and_the_screen() {
    for (w, h) in [(80, 24), (100, 30), (120, 40), (60, 18), (200, 60)] {
        let g = geometry(w, h);
        assert_eq!(g.grid.width, 8 * g.cell.0);
        assert_eq!(g.grid.height, 8 * g.cell.1);
        assert!(g.grid.x >= g.board.x && g.grid.right() <= g.board.right());
        assert!(g.grid.y >= g.board.y && g.grid.bottom() <= g.board.bottom());
        assert!(g.footer.bottom() <= h && g.sidebar.right() <= w);
    }
}

#[test]
fn each_promotion_choice_has_its_own_column() {
    let g = geometry(100, 30);
    let row = g.promo.y + 1;
    for i in 0..4u16 {
        let x = g.promo.x + 1 + i * g.promo_cell;
        assert_eq!(g.promo_at(x, row), Some(i as usize));
    }
    assert_eq!(g.promo_at(g.promo.x, row), None);
    assert_eq!(g.promo_at(g.promo.x + 1, g.promo.y), None);
}

#[test]
fn a_rectangle_knows_its_edges() {
    let r = Rect::new(3, 4, 10, 5);
    assert_eq!(r.right(), 13);
    assert_eq!(r.bottom(), 9);
    assert!(r.contains(3, 4) && r.contains(12, 8));
    assert!(!r.contains(13, 8) && !r.contains(12, 9) && !r.contains(2, 4));
    assert_eq!(Rect::new(u16::MAX - 1, 0, 5, 1).right(), u16::MAX);
}

#[test]
fn centring_shrinks_to_fit() {
    let area = Rect::new(10, 20, 80, 24);
    assert_eq!(tui_tui::ui::centred(area, 40, 10), Rect::new(30, 27, 40, 10));
    assert_eq!(tui_tui::ui::centred(area, 100, 30), area);
    assert_eq!(tui_tui::ui::centred(area, 41, 11), Rect::new(29, 26, 41, 11));
}
