//! What keys and the peer's messages do to a game of chess in progress.

use tui_tui::games::chess::controls::{
    promotion_key, Action, Controls, Draw, Facts, Mood, Pointer, Pointing, Promotion, PromotionStep,
    Side, Standing,
};
use tui_tui::games::chess::ui::{Geometry, PieceStyle, Square};
use tui_tui::ui::Rect;
use tui_tui::keys::{Key, KeyCode};

fn facts() -> Facts {
    Facts {
        promoting: false,
        ending: false,
        ended: false,
        animating: false,
        selected: false,
        over: false,
        networked: true,
        my_turn: true,
    }
}

fn standing() -> Standing {
    Standing {
        resigned: None,
        checkmate: false,
        stalemate: false,
        insufficient_material: false,
        check: false,
        turn: Side::White,
        my_turn: true,
    }
}

#[test]
fn the_seat_decides_the_side() {
    assert!(Controls::new(Some(Side::Black)).flipped, "black sits behind black's pieces");
    assert!(!Controls::new(Some(Side::White)).flipped);
    assert!(!Controls::new(None).flipped);
    let c = Controls::new(None);
    assert_eq!(c.piece_style, PieceStyle::Octant);
    assert!(c.mouse && c.note.is_none());
}

#[test]
fn the_cursor_moves_in_screen_terms() {
    let mut c = Controls::new(None);
    let k = |code| Key::new(code);
    assert_eq!(c.on_key(k(KeyCode::Left), facts()), Action::Nudge(-1, 0));
    assert_eq!(c.on_key(k(KeyCode::Char('k')), facts()), Action::Nudge(0, 1));
    c.on_key(k(KeyCode::Char('f')), facts());
    assert!(c.flipped);
    assert_eq!(c.on_key(k(KeyCode::Left), facts()), Action::Nudge(1, 0));
    assert_eq!(c.on_key(k(KeyCode::Char('j')), facts()), Action::Nudge(0, 1));
}

#[test]
fn keys_toggle_the_view() {
    let mut c = Controls::new(None);
    c.on_key(Key::new(KeyCode::Char('p')), facts());
    assert_eq!(c.piece_style, PieceStyle::Braille);
    c.on_key(Key::new(KeyCode::Char('m')), facts());
    assert!(!c.mouse);
    assert_eq!(c.on_key(Key::new(KeyCode::Char('c')), facts()), Action::CopyShare);
    let waiting = Facts {
        my_turn: false,
        ..facts()
    };
    assert_eq!(c.on_key(Key::new(KeyCode::Enter), waiting), Action::Nothing);
    assert_eq!(c.on_key(Key::new(KeyCode::Char(' ')), facts()), Action::Activate);
}

#[test]
fn resigning_asks_first() {
    let mut c = Controls::new(Some(Side::White));
    c.on_key(Key::new(KeyCode::Char('r')), facts());
    assert!(c.confirm_resign);
    assert_eq!(c.on_key(Key::new(KeyCode::Char('n')), facts()), Action::Nothing);
    assert!(!c.confirm_resign);
    c.on_key(Key::new(KeyCode::Char('r')), facts());
    assert_eq!(c.on_key(Key::new(KeyCode::Char('y')), facts()), Action::Resign);
    assert!(!c.confirm_resign);
    let over = Facts {
        over: true,
        ..facts()
    };
    c.on_key(Key::new(KeyCode::Char('r')), over);
    assert!(!c.confirm_resign, "a decided game has nothing to resign");
}

#[test]
fn a_draw_takes_both_sides() {
    let mut c = Controls::new(Some(Side::White));
    assert_eq!(c.on_key(Key::new(KeyCode::Char('d')), facts()), Action::SendDraw);
    assert!(c.draw.sent && !c.draw.agreed);
    // Pressing again does not send again.
    assert_eq!(c.on_key(Key::new(KeyCode::Char('d')), facts()), Action::Nothing);
    c.draw.peer_draw();
    assert!(c.draw.agreed && !c.draw.sent);

    let mut d = Draw::new();
    d.peer_draw();
    assert!(d.offered && !d.agreed);
    assert!(d.key(true));
    assert!(d.agreed && !d.offered);

    let mut d = Draw::new();
    d.peer_draw();
    d.peer_move();
    assert_eq!(d, Draw::new(), "playing on declines");
    assert!(!d.key(false), "hot-seat has nobody to offer to");
}

#[test]
fn keys_go_to_the_promotion_while_one_waits() {
    let mut c = Controls::new(None);
    let promoting = Facts {
        promoting: true,
        ..facts()
    };
    assert_eq!(
        c.on_key(Key::new(KeyCode::Char('q')), promoting),
        Action::Promotion(KeyCode::Char('q'))
    );
    assert!(!c.quit && !c.confirm_quit);
    assert_eq!(promotion_key(0, KeyCode::Left), PromotionStep::Highlight(3));
    assert_eq!(promotion_key(3, KeyCode::Char('l')), PromotionStep::Highlight(0));
    assert_eq!(promotion_key(2, KeyCode::Enter), PromotionStep::Pick(Promotion::Bishop));
    assert_eq!(promotion_key(2, KeyCode::Char('n')), PromotionStep::Pick(Promotion::Knight));
    assert_eq!(promotion_key(1, KeyCode::Esc), PromotionStep::Cancel);
    assert_eq!(promotion_key(1, KeyCode::Char('x')), PromotionStep::Nothing);
}

#[test]
fn the_state_line_says_where_the_game_stands() {
    let mut c = Controls::new(Some(Side::White));
    assert_eq!(c.state_line(standing()), ("your move".to_string(), Mood::Plain));
    let theirs = Standing {
        my_turn: false,
        turn: Side::Black,
        ..standing()
    };
    assert_eq!(c.state_line(theirs), ("waiting for opponent".to_string(), Mood::Quiet));
    let check = Standing {
        check: true,
        ..standing()
    };
    assert_eq!(c.state_line(check), ("check".to_string(), Mood::Warn));
    let mate = Standing {
        checkmate: true,
        turn: Side::Black,
        ..standing()
    };
    assert_eq!(
        c.state_line(mate),
        ("checkmate \u{2014} white wins".to_string(), Mood::Win)
    );
    let resigned = Standing {
        resigned: Some(Side::White),
        ..standing()
    };
    assert_eq!(
        c.state_line(resigned),
        ("black wins by resignation".to_string(), Mood::Win)
    );
    c.draw.peer_draw();
    assert_eq!(
        c.state_line(standing()),
        ("draw offered \u{2014} press d to accept".to_string(), Mood::Warn)
    );
    c.on_peer_move(Some("an illegal move e7e2"));
    assert_eq!(
        c.state_line(check),
        ("peer sent an illegal move e7e2".to_string(), Mood::Warn)
    );
    // The note lasts until the next key.
    c.on_key(Key::new(KeyCode::Char('x')), facts());
    assert_eq!(
        c.state_line(standing()),
        ("draw offered \u{2014} press d to accept".to_string(), Mood::Warn)
    );
    let stale = Standing {
        stalemate: true,
        ..standing()
    };
    assert_eq!(c.state_line(stale), ("stalemate \u{2014} draw".to_string(), Mood::Settled));
}


/// The middle of a square on screen.
fn centre_of(g: &Geometry, sq: Square, flipped: bool) -> (u16, u16) {
    let (cw, ch) = g.cell;
    let (file, rank) = (sq.file as u16, sq.rank as u16);
    let col = if flipped { 7 - file } else { file };
    let row = if flipped { rank } else { 7 - rank };
    (g.grid.x + col * cw + cw / 2, g.grid.y + row * ch + ch / 2)
}

#[test]
fn clicking_a_piece_then_a_square_moves_it() {
    let g = Geometry::new(Rect::new(0, 0, 100, 30));
    let mut c = Controls::new(None);
    let e2 = Square { file: 4, rank: 1 };
    let e4 = Square { file: 4, rank: 3 };
    let (x, y) = centre_of(&g, e2, false);
    assert_eq!(c.on_pointer(&g, Pointing::LeftDown, x, y, false, false, None), Pointer::Click(e2));
    c.picked_up(Some(e2));
    // Letting go where it was pressed is a click: the piece stays up.
    assert_eq!(c.on_pointer(&g, Pointing::LeftUp, x, y, false, false, Some(e2)), Pointer::Nothing);
    assert_eq!(c.drag_from, None);
    let (x, y) = centre_of(&g, e4, false);
    assert_eq!(c.on_pointer(&g, Pointing::LeftDown, x, y, false, false, Some(e2)), Pointer::Click(e4));
}

#[test]
fn dragging_a_piece_drops_it_where_it_is_let_go() {
    let g = Geometry::new(Rect::new(0, 0, 120, 40));
    let mut c = Controls::new(Some(Side::Black));
    let g1 = Square { file: 6, rank: 0 };
    let f3 = Square { file: 5, rank: 2 };
    let (x, y) = centre_of(&g, g1, true);
    assert_eq!(c.on_pointer(&g, Pointing::LeftDown, x, y, false, false, None), Pointer::Click(g1));
    c.picked_up(Some(g1));
    let (x, y) = centre_of(&g, f3, true);
    assert_eq!(c.on_pointer(&g, Pointing::LeftUp, x, y, false, false, Some(g1)), Pointer::Drop(f3));
    // A release with nothing picked up does nothing.
    assert_eq!(c.on_pointer(&g, Pointing::LeftUp, x, y, false, false, Some(g1)), Pointer::Nothing);
}

#[test]
fn a_right_click_puts_the_piece_back_down() {
    let g = Geometry::new(Rect::new(0, 0, 100, 30));
    let mut c = Controls::new(None);
    c.picked_up(Some(Square { file: 0, rank: 0 }));
    assert_eq!(c.on_pointer(&g, Pointing::RightDown, 0, 0, false, false, None), Pointer::Deselect);
    assert_eq!(c.drag_from, None);
}

#[test]
fn hovering_moves_the_cursor() {
    let g = Geometry::new(Rect::new(0, 0, 100, 30));
    let mut c = Controls::new(None);
    let c6 = Square { file: 2, rank: 5 };
    let (x, y) = centre_of(&g, c6, false);
    assert_eq!(c.on_pointer(&g, Pointing::Moved, x, y, false, false, None), Pointer::Hover(c6));
    assert_eq!(c.on_pointer(&g, Pointing::Moved, 0, 0, false, false, None), Pointer::Nothing);
}

#[test]
fn the_promotion_prompt_is_clickable() {
    let g = Geometry::new(Rect::new(0, 0, 100, 30));
    let mut c = Controls::new(None);
    // Third piece across is the bishop.
    let x = g.promo.x + 1 + 2 * g.promo_cell + g.promo_cell / 2;
    assert_eq!(c.on_pointer(&g, Pointing::LeftDown, x, g.promo.y + 1, false, true, None), Pointer::Promote(2));
}

#[test]
fn a_click_while_asking_only_dismisses_the_question() {
    let g = Geometry::new(Rect::new(0, 0, 100, 30));
    let mut c = Controls::new(None);
    c.confirm_quit = true;
    let (x, y) = centre_of(&g, Square { file: 4, rank: 1 }, false);
    assert_eq!(c.on_pointer(&g, Pointing::LeftDown, x, y, false, false, None), Pointer::Nothing);
    assert!(!c.confirm_quit && !c.quit);
    // And a click on the verdict only clears it away.
    assert_eq!(c.on_pointer(&g, Pointing::LeftDown, x, y, true, false, None), Pointer::Nothing);
    assert!(c.banner_hidden);
}
