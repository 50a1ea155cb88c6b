//! Where a game of chess sits on the screen: the board, its trays, the
//! sidebar and the promotion prompt, and which square or choice a click
//! lands on. What is drawn and what can be clicked both come from
//! [`Geometry`], so the two cannot drift apart.

use vstd::prelude::*;

use ratatui::layout::{Constraint, Layout};

use crate::ui::{Rect, centred, centred_of, fits_on_screen, min16, sat_add, within};

verus! {

/// How a piece is drawn. Each falls back to the next when a square is too
/// small to carry it.
#[derive(Clone, Copy, Debug, PartialEq, Eq, Structural)]
pub enum PieceStyle {
    /// Silhouettes drawn in octants: eight solid dots to a cell.
    Octant,
    /// The same silhouettes in braille, for terminals without octants.
    Braille,
    /// Half-block sprites, two stacked pixels to a cell.
    Blocks,
    /// The piece's letter as a 5x5 bitmap, blown up through half blocks.
    BigLetter,
    /// Three-row line art. Needs a tall square; falls back on its own.
    Art,
    /// A single chess figurine.
    Figurine,
    /// A single letter, for terminals that render figurines double-width.
    Letter,
}

pub open spec fn next_style(s: PieceStyle) -> PieceStyle {
    match s {
        PieceStyle::Blocks => PieceStyle::BigLetter,
        PieceStyle::BigLetter => PieceStyle::Art,
        PieceStyle::Art => PieceStyle::Figurine,
        PieceStyle::Figurine => PieceStyle::Letter,
        PieceStyle::Letter => PieceStyle::Octant,
        PieceStyle::Octant => PieceStyle::Braille,
        PieceStyle::Braille => PieceStyle::Blocks,
    }
}

impl PieceStyle {
    /// The style `p` switches to.
    pub fn next(self) -> (r: PieceStyle)
        ensures
            r == next_style(self),
    {
        match self {
            PieceStyle::Blocks => PieceStyle::BigLetter,
            PieceStyle::BigLetter => PieceStyle::Art,
            PieceStyle::Art => PieceStyle::Figurine,
            PieceStyle::Figurine => PieceStyle::Letter,
            PieceStyle::Letter => PieceStyle::Octant,
            PieceStyle::Octant => PieceStyle::Braille,
            PieceStyle::Braille => PieceStyle::Blocks,
        }
    }
}

/// The styles `p` shows in turn, starting from `s`.
pub open spec fn style_orbit(s: PieceStyle) -> Seq<PieceStyle> {
    let a = next_style(s);
    let b = next_style(a);
    let c = next_style(b);
    let d = next_style(c);
    let e = next_style(d);
    let f = next_style(e);
    seq![s, a, b, c, d, e, f]
}

/// Pressing `p` seven times comes back round, having shown every style once.
pub proof fn lemma_styles_cycle(s: PieceStyle)
    ensures
        next_style(style_orbit(s)[6]) == s,
        forall|t: PieceStyle| #[trigger] style_orbit(s).contains(t),
        forall|i: int, j: int| 0 <= i < j < 7 ==> style_orbit(s)[i] != style_orbit(s)[j],
{
    assert forall|t: PieceStyle| #[trigger] style_orbit(s).contains(t) by {
        let o = style_orbit(s);
        assert(o[0] == t || o[1] == t || o[2] == t || o[3] == t || o[4] == t || o[5] == t || o[6]
            == t);
    }
}

/// A square of the board: its file (a to h as 0 to 7) and rank (1 to 8 as
/// 0 to 7).
#[derive(Clone, Copy, Debug, PartialEq, Eq, Structural)]
pub struct Square {
    pub file: u8,
    pub rank: u8,
}

/// How many pieces a pawn can promote to: queen, rook, bishop, knight.
pub const PROMOTION_CHOICES: usize = 4;

/// Square sizes we are willing to draw, smallest first. Widths are odd so a
/// single glyph sits dead centre.
pub const CELL_SIZES: [(u16, u16); 5] = [(3, 1), (5, 2), (7, 3), (9, 4), (11, 5)];

pub open spec fn cell_sizes() -> Seq<(u16, u16)> {
    seq![(3u16, 1u16), (5, 2), (7, 3), (9, 4), (11, 5)]
}

/// Rank digit plus a space, down the left of the board.
pub const GUTTER: u16 = 2;
pub const SIDEBAR_MIN: u16 = 24;
/// Past this the sidebar stops growing, and the room left over goes to
/// either side of the board and sidebar instead.
pub const SIDEBAR_MAX: u16 = 40;
/// The fewest rows the sidebar needs: the status panel and a few moves.
pub const SIDEBAR_MIN_H: u16 = 15;

/// The board's width: eight squares, the rank gutter, and the border.
pub open spec fn block_w(cell_w: u16) -> int {
    8 * cell_w + GUTTER + 2
}

/// Eight ranks, the file labels, and the border.
pub open spec fn block_h(cell_h: u16) -> int {
    8 * cell_h + 1 + 2
}

/// Whether a board of `cell` squares leaves room for the sidebar.
pub open spec fn cell_fits(cell: (u16, u16), main: Rect) -> bool {
    block_w(cell.0) + SIDEBAR_MIN <= main.width && block_h(cell.1) + 2 <= main.height
}

/// The biggest square size that fits, or the smallest there is.
pub open spec fn cell_of(main: Rect) -> (u16, u16) {
    let s = cell_sizes();
    if cell_fits(s[4], main) {
        s[4]
    } else if cell_fits(s[3], main) {
        s[3]
    } else if cell_fits(s[2], main) {
        s[2]
    } else if cell_fits(s[1], main) {
        s[1]
    } else {
        s[0]
    }
}

/// What the rest of the layout is built from: the square size, the column
/// holding the board and its trays, and the sidebar beside it.
#[derive(Clone, Copy, Debug, PartialEq, Eq)]
pub struct Plan {
    pub cell: (u16, u16),
    pub left: Rect,
    pub sidebar: Rect,
}

pub open spec fn plan_of(main: Rect) -> Plan {
    let (cw, ch) = cell_of(main);
    let col_w = min16(block_w(cw) as u16, main.width);
    let col_h = min16((block_h(ch) + 2) as u16, main.height);
    let spare = (main.width - col_w) as u16;
    let side_w = min16(spare, SIDEBAR_MAX);
    let left = Rect {
        x: (main.x + min16(spare / 2, (spare - side_w) as u16)) as u16,
        y: (main.y + (main.height - col_h) / 2) as u16,
        width: col_w,
        height: col_h,
    };
    let side_h = min16(if col_h >= SIDEBAR_MIN_H { col_h } else { SIDEBAR_MIN_H }, main.height);
    Plan {
        cell: (cw, ch),
        left,
        sidebar: Rect {
            x: sat_add(left.x, left.width),
            y: (main.y + (main.height - side_h) / 2) as u16,
            width: side_w,
            height: side_h,
        },
    }
}

/// Where everything sits this frame.
#[derive(Clone, Copy, Debug, PartialEq, Eq)]
pub struct Geometry {
    pub board: Rect,
    /// The 8x8 playing area, inside the border and to the right of the gutter.
    pub grid: Rect,
    pub cell: (u16, u16),
    pub top_tray: Rect,
    pub bottom_tray: Rect,
    pub sidebar: Rect,
    pub footer: Rect,
    pub promo: Rect,
    pub promo_cell: u16,
}

pub open spec fn clamp16(v: u16, lo: u16, hi: u16) -> u16 {
    if v < lo {
        lo
    } else if v > hi {
        hi
    } else {
        v
    }
}

pub open spec fn assemble_of(footer: Rect, plan: Plan, trays: (Rect, Rect, Rect)) -> Geometry {
    let (cw, ch) = plan.cell;
    let board = trays.1;
    let promo_cell = clamp16(cw, 5, 9);
    Geometry {
        board,
        grid: Rect {
            x: sat_add(board.x, (1 + GUTTER) as u16),
            y: sat_add(board.y, 1),
            width: (8 * cw) as u16,
            height: (8 * ch) as u16,
        },
        cell: plan.cell,
        top_tray: trays.0,
        bottom_tray: trays.2,
        sidebar: plan.sidebar,
        footer,
        promo: centred_of(board, (4 * promo_cell + 2) as u16, (clamp16(ch, 3, 4) + 2) as u16),
        promo_cell,
    }
}

/// What ratatui's `Layout::vertical([Min(0), Length(1)])` makes of an area:
/// the main area, and the footer line under it. With a row to give, the
/// footer is the last row and the main area everything above it; with none,
/// both are the empty area itself.
pub open spec fn footer_split_of(area: Rect) -> (Rect, Rect) {
    if area.height == 0 {
        (area, area)
    } else {
        (
            Rect { height: (area.height - 1) as u16, ..area },
            Rect { y: (area.y + area.height - 1) as u16, height: 1, ..area },
        )
    }
}

/// What holds of any vertical split of `column` into three: each part spans
/// the column's full width and lies between its top and bottom.
pub open spec fn tray_facts(column: Rect, t: (Rect, Rect, Rect)) -> bool {
    &&& t.0.x == column.x && t.0.width == column.width && within(t.0, column)
    &&& t.1.x == column.x && t.1.width == column.width && within(t.1, column)
    &&& t.2.x == column.x && t.2.width == column.width && within(t.2, column)
}

/// A column exactly as tall as the board and its two trays, split into the
/// top tray's row, the board, and the bottom tray's row.
pub open spec fn trays_of(column: Rect, board_h: u16) -> (Rect, Rect, Rect) {
    (
        Rect { height: 1, ..column },
        Rect { y: (column.y + 1) as u16, height: board_h, ..column },
        Rect { y: (column.y + 1 + board_h) as u16, height: 1, ..column },
    )
}

/// `Layout::vertical([Constraint::Min(0), Constraint::Length(1)]).areas`.
/// From ratatui-core's `try_split` and `changes_to_rects`: a vertical split
/// keeps the area's `x` and width, the solver's required bounds keep every
/// part between the area's top and bottom, and the footer's length is met
/// whenever there is a row for it, the main area taking the rest.
#[verifier::external_body]
fn split_footer(area: Rect) -> (r: (Rect, Rect))
    requires
        fits_on_screen(area, 0),
    ensures
        r == footer_split_of(area),
{
    let a = ratatui::layout::Rect { x: area.x, y: area.y, width: area.width, height: area.height };
    let [m, f] = Layout::vertical([Constraint::Min(0), Constraint::Length(1)]).areas(a);
    (
        Rect { x: m.x, y: m.y, width: m.width, height: m.height },
        Rect { x: f.x, y: f.y, width: f.width, height: f.height },
    )
}

/// `Layout::vertical([Length(1), Length(board_h), Length(1)]).areas`. Every
/// part keeps the column's `x` and width and lies within it, as for
/// [`split_footer`]. Where the column is exactly as tall as the three
/// lengths together, each gets its length, in order. In a shorter column
/// the lengths conflict, and which one gives way is the solver's choice,
/// made in a hash order seeded afresh in each process; nothing more is
/// said of that case, nor of a taller column, which is never split here.
#[verifier::external_body]
fn split_trays(column: Rect, board_h: u16) -> (r: (Rect, Rect, Rect))
    requires
        fits_on_screen(column, 0),
    ensures
        tray_facts(column, r),
        column.height == board_h + 2 ==> r == trays_of(column, board_h),
{
    let c = ratatui::layout::Rect { x: column.x, y: column.y, width: column.width, height: column.height };
    let l = [Constraint::Length(1), Constraint::Length(board_h), Constraint::Length(1)];
    let [t, b, m] = Layout::vertical(l).areas(c);
    let back = |r: ratatui::layout::Rect| Rect { x: r.x, y: r.y, width: r.width, height: r.height };
    (back(t), back(b), back(m))
}

impl Geometry {
    /// Picks the biggest square size that leaves room for the sidebar, and
    /// places the board's column and the sidebar in `main`.
    pub fn plan(main: Rect) -> (p: Plan)
        requires
            fits_on_screen(main, 0),
        ensures
            p == plan_of(main),
            within(p.left, main),
            fits_on_screen(p.left, 0),
    {
        let mut cell = CELL_SIZES[0];
        let mut i: usize = 0;
        while i < 5
            invariant
                i <= 5,
                fits_on_screen(main, 0),
                cell == cell_of_prefix(main, i as int),
                3 <= cell.0 <= 11,
                1 <= cell.1 <= 5,
            decreases 5 - i,
        {
            let candidate = CELL_SIZES[i];
            let (w, h) = (8 * candidate.0 + GUTTER + 2, 8 * candidate.1 + 1 + 2);
            if w + SIDEBAR_MIN <= main.width && h + 2 <= main.height {
                cell = candidate;
            }
            i += 1;
        }
        assert(cell == cell_of(main)) by {
            reveal_with_fuel(cell_of_prefix, 5);
        }
        let (cw, ch) = cell;
        let bw = 8 * cw + GUTTER + 2;
        let bh = 8 * ch + 1 + 2 + 2;
        let col_w = if bw <= main.width {
            bw
        } else {
            main.width
        };
        let col_h = if bh <= main.height {
            bh
        } else {
            main.height
        };
        let spare = main.width - col_w;
        let side_w = if spare <= SIDEBAR_MAX {
            spare
        } else {
            SIDEBAR_MAX
        };
        let half = spare / 2;
        let off = if half <= spare - side_w {
            half
        } else {
            spare - side_w
        };
        let left = Rect {
            x: main.x + off,
            y: main.y + (main.height - col_h) / 2,
            width: col_w,
            height: col_h,
        };
        let tall = if col_h >= SIDEBAR_MIN_H {
            col_h
        } else {
            SIDEBAR_MIN_H
        };
        let side_h = if tall <= main.height {
            tall
        } else {
            main.height
        };
        let sidebar = Rect {
            x: left.right(),
            y: main.y + (main.height - side_h) / 2,
            width: side_w,
            height: side_h,
        };
        Plan { cell, left, sidebar }
    }

    /// Lays the board out in its column's middle row, with the grid inside
    /// its border and the promotion prompt over its middle.
    pub fn assemble(footer: Rect, plan: Plan, trays: (Rect, Rect, Rect)) -> (g: Geometry)
        requires
            fits_on_screen(trays.1, 0),
            plan.cell.0 <= 11,
            plan.cell.1 <= 5,
        ensures
            g == assemble_of(footer, plan, trays),
    {
        let (cw, ch) = plan.cell;
        let board = trays.1;
        // Past the last column or row there is nowhere for the grid to go;
        // it stops there, and no square is found under it.
        let grid = Rect {
            x: board.x.saturating_add(1 + GUTTER),
            y: board.y.saturating_add(1),
            width: 8 * cw,
            height: 8 * ch,
        };
        // The prompt shows four pieces at roughly board scale.
        let promo_cell = if cw < 5 {
            5
        } else if cw > 9 {
            9
        } else {
            cw
        };
        let promo_h = if ch < 3 {
            3
        } else if ch > 4 {
            4
        } else {
            ch
        };
        let promo = centred(board, 4 * promo_cell + 2, promo_h + 2);
        Geometry {
            board,
            grid,
            cell: plan.cell,
            top_tray: trays.0,
            bottom_tray: trays.2,
            sidebar: plan.sidebar,
            footer,
            promo,
            promo_cell,
        }
    }

    /// Picks the biggest board that leaves room for the sidebar, and centres
    /// it on the screen. The sidebar sits to its right, or pushes it left of
    /// centre where there is not room for both.
    pub fn new(area: Rect) -> (g: Geometry)
        requires
            fits_on_screen(area, 0),
        ensures
            ({
                let (main, footer) = footer_split_of(area);
                let plan = plan_of(main);
                let trays = (g.top_tray, g.board, g.bottom_tray);
                &&& g == assemble_of(footer, plan, trays)
                &&& tray_facts(plan.left, trays)
                &&& plan.left.height == block_h(plan.cell.1) + 2 ==> trays == trays_of(
                    plan.left,
                    block_h(plan.cell.1) as u16,
                )
                // The biggest square size that fits, else the smallest.
                &&& g.cell == cell_of(main)
                &&& g.grid.width == 8 * g.cell.0 && g.grid.height == 8 * g.cell.1
                // Where it fits, the board lies on the screen, its grid inside
                // it, and the sidebar starts where the board ends.
                &&& cell_fits(g.cell, main) ==> {
                    &&& within(g.board, area)
                    &&& within(g.grid, g.board)
                    &&& g.sidebar.x == g.board.x + g.board.width
                }
            }),
            3 <= g.cell.0 <= 11,
            1 <= g.cell.1 <= 5,
            5 <= g.promo_cell <= 9,
    {
        let (main, footer) = split_footer(area);
        let plan = Geometry::plan(main);
        proof {
            lemma_cell_bounds(main);
        }
        let (_, ch) = plan.cell;
        let trays = split_trays(plan.left, 8 * ch + 1 + 2);
        Geometry::assemble(footer, plan, trays)
    }
}

/// The square under a screen position, if any.
pub open spec fn square_at_of(g: Geometry, x: u16, y: u16, flipped: bool) -> Option<Square> {
    let (cw, ch) = g.cell;
    if x < g.grid.x || y < g.grid.y {
        None
    } else {
        let col = (x - g.grid.x) / (cw as int);
        let row = (y - g.grid.y) / (ch as int);
        if col > 7 || row > 7 {
            None
        } else {
            Some(
                Square {
                    file: (if flipped {
                        7 - col
                    } else {
                        col
                    }) as u8,
                    rank: (if flipped {
                        row
                    } else {
                        7 - row
                    }) as u8,
                },
            )
        }
    }
}

/// The promotion choice under a screen position, if any.
pub open spec fn promo_at_of(g: Geometry, x: u16, y: u16) -> Option<usize> {
    if y <= g.promo.y || y + 1 >= sat_add(g.promo.y, g.promo.height) {
        None
    } else if x < g.promo.x + 1 {
        None
    } else {
        let i = (x - (g.promo.x + 1)) / (g.promo_cell as int);
        if i < PROMOTION_CHOICES {
            Some(i as usize)
        } else {
            None
        }
    }
}

impl Geometry {
    /// The square under a screen position, if any.
    pub fn square_at(&self, x: u16, y: u16, flipped: bool) -> (r: Option<Square>)
        requires
            self.cell.0 > 0,
            self.cell.1 > 0,
        ensures
            r == square_at_of(*self, x, y, flipped),
            r matches Some(sq) ==> sq.file < 8 && sq.rank < 8,
    {
        let (cw, ch) = self.cell;
        if x < self.grid.x || y < self.grid.y {
            return None;
        }
        let col = (x - self.grid.x) / cw;
        let row = (y - self.grid.y) / ch;
        if col > 7 || row > 7 {
            return None;
        }
        let file = if flipped {
            7 - col
        } else {
            col
        };
        let rank = if flipped {
            row
        } else {
            7 - row
        };
        Some(Square { file: file as u8, rank: rank as u8 })
    }

    /// The promotion choice under a screen position, if any.
    pub fn promo_at(&self, x: u16, y: u16) -> (r: Option<usize>)
        requires
            self.promo_cell > 0,
        ensures
            r == promo_at_of(*self, x, y),
            r matches Some(i) ==> i < PROMOTION_CHOICES,
    {
        let bottom = self.promo.bottom();
        if y <= self.promo.y || bottom == 0 || y >= bottom - 1 {
            return None;
        }
        if x <= self.promo.x {
            return None;
        }
        let index = ((x - self.promo.x - 1) / self.promo_cell) as usize;
        if index < PROMOTION_CHOICES {
            Some(index)
        } else {
            None
        }
    }}

/// Where a square sits on the grid as drawn: its column and row.
pub open spec fn screen_place(sq: Square, flipped: bool) -> (int, int) {
    if flipped {
        (7 - sq.file, sq.rank as int)
    } else {
        (sq.file as int, 7 - sq.rank)
    }
}

/// The square at a column and row of the grid as it is drawn.
pub fn screen_square(col: u16, row: u16, flipped: bool) -> (sq: Square)
    requires
        col < 8,
        row < 8,
    ensures
        screen_place(sq, flipped) == (col as int, row as int),
        sq.file < 8 && sq.rank < 8,
{
    let file = if flipped {
        7 - col
    } else {
        col
    };
    let rank = if flipped {
        row
    } else {
        7 - row
    };
    Square { file: file as u8, rank: rank as u8 }
}

/// Clicks land on the right square: any cell of a square as drawn, the
/// right way up or flipped, reads back as that square.
pub proof fn lemma_clicks_land(g: Geometry, sq: Square, flipped: bool, dx: int, dy: int)
    requires
        g.cell.0 > 0,
        g.cell.1 > 0,
        sq.file < 8,
        sq.rank < 8,
        0 <= dx < g.cell.0,
        0 <= dy < g.cell.1,
        g.grid.x + 8 * g.cell.0 <= u16::MAX,
        g.grid.y + 8 * g.cell.1 <= u16::MAX,
    ensures
        ({
            let (col, row) = screen_place(sq, flipped);
            let x = g.grid.x + col * g.cell.0 + dx;
            let y = g.grid.y + row * g.cell.1 + dy;
            square_at_of(g, x as u16, y as u16, flipped) == Some(sq)
        }),
{
    let (col, row) = screen_place(sq, flipped);
    let cw = g.cell.0 as int;
    let ch = g.cell.1 as int;
    assert(0 <= col < 8 && 0 <= row < 8);
    assert((col * cw + dx) / cw == col) by (nonlinear_arith)
        requires
            cw > 0,
            0 <= dx < cw,
            0 <= col,
    ;
    assert((row * ch + dy) / ch == row) by (nonlinear_arith)
        requires
            ch > 0,
            0 <= dy < ch,
            0 <= row,
    ;
    assert(col * cw + dx < 8 * cw) by (nonlinear_arith)
        requires
            0 <= col < 8,
            0 <= dx < cw,
    ;
    assert(row * ch + dy < 8 * ch) by (nonlinear_arith)
        requires
            0 <= row < 8,
            0 <= dy < ch,
    ;
    assert(0 <= col * cw) by (nonlinear_arith)
        requires
            0 <= col,
            0 <= cw,
    ;
    assert(0 <= row * ch) by (nonlinear_arith)
        requires
            0 <= row,
            0 <= ch,
    ;
}

/// The square size chosen from the first `n` candidates.
pub open spec fn cell_of_prefix(main: Rect, n: int) -> (u16, u16)
    decreases n,
{
    if n <= 1 {
        cell_sizes()[0]
    } else if cell_fits(cell_sizes()[n - 1], main) {
        cell_sizes()[n - 1]
    } else {
        cell_of_prefix(main, n - 1)
    }
}

/// The board grows with the terminal: more room, in both directions,
/// never gets smaller squares.
pub proof fn lemma_board_grows(a: Rect, b: Rect)
    requires
        a.width <= b.width,
        a.height <= b.height,
    ensures
        cell_of(a).0 <= cell_of(b).0,
        cell_of(a).1 <= cell_of(b).1,
{
}

/// The same of whole screens: a terminal at least as wide and as tall never
/// gets smaller squares (80x24 against 120x40, say).
pub proof fn lemma_screen_grows(a: Rect, b: Rect)
    requires
        a.width <= b.width,
        a.height <= b.height,
    ensures
        cell_of(footer_split_of(a).0).0 <= cell_of(footer_split_of(b).0).0,
        cell_of(footer_split_of(a).0).1 <= cell_of(footer_split_of(b).0).1,
{
    lemma_board_grows(footer_split_of(a).0, footer_split_of(b).0);
}

/// A position off the grid, left of it, above it, or past its eight
/// columns or rows, is on no square.
pub proof fn lemma_clicks_off_grid(g: Geometry, x: u16, y: u16, flipped: bool)
    requires
        g.cell.0 > 0,
        g.cell.1 > 0,
        x < g.grid.x || y < g.grid.y || x >= g.grid.x + 8 * g.cell.0 || y >= g.grid.y + 8
            * g.cell.1,
    ensures
        square_at_of(g, x, y, flipped) is None,
{
    let cw = g.cell.0 as int;
    let ch = g.cell.1 as int;
    if x >= g.grid.x && y >= g.grid.y {
        let dx = x - g.grid.x;
        let dy = y - g.grid.y;
        if dx >= 8 * cw {
            assert(dx / cw > 7) by (nonlinear_arith)
                requires
                    cw > 0,
                    dx >= 8 * cw,
            ;
        } else {
            assert(dy >= 8 * ch);
            assert(dy / ch > 7) by (nonlinear_arith)
                requires
                    ch > 0,
                    dy >= 8 * ch,
            ;
        }
    }
}

proof fn lemma_cell_bounds(main: Rect)
    ensures
        cell_of(main).0 <= 11,
        cell_of(main).1 <= 5,
        cell_of(main).0 >= 3,
        cell_of(main).1 >= 1,
{
}

} // verus!
