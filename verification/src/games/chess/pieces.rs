//! How a piece looks in a square of the board: pixel sprites for roomy
//! squares, a letter blown up into pixels, three rows of line art, or a
//! single figurine or letter, whichever the square has room for.
//!
//! A sprite is drawn two pixels to a cell: the upper half block `▀` takes
//! the top pixel as its foreground and the bottom one as its background.

use vstd::prelude::*;

use super::controls::Side;
use super::panels::{centre, centre_of, spaces, strings_view};
use super::ui::PieceStyle;
use crate::text::chars_of;

verus! {

broadcast use vstd::string::group_string_axioms;

/// A kind of chess piece.
#[derive(Clone, Copy, Debug, PartialEq, Eq, Structural)]
pub enum Role {
    King,
    Queen,
    Rook,
    Bishop,
    Knight,
    Pawn,
}

// Nine by eight, drawn inside the 11x10 pixels of an 11x5 square; seven by
// seven inside the 9x8 of a 9x4; five by five inside the 7x6 of a 7x3. `#`
// is the outline, `o` the body, anything else lets the square show through.

pub const BIG_KING: [&'static str; 8] = [
    "....o....",
    "...ooo...",
    "....o....",
    "..#ooo#..",
    ".#ooooo#.",
    "..#ooo#..",
    ".#ooooo#.",
    ".#######.",
];

pub const BIG_QUEEN: [&'static str; 8] = [
    "o.o.o.o.o",
    "#ooooooo#",
    ".#ooooo#.",
    "..#ooo#..",
    "..#ooo#..",
    ".#ooooo#.",
    "#ooooooo#",
    ".#######.",
];

pub const BIG_ROOK: [&'static str; 8] = [
    ".o.o.o.o.",
    ".#######.",
    ".#ooooo#.",
    "..#ooo#..",
    "..#ooo#..",
    ".#ooooo#.",
    ".#ooooo#.",
    ".#######.",
];

pub const BIG_BISHOP: [&'static str; 8] = [
    "....o....",
    "...#o#...",
    "..#ooo#..",
    "..#o#o#..",
    "..#ooo#..",
    ".#ooooo#.",
    ".#ooooo#.",
    ".#######.",
];

pub const BIG_KNIGHT: [&'static str; 8] = [
    ".....oo..",
    "...#oooo.",
    "..#ooooo#",
    ".#oooooo#",
    "#o#ooooo#",
    "##.#oooo#",
    "...#oooo#",
    ".#######.",
];

pub const BIG_PAWN: [&'static str; 8] = [
    ".........",
    "...###...",
    "..#ooo#..",
    "...#o#...",
    "..#ooo#..",
    ".#ooooo#.",
    ".#ooooo#.",
    ".#######.",
];

pub const MID_KING: [&'static str; 7] = [
    "...o...",
    "..ooo..",
    "...o...",
    ".#ooo#.",
    ".#ooo#.",
    "#ooooo#",
    "#######",
];

pub const MID_QUEEN: [&'static str; 7] = [
    "o.o.o.o",
    "#ooooo#",
    ".#ooo#.",
    ".#ooo#.",
    ".#ooo#.",
    "#ooooo#",
    "#######",
];

pub const MID_ROOK: [&'static str; 7] = [
    ".o.o.o.",
    ".#####.",
    ".#ooo#.",
    "..#o#..",
    "..#o#..",
    "#ooooo#",
    "#######",
];

pub const MID_BISHOP: [&'static str; 7] = [
    "...o...",
    "..#o#..",
    ".#ooo#.",
    ".#o#o#.",
    ".#ooo#.",
    "#ooooo#",
    "#######",
];

pub const MID_KNIGHT: [&'static str; 7] = [
    "...oo..",
    ".#oooo#",
    "#ooooo#",
    "#o#ooo#",
    "##.#oo#",
    "..#ooo#",
    "#######",
];

pub const MID_PAWN: [&'static str; 7] = [
    "..###..",
    ".#ooo#.",
    "..#o#..",
    ".#ooo#.",
    ".#ooo#.",
    "#ooooo#",
    "#######",
];

pub const TINY_KING: [&'static str; 5] = [
    "..o..",
    ".ooo.",
    "..o..",
    "#ooo#",
    "#####",
];

pub const TINY_QUEEN: [&'static str; 5] = [
    "o.o.o",
    "#ooo#",
    ".#o#.",
    "#ooo#",
    "#####",
];

pub const TINY_ROOK: [&'static str; 5] = [
    "o.o.o",
    ".###.",
    ".#o#.",
    "#ooo#",
    "#####",
];

pub const TINY_BISHOP: [&'static str; 5] = [
    "..o..",
    ".#o#.",
    "#o#o#",
    "#ooo#",
    "#####",
];

pub const TINY_KNIGHT: [&'static str; 5] = [
    "..oo.",
    ".#oo#",
    "#ooo#",
    "##oo#",
    "#####",
];

pub const TINY_PAWN: [&'static str; 5] = [
    ".###.",
    "#ooo#",
    ".#o#.",
    "#ooo#",
    "#####",
];

pub const FONT_KING: [&'static str; 5] = [
    "o...o",
    "o..o.",
    "ooo..",
    "o..o.",
    "o...o",
];

pub const FONT_QUEEN: [&'static str; 5] = [
    ".ooo.",
    "o...o",
    "o...o",
    "o..o.",
    ".oo.o",
];

pub const FONT_ROOK: [&'static str; 5] = [
    "oooo.",
    "o...o",
    "oooo.",
    "o..o.",
    "o...o",
];

pub const FONT_BISHOP: [&'static str; 5] = [
    "oooo.",
    "o...o",
    "oooo.",
    "o...o",
    "oooo.",
];

pub const FONT_KNIGHT: [&'static str; 5] = [
    "o...o",
    "oo..o",
    "o.o.o",
    "o..oo",
    "o...o",
];

pub const FONT_PAWN: [&'static str; 5] = [
    "oooo.",
    "o...o",
    "oooo.",
    "o....",
    "o....",
];


/// Which picture a piece is drawn with.
#[derive(Clone, Copy, Debug, PartialEq, Eq, Structural)]
pub enum Glyph {
    Big(Role),
    Mid(Role),
    Tiny(Role),
    /// The piece's letter as a 5x5 bitmap, with an outline grown around it.
    Font(Role),
}

pub open spec fn table_rows(g: Glyph) -> Seq<&'static str> {
    match g {
        Glyph::Big(r) => match r {
            Role::King => BIG_KING@,
            Role::Queen => BIG_QUEEN@,
            Role::Rook => BIG_ROOK@,
            Role::Bishop => BIG_BISHOP@,
            Role::Knight => BIG_KNIGHT@,
            Role::Pawn => BIG_PAWN@,
        },
        Glyph::Mid(r) => match r {
            Role::King => MID_KING@,
            Role::Queen => MID_QUEEN@,
            Role::Rook => MID_ROOK@,
            Role::Bishop => MID_BISHOP@,
            Role::Knight => MID_KNIGHT@,
            Role::Pawn => MID_PAWN@,
        },
        Glyph::Tiny(r) => match r {
            Role::King => TINY_KING@,
            Role::Queen => TINY_QUEEN@,
            Role::Rook => TINY_ROOK@,
            Role::Bishop => TINY_BISHOP@,
            Role::Knight => TINY_KNIGHT@,
            Role::Pawn => TINY_PAWN@,
        },
        Glyph::Font(r) => match r {
            Role::King => FONT_KING@,
            Role::Queen => FONT_QUEEN@,
            Role::Rook => FONT_ROOK@,
            Role::Bishop => FONT_BISHOP@,
            Role::Knight => FONT_KNIGHT@,
            Role::Pawn => FONT_PAWN@,
        },
    }
}

pub open spec fn rows_view(rows: Seq<&'static str>) -> Seq<Seq<char>> {
    rows.map_values(|s: &'static str| s@)
}

/// A picture's rows, and whether an outline is grown around it.
pub open spec fn glyph_view(g: Glyph) -> (Seq<Seq<char>>, bool) {
    (rows_view(table_rows(g)), g is Font)
}

/// A pixel of a sprite.
#[derive(Clone, Copy, Debug, PartialEq, Eq, Structural)]
pub enum Pixel {
    Line,
    Fill,
}

pub struct Sprite {
    pub rows: &'static [&'static str],
    /// Grows a one-pixel border in the outline colour around whatever is
    /// drawn, so a thin letterform reads on any square.
    pub outline: bool,
}

pub open spec fn sprite_view(s: Sprite) -> (Seq<Seq<char>>, bool) {
    (rows_view(s.rows@), s.outline)
}

/// Nine by eight, drawn inside the 11x10 pixels of an 11x5 square.
pub fn sprite_big(role: Role) -> (s: Sprite)
    ensures
        sprite_view(s) == glyph_view(Glyph::Big(role)),
{
    match role {
        Role::King => Sprite { rows: &BIG_KING, outline: false },
        Role::Queen => Sprite { rows: &BIG_QUEEN, outline: false },
        Role::Rook => Sprite { rows: &BIG_ROOK, outline: false },
        Role::Bishop => Sprite { rows: &BIG_BISHOP, outline: false },
        Role::Knight => Sprite { rows: &BIG_KNIGHT, outline: false },
        Role::Pawn => Sprite { rows: &BIG_PAWN, outline: false },
    }
}

/// Seven by seven, drawn inside the 9x8 pixels of a 9x4 square.
pub fn sprite_mid(role: Role) -> (s: Sprite)
    ensures
        sprite_view(s) == glyph_view(Glyph::Mid(role)),
{
    match role {
        Role::King => Sprite { rows: &MID_KING, outline: false },
        Role::Queen => Sprite { rows: &MID_QUEEN, outline: false },
        Role::Rook => Sprite { rows: &MID_ROOK, outline: false },
        Role::Bishop => Sprite { rows: &MID_BISHOP, outline: false },
        Role::Knight => Sprite { rows: &MID_KNIGHT, outline: false },
        Role::Pawn => Sprite { rows: &MID_PAWN, outline: false },
    }
}

/// Five by five, drawn inside the 7x6 pixels of a 7x3 square.
pub fn sprite_tiny(role: Role) -> (s: Sprite)
    ensures
        sprite_view(s) == glyph_view(Glyph::Tiny(role)),
{
    match role {
        Role::King => Sprite { rows: &TINY_KING, outline: false },
        Role::Queen => Sprite { rows: &TINY_QUEEN, outline: false },
        Role::Rook => Sprite { rows: &TINY_ROOK, outline: false },
        Role::Bishop => Sprite { rows: &TINY_BISHOP, outline: false },
        Role::Knight => Sprite { rows: &TINY_KNIGHT, outline: false },
        Role::Pawn => Sprite { rows: &TINY_PAWN, outline: false },
    }
}

/// The piece's letter as a 5x5 bitmap. An outline is grown around it at
/// draw time, so it occupies 7x7 pixels and reads on either square colour.
pub fn font(role: Role) -> (s: Sprite)
    ensures
        sprite_view(s) == glyph_view(Glyph::Font(role)),
{
    match role {
        Role::King => Sprite { rows: &FONT_KING, outline: true },
        Role::Queen => Sprite { rows: &FONT_QUEEN, outline: true },
        Role::Rook => Sprite { rows: &FONT_ROOK, outline: true },
        Role::Bishop => Sprite { rows: &FONT_BISHOP, outline: true },
        Role::Knight => Sprite { rows: &FONT_KNIGHT, outline: true },
        Role::Pawn => Sprite { rows: &FONT_PAWN, outline: true },
    }
}

/// The raw width and height of a picture, before any outline.
pub open spec fn glyph_size(g: Glyph) -> (nat, nat) {
    match g {
        Glyph::Big(_) => (9, 8),
        Glyph::Mid(_) => (7, 7),
        Glyph::Tiny(_) => (5, 5),
        Glyph::Font(_) => (5, 5),
    }
}

/// Every picture is as many rows as its size says, the first of them as
/// wide as it says.
pub proof fn lemma_glyph_size(g: Glyph)
    ensures
        glyph_view(g).0.len() == glyph_size(g).1,
        glyph_view(g).0[0].len() == glyph_size(g).0,
{
    match g {
        Glyph::Big(r) => {
            reveal_strlit("....o....");
            reveal_strlit("o.o.o.o.o");
            reveal_strlit(".o.o.o.o.");
            reveal_strlit(".....oo..");
            reveal_strlit(".........");
        },
        Glyph::Mid(r) => {
            reveal_strlit("...o...");
            reveal_strlit("o.o.o.o");
            reveal_strlit(".o.o.o.");
            reveal_strlit("...oo..");
            reveal_strlit("..###..");
        },
        Glyph::Tiny(r) => {
            reveal_strlit("..o..");
            reveal_strlit("o.o.o");
            reveal_strlit("..oo.");
            reveal_strlit(".###.");
        },
        Glyph::Font(r) => {
            reveal_strlit("o...o");
            reveal_strlit(".ooo.");
            reveal_strlit("oooo.");
        },
    }
}

/// The pixel a picture has at `(x, y)`, as written: `#` the outline, `o`
/// the body, and anything else, or anywhere outside it, nothing.
pub open spec fn raw_of(rows: Seq<Seq<char>>, x: int, y: int) -> Option<Pixel> {
    if 0 <= y < rows.len() && 0 <= x < rows[y].len() {
        if rows[y][x] == '#' {
            Some(Pixel::Line)
        } else if rows[y][x] == 'o' {
            Some(Pixel::Fill)
        } else {
            None
        }
    } else {
        None
    }
}

/// Something is drawn at or next to `(x, y)`, diagonals included.
pub open spec fn touching(rows: Seq<Seq<char>>, x: int, y: int) -> bool {
    exists|dx: int, dy: int| -1 <= dx <= 1 && -1 <= dy <= 1 && #[trigger] raw_of(rows, x + dx, y + dy) is Some
}

/// The pixel a sprite shows at `(x, y)`, counting the outline it grows, if
/// it grows one, a pixel in from the top left.
pub open spec fn at_of(sprite: (Seq<Seq<char>>, bool), x: int, y: int) -> Option<Pixel> {
    let (rows, outline) = sprite;
    let pad = if outline {
        1int
    } else {
        0int
    };
    let (gx, gy) = (x - pad, y - pad);
    if raw_of(rows, gx, gy) is Some {
        raw_of(rows, gx, gy)
    } else if outline && touching(rows, gx, gy) {
        Some(Pixel::Line)
    } else {
        None
    }
}

/// A sprite's width and height in pixels, with its outline.
pub open spec fn sprite_size(sprite: (Seq<Seq<char>>, bool)) -> (int, int) {
    let pad = if sprite.1 {
        1int
    } else {
        0int
    };
    (sprite.0[0].len() + 2 * pad, sprite.0.len() + 2 * pad)
}

/// Sized like the pictures: a few rows, none of them long.
pub open spec fn sprite_ok(sprite: (Seq<Seq<char>>, bool)) -> bool {
    0 < sprite.0.len() <= 100 && sprite.0[0].len() <= 100
}

impl Sprite {
    pub fn pad(&self) -> (r: u16)
        ensures
            r == (if self.outline {
                1u16
            } else {
                0u16
            }),
    {
        if self.outline {
            1
        } else {
            0
        }
    }

    pub fn width(&self) -> (r: u16)
        requires
            sprite_ok(sprite_view(*self)),
        ensures
            r == sprite_size(sprite_view(*self)).0,
    {
        let n = chars_of(self.rows[0]).len() as u16;
        n + 2 * self.pad()
    }

    pub fn height(&self) -> (r: u16)
        requires
            sprite_ok(sprite_view(*self)),
        ensures
            r == sprite_size(sprite_view(*self)).1,
    {
        self.rows.len() as u16 + 2 * self.pad()
    }

    /// The glyph as written, before any outline is grown around it.
    pub fn raw(&self, x: i32, y: i32) -> (r: Option<Pixel>)
        ensures
            r == raw_of(sprite_view(*self).0, x as int, y as int),
    {
        if x < 0 || y < 0 {
            return None;
        }
        let yu = y as usize;
        if yu >= self.rows.len() {
            return None;
        }
        let row = chars_of(self.rows[yu]);
        let xu = x as usize;
        if xu >= row.len() {
            return None;
        }
        if row[xu] == '#' {
            Some(Pixel::Line)
        } else if row[xu] == 'o' {
            Some(Pixel::Fill)
        } else {
            None
        }
    }

    /// Out-of-range coordinates read as transparent, which is what lets a
    /// sprite be dropped into a larger square without any bounds juggling.
    pub fn at(&self, x: u16, y: u16) -> (r: Option<Pixel>)
        ensures
            r == at_of(sprite_view(*self), x as int, y as int),
    {
        let pad = self.pad() as i32;
        let gx = x as i32 - pad;
        let gy = y as i32 - pad;
        let here = self.raw(gx, gy);
        if here.is_some() {
            return here;
        }
        if !self.outline {
            return None;
        }
        let ghost rows = sprite_view(*self).0;
        let mut dy: i32 = -1;
        while dy <= 1
            invariant
                -1 <= dy <= 2,
                rows == sprite_view(*self).0,
                self.outline,
                gx == x - 1,
                gy == y - 1,
                raw_of(rows, gx as int, gy as int) is None,
                forall|a: int, b: int|
                    -1 <= a <= 1 && -1 <= b < dy ==> #[trigger] raw_of(rows, gx + a, gy + b) is None,
            decreases 2 - dy,
        {
            let mut dx: i32 = -1;
            while dx <= 1
                invariant
                    -1 <= dx <= 2,
                    -1 <= dy <= 1,
                    rows == sprite_view(*self).0,
                    self.outline,
                    gx == x - 1,
                    gy == y - 1,
                    raw_of(rows, gx as int, gy as int) is None,
                    forall|a: int, b: int|
                        -1 <= a <= 1 && -1 <= b < dy ==> #[trigger] raw_of(rows, gx + a, gy + b) is None,
                    forall|a: int| -1 <= a < dx ==> #[trigger] raw_of(rows, gx + a, gy + dy) is None,
                decreases 2 - dx,
            {
                if self.raw(gx + dx, gy + dy).is_some() {
                    assert(raw_of(rows, gx + dx, gy + dy) is Some);
                    assert(touching(rows, gx as int, gy as int));
                    return Some(Pixel::Line);
                }
                dx += 1;
            }
            dy += 1;
        }
        assert(!touching(rows, gx as int, gy as int)) by {
            if touching(rows, gx as int, gy as int) {
                let (a, b) = choose|a: int, b: int|
                    -1 <= a <= 1 && -1 <= b <= 1 && #[trigger] raw_of(rows, gx + a, gy + b) is Some;
                assert(raw_of(rows, gx + a, gy + b) is None);
            }
        }
        None
    }
}

/// The biggest sprite a `cw` by `ch` square can hold with a margin left
/// around it, if a pixel style was asked for. The letter bitmap needs the
/// room the mid sprite does once outlined; the silhouette styles hand small
/// squares over to the sprites.
pub open spec fn sprite_for_of(style: PieceStyle, cw: u16, ch: u16, role: Role) -> Option<Glyph> {
    if style == PieceStyle::BigLetter {
        if cw >= 9 && ch >= 4 {
            Some(Glyph::Font(role))
        } else {
            None
        }
    } else if !(style == PieceStyle::Blocks || style == PieceStyle::Octant || style
        == PieceStyle::Braille) {
        None
    } else if cw >= 11 && ch >= 5 {
        Some(Glyph::Big(role))
    } else if cw >= 9 && ch >= 4 {
        Some(Glyph::Mid(role))
    } else if cw >= 7 && ch >= 3 {
        Some(Glyph::Tiny(role))
    } else {
        None
    }
}

pub fn sprite_for(style: PieceStyle, cw: u16, ch: u16, role: Role) -> (r: Option<Sprite>)
    ensures
        match sprite_for_of(style, cw, ch, role) {
            Some(g) => r matches Some(s) && sprite_view(s) == glyph_view(g),
            None => r is None,
        },
{
    if style == PieceStyle::BigLetter {
        return if cw >= 9 && ch >= 4 {
            Some(font(role))
        } else {
            None
        };
    }
    match style {
        PieceStyle::Blocks | PieceStyle::Octant | PieceStyle::Braille => {},
        _ => {
            return None;
        },
    }
    if cw >= 11 && ch >= 5 {
        Some(sprite_big(role))
    } else if cw >= 9 && ch >= 4 {
        Some(sprite_mid(role))
    } else if cw >= 7 && ch >= 3 {
        Some(sprite_tiny(role))
    } else {
        None
    }
}

/// Where a sprite sits inside its square, in pixels from the square's
/// corner: centred across, and sunk towards the bottom so the piece stands
/// on the square rather than floating in the middle of it.
pub open spec fn sprite_origin_of(sprite: (Seq<Seq<char>>, bool), cw: u16, ch: u16) -> (u16, u16) {
    let (w, h) = sprite_size(sprite);
    (((cw - w) / 2) as u16, ((2 * ch - h + 1) / 2) as u16)
}

pub fn sprite_origin(sprite: &Sprite, cw: u16, ch: u16) -> (r: (u16, u16))
    requires
        sprite_ok(sprite_view(*sprite)),
        sprite_size(sprite_view(*sprite)).0 <= cw,
        sprite_size(sprite_view(*sprite)).1 <= 2 * ch,
        2 * ch <= u16::MAX,
    ensures
        r == sprite_origin_of(sprite_view(*sprite), cw, ch),
{
    let w = sprite.width();
    let h = sprite.height();
    ((cw - w) / 2, (2 * ch - h + 1) / 2)
}

/// A sprite fits its square and stands on it: whichever one a square gets,
/// placed where [`sprite_origin`] puts it, leaves at least a pixel clear to
/// either side and above, and no more room below than above.
pub proof fn lemma_sprite_margin(style: PieceStyle, cw: u16, ch: u16, role: Role)
    requires
        2 * ch <= u16::MAX,
    ensures
        sprite_for_of(style, cw, ch, role) matches Some(g) ==> {
            let (w, h) = sprite_size(glyph_view(g));
            let (x0, y0) = sprite_origin_of(glyph_view(g), cw, ch);
            &&& 1 <= x0 && x0 + w + 1 <= cw
            &&& 1 <= y0 && y0 + h <= 2 * ch
            &&& 2 * ch - (y0 + h) <= y0
        },
{
    if let Some(g) = sprite_for_of(style, cw, ch, role) {
        lemma_glyph_size(g);
        let (w, h) = sprite_size(glyph_view(g));
        let (gw, gh) = glyph_size(g);
        assert(w == gw + if g is Font { 2int } else { 0int });
        assert(h == gh + if g is Font { 2int } else { 0int });
        // Each picture is picked only for a square with room to spare.
        assert(w + 2 <= cw && h + 1 <= 2 * ch);
    }
}

/// The pixels a big sprite may hold: the square showing through, the
/// outline, or the body.
pub open spec fn big_pixel(c: char) -> bool {
    c == '.' || c == '#' || c == 'o'
}

/// The big sprites: each is eight rows of nine pixels, every one of them
/// `.`, `#` or `o`, with a solid base of outline to stand on and no grown
/// outline; no two pieces share a picture; and in an 11x5 square it sits a
/// pixel in from the left and from the top, inside the square's 11x10
/// pixels with a clear margin all round.
pub proof fn lemma_big_sprites(a: Role, b: Role)
    ensures
        glyph_view(Glyph::Big(a)).0.len() == 8,
        forall|i: int| 0 <= i < 8 ==> #[trigger] glyph_view(Glyph::Big(a)).0[i].len() == 9,
        forall|i: int, j: int|
            0 <= i < 8 && 0 <= j < 9 ==> big_pixel(#[trigger] glyph_view(Glyph::Big(a)).0[i][j]),
        glyph_view(Glyph::Big(a)).0[7] == ".#######."@,
        !glyph_view(Glyph::Big(a)).1,
        a != b ==> glyph_view(Glyph::Big(a)) != glyph_view(Glyph::Big(b)),
        sprite_origin_of(glyph_view(Glyph::Big(a)), 11, 5) == (1u16, 1u16),
{
    reveal_strlit("....o....");
    reveal_strlit("...ooo...");
    reveal_strlit("..#ooo#..");
    reveal_strlit(".#ooooo#.");
    reveal_strlit(".#######.");
    reveal_strlit("o.o.o.o.o");
    reveal_strlit("#ooooooo#");
    reveal_strlit(".o.o.o.o.");
    reveal_strlit("...#o#...");
    reveal_strlit("..#o#o#..");
    reveal_strlit(".....oo..");
    reveal_strlit("...#oooo.");
    reveal_strlit("..#ooooo#");
    reveal_strlit(".#oooooo#");
    reveal_strlit("#o#ooooo#");
    reveal_strlit("##.#oooo#");
    reveal_strlit("...#oooo#");
    reveal_strlit(".........");
    reveal_strlit("...###...");
    let rows = glyph_view(Glyph::Big(a)).0;
    assert forall|i: int, j: int| 0 <= i < 8 && 0 <= j < 9 implies big_pixel(
        #[trigger] rows[i][j],
    ) by {
        assert(rows[i].len() == 9);
    }
    if a != b {
        let other = glyph_view(Glyph::Big(b)).0;
        // The first two rows already tell every pair apart.
        assert(rows[0][0] != other[0][0] || rows[0][1] != other[0][1] || rows[0][4]
            != other[0][4] || rows[0][5] != other[0][5] || rows[1][3] != other[1][3]);
    }
}


/// The silhouette styles draw on a canvas of dots.
#[derive(Clone, Copy, Debug, PartialEq, Eq, Structural)]
pub enum Dots {
    Octant,
    Braille,
}

/// Which dots to draw the pieces in, if a canvas style is in use and the
/// square has room for one. Below 9x4 the detail goes, so smaller squares
/// get the half-block sprites instead.
pub open spec fn canvas_dots_of(style: PieceStyle, cw: u16, ch: u16) -> Option<Dots> {
    if !(cw >= 9 && ch >= 4) {
        None
    } else if style == PieceStyle::Octant {
        Some(Dots::Octant)
    } else if style == PieceStyle::Braille {
        Some(Dots::Braille)
    } else {
        None
    }
}

pub fn canvas_dots(style: PieceStyle, cw: u16, ch: u16) -> (r: Option<Dots>)
    ensures
        r == canvas_dots_of(style, cw, ch),
{
    let dots = match style {
        PieceStyle::Octant => Dots::Octant,
        PieceStyle::Braille => Dots::Braille,
        _ => {
            return None;
        },
    };
    if cw >= 9 && ch >= 4 {
        Some(dots)
    } else {
        None
    }
}

pub open spec fn figurine_of(r: Role) -> char {
    match r {
        Role::King => '\u{265a}',
        Role::Queen => '\u{265b}',
        Role::Rook => '\u{265c}',
        Role::Bishop => '\u{265d}',
        Role::Knight => '\u{265e}',
        Role::Pawn => '\u{265f}',
    }
}

pub open spec fn letter_of(r: Role) -> char {
    match r {
        Role::King => 'K',
        Role::Queen => 'Q',
        Role::Rook => 'R',
        Role::Bishop => 'B',
        Role::Knight => 'N',
        Role::Pawn => 'P',
    }
}

/// The chess figurine for a piece, drawn in one cell.
pub fn figurine(r: Role) -> (c: char)
    ensures
        c == figurine_of(r),
{
    match r {
        Role::King => '\u{265a}',
        Role::Queen => '\u{265b}',
        Role::Rook => '\u{265c}',
        Role::Bishop => '\u{265d}',
        Role::Knight => '\u{265e}',
        Role::Pawn => '\u{265f}',
    }
}

/// The letter for a piece, for terminals that draw figurines too wide.
pub fn letter(r: Role) -> (c: char)
    ensures
        c == letter_of(r),
{
    match r {
        Role::King => 'K',
        Role::Queen => 'Q',
        Role::Rook => 'R',
        Role::Bishop => 'B',
        Role::Knight => 'N',
        Role::Pawn => 'P',
    }
}

// Three rows of line art, for squares at least three rows tall.

pub const ART_KING: [&'static str; 3] = ["\\+/", "(K)", "/_\\"];

pub const ART_QUEEN: [&'static str; 3] = ["\\o/", "(Q)", "/_\\"];

pub const ART_ROOK: [&'static str; 3] = ["|-|", "(R)", "/_\\"];

pub const ART_BISHOP: [&'static str; 3] = [".^.", "(B)", "/_\\"];

pub const ART_KNIGHT: [&'static str; 3] = ["/^)", "(N)", "/_\\"];

pub const ART_PAWN: [&'static str; 3] = [" o ", "(P)", "/_\\"];

pub open spec fn art_of(role: Role) -> Seq<&'static str> {
    match role {
        Role::King => ART_KING@,
        Role::Queen => ART_QUEEN@,
        Role::Rook => ART_ROOK@,
        Role::Bishop => ART_BISHOP@,
        Role::Knight => ART_KNIGHT@,
        Role::Pawn => ART_PAWN@,
    }
}

pub fn art(role: Role) -> (r: [&'static str; 3])
    ensures
        r@ == art_of(role),
{
    match role {
        Role::King => ART_KING,
        Role::Queen => ART_QUEEN,
        Role::Rook => ART_ROOK,
        Role::Bishop => ART_BISHOP,
        Role::Knight => ART_KNIGHT,
        Role::Pawn => ART_PAWN,
    }
}

/// The rows of text that make up a piece, given how much room the square
/// has. Art that cannot fit falls back to a figurine rather than vanishing.
pub open spec fn piece_rows_of(role: Role, style: PieceStyle, cell_h: u16) -> Seq<Seq<char>> {
    if style == PieceStyle::Art && cell_h >= 3 {
        rows_view(art_of(role))
    } else if style == PieceStyle::Letter || style == PieceStyle::BigLetter {
        seq![seq![letter_of(role)]]
    } else {
        seq![seq![figurine_of(role)]]
    }
}

pub fn piece_rows(role: Role, style: PieceStyle, cell_h: u16) -> (r: Vec<String>)
    ensures
        strings_view(r@) == piece_rows_of(role, style, cell_h),
{
    if style == PieceStyle::Art && cell_h >= 3 {
        let a = art(role);
        let mut v: Vec<String> = Vec::new();
        v.push(String::from_str(a[0]));
        v.push(String::from_str(a[1]));
        v.push(String::from_str(a[2]));
        assert(strings_view(v@) =~= rows_view(art_of(role)));
        return v;
    }
    let single = match style {
        PieceStyle::Letter | PieceStyle::BigLetter => letter(role),
        _ => figurine(role),
    };
    let mut s = String::new();
    crate::text::push_char(&mut s, single);
    let mut v: Vec<String> = Vec::new();
    v.push(s);
    assert(strings_view(v@) =~= seq![seq![single]]);
    v
}

/// A true colour.
#[derive(Clone, Copy, Debug, PartialEq, Eq, Structural)]
pub struct Rgb(pub u8, pub u8, pub u8);

/// The colours one side's pieces are drawn in.
#[derive(Clone, Copy, Debug, PartialEq, Eq, Structural)]
pub struct Ink {
    pub fill: Rgb,
    pub line: Rgb,
}

/// Both sides are outlined in near-black; black's body is lifted off it far
/// enough that the outline still reads against the body, and stays dark
/// enough to tell from white at a glance. A letter is all thin strokes, and
/// the grown outline closes up its counters, so there the body carries the
/// contrast against the outline rather than against the square.
pub open spec fn ink_of(style: PieceStyle, side: Side) -> Ink {
    if style == PieceStyle::BigLetter {
        match side {
            Side::White => Ink { fill: Rgb(245, 242, 236), line: Rgb(18, 16, 14) },
            Side::Black => Ink { fill: Rgb(128, 115, 103), line: Rgb(18, 16, 14) },
        }
    } else {
        match side {
            Side::White => Ink { fill: Rgb(242, 239, 232), line: Rgb(46, 40, 35) },
            Side::Black => Ink { fill: Rgb(68, 60, 54), line: Rgb(14, 12, 11) },
        }
    }
}

fn ink(style: PieceStyle, side: Side) -> (r: Ink)
    ensures
        r == ink_of(style, side),
{
    match (style, side) {
        (PieceStyle::BigLetter, Side::White) => Ink { fill: Rgb(245, 242, 236), line: Rgb(18, 16, 14) },
        (PieceStyle::BigLetter, _) => Ink { fill: Rgb(128, 115, 103), line: Rgb(18, 16, 14) },
        (_, Side::White) => Ink { fill: Rgb(242, 239, 232), line: Rgb(46, 40, 35) },
        _ => Ink { fill: Rgb(68, 60, 54), line: Rgb(14, 12, 11) },
    }
}

/// The `(body, outline)` colours a side's pieces are drawn in.
pub fn piece_ink(style: PieceStyle, side: Side) -> (r: (Rgb, Rgb))
    ensures
        r == (ink_of(style, side).fill, ink_of(style, side).line),
{
    let i = ink(style, side);
    (i.fill, i.line)
}

/// The colour a side's silhouettes are drawn in on the canvas.
pub open spec fn canvas_colour_of(side: Side) -> Rgb {
    match side {
        Side::White => Rgb(255, 255, 255),
        Side::Black => Rgb(20, 18, 16),
    }
}

pub fn canvas_colour(side: Side) -> (r: Rgb)
    ensures
        r == canvas_colour_of(side),
{
    match side {
        Side::White => Rgb(255, 255, 255),
        Side::Black => Rgb(20, 18, 16),
    }
}

/// A square's own colour: dark where file and rank add up even, a1 among
/// them, and tinted where the last move left or landed.
pub open spec fn square_colour_of(file: u8, rank: u8, last_move: bool) -> Rgb {
    let dark = (file + rank) % 2 == 0;
    if dark && !last_move {
        Rgb(137, 99, 73)
    } else if !dark && !last_move {
        Rgb(214, 194, 162)
    } else if dark {
        Rgb(163, 150, 71)
    } else {
        Rgb(206, 204, 122)
    }
}

pub fn square_colour(file: u8, rank: u8, last_move: bool) -> (r: Rgb)
    requires
        file < 8,
        rank < 8,
    ensures
        r == square_colour_of(file, rank, last_move),
{
    let dark = (file + rank) % 2 == 0;
    if dark && !last_move {
        Rgb(137, 99, 73)
    } else if !dark && !last_move {
        Rgb(214, 194, 162)
    } else if dark {
        Rgb(163, 150, 71)
    } else {
        Rgb(206, 204, 122)
    }
}

/// A run of text in one cell colour.
pub struct Cell {
    pub text: String,
    /// The foreground, if the text has any ink in it.
    pub fg: Option<Rgb>,
    pub bg: Rgb,
    pub bold: bool,
}

pub open spec fn cell_view(c: Cell) -> (Seq<char>, Option<Rgb>, Rgb, bool) {
    (c.text@, c.fg, c.bg, c.bold)
}

pub open spec fn cells_view(cs: Seq<Cell>) -> Seq<(Seq<char>, Option<Rgb>, Rgb, bool)> {
    cs.map_values(|c: Cell| cell_view(c))
}

/// How many columns some runs of text take, a character each.
pub open spec fn columns(cs: Seq<(Seq<char>, Option<Rgb>, Rgb, bool)>) -> nat
    decreases cs.len(),
{
    if cs.len() == 0 {
        0
    } else {
        columns(cs.drop_last()) + cs.last().0.len()
    }
}

/// `a - b` as `u16::wrapping_sub` has it.
pub open spec fn wrap_sub(a: u16, b: u16) -> u16 {
    if a >= b {
        (a - b) as u16
    } else {
        (a - b + 0x10000) as u16
    }
}

pub open spec fn colour_of(ink: Ink, bg: Rgb, p: Option<Pixel>) -> Rgb {
    match p {
        Some(Pixel::Line) => ink.line,
        Some(Pixel::Fill) => ink.fill,
        None => bg,
    }
}

/// One column of a sprite on one row of a square: the top pixel in the
/// foreground of an upper half block and the bottom one in its background,
/// or a plain blank where neither has anything drawn.
pub open spec fn half_block(
    sprite: (Seq<Seq<char>>, bool),
    ink: Ink,
    bg: Rgb,
    sx: u16,
    ty: u16,
    by: u16,
) -> (Seq<char>, Option<Rgb>, Rgb, bool) {
    let top = at_of(sprite, sx as int, ty as int);
    let bottom = at_of(sprite, sx as int, by as int);
    if top is None && bottom is None {
        (seq![' '], None, bg, false)
    } else {
        (seq!['\u{2580}'], Some(colour_of(ink, bg, top)), colour_of(ink, bg, bottom), false)
    }
}

/// One square's worth of a piece, on row `sub` of a `cw` by `ch` square of
/// colour `bg`: blank for a canvas piece, which is stamped over the board
/// once it is drawn; a sprite's half blocks where one fits; else its rows
/// of text, centred and sunk to the bottom, in its side's body colour, bold
/// for white.
pub open spec fn piece_cell_of(
    role: Role,
    side: Side,
    sub: u16,
    cw: u16,
    ch: u16,
    style: PieceStyle,
    bg: Rgb,
) -> Seq<(Seq<char>, Option<Rgb>, Rgb, bool)> {
    if canvas_dots_of(style, cw, ch) is Some {
        seq![(spaces(cw as nat), None, bg, false)]
    } else {
        let ink = ink_of(style, side);
        match sprite_for_of(style, cw, ch, role) {
            Some(g) => {
                let sp = glyph_view(g);
                let (x0, y0) = sprite_origin_of(sp, cw, ch);
                Seq::new(
                    cw as nat,
                    |x: int|
                        half_block(
                            sp,
                            ink,
                            bg,
                            wrap_sub(x as u16, x0),
                            wrap_sub((2 * sub) as u16, y0),
                            wrap_sub((2 * sub + 1) as u16, y0),
                        ),
                )
            },
            None => {
                let rows = piece_rows_of(role, style, ch);
                let top = ((ch - rows.len() + 1) / 2) as int;
                let content = if sub >= top && sub - top < rows.len() {
                    centre_of(rows[sub - top], cw as nat)
                } else {
                    spaces(cw as nat)
                };
                seq![(content, Some(ink.fill), bg, side == Side::White)]
            },
        }
    }
}

proof fn lemma_columns_push(cs: Seq<(Seq<char>, Option<Rgb>, Rgb, bool)>, c: (Seq<char>, Option<Rgb>, Rgb, bool))
    ensures
        columns(cs.push(c)) == columns(cs) + c.0.len(),
{
    assert(cs.push(c).drop_last() =~= cs);
}

fn blank(n: u16) -> (r: String)
    ensures
        r@ == spaces(n as nat),
{
    let mut s = String::new();
    let mut i: u16 = 0;
    while i < n
        invariant
            i <= n,
            s@ =~= spaces(i as nat),
        decreases n - i,
    {
        crate::text::push_char(&mut s, ' ');
        i += 1;
    }
    s
}

fn one_char(c: char) -> (r: String)
    ensures
        r@ == seq![c],
{
    let mut s = String::new();
    crate::text::push_char(&mut s, c);
    assert(s@ =~= seq![c]);
    s
}

/// One square's worth of one piece, on one row of the board. Always exactly
/// `cw` columns, so callers can lay squares out side by side without
/// measuring.
pub fn piece_cell(
    role: Role,
    side: Side,
    sub: u16,
    cw: u16,
    ch: u16,
    style: PieceStyle,
    bg: Rgb,
) -> (r: Vec<Cell>)
    requires
        ch >= 1,
        2 * ch <= u16::MAX,
        2 * sub + 1 <= u16::MAX,
    ensures
        cells_view(r@) == piece_cell_of(role, side, sub, cw, ch, style, bg),
        columns(cells_view(r@)) == cw,
{
    if canvas_dots(style, cw, ch).is_some() {
        let mut v: Vec<Cell> = Vec::new();
        v.push(Cell { text: blank(cw), fg: None, bg, bold: false });
        assert(cells_view(v@) =~= seq![(spaces(cw as nat), None, bg, false)]);
        proof {
            lemma_columns_push(Seq::empty(), (spaces(cw as nat), None, bg, false));
            assert(seq![(spaces(cw as nat), None::<Rgb>, bg, false)] =~= Seq::<(Seq<char>, Option<Rgb>, Rgb, bool)>::empty().push((spaces(cw as nat), None, bg, false)));
        }
        return v;
    }
    let ink = ink(style, side);
    match sprite_for(style, cw, ch, role) {
        Some(sprite) => {
            let ghost g = sprite_for_of(style, cw, ch, role)->0;
            proof {
                lemma_glyph_size(g);
            }
            let (x0, y0) = sprite_origin(&sprite, cw, ch);
            let ghost sp = sprite_view(sprite);
            let mut v: Vec<Cell> = Vec::new();
            let mut x: u16 = 0;
            while x < cw
                invariant
                    x <= cw,
                    sp == sprite_view(sprite),
                    sp == glyph_view(g),
                    ink == ink_of(style, side),
                    (x0, y0) == sprite_origin_of(sp, cw, ch),
                    2 * sub + 1 <= u16::MAX,
                    cells_view(v@) =~= Seq::new(
                        x as nat,
                        |i: int|
                            half_block(
                                sp,
                                ink,
                                bg,
                                wrap_sub(i as u16, x0),
                                wrap_sub((2 * sub) as u16, y0),
                                wrap_sub((2 * sub + 1) as u16, y0),
                            ),
                    ),
                    columns(cells_view(v@)) == x,
                decreases cw - x,
            {
                let sx = x.wrapping_sub(x0);
                let top = sprite.at(sx, (2 * sub).wrapping_sub(y0));
                let bottom = sprite.at(sx, (2 * sub + 1).wrapping_sub(y0));
                let cell = if top.is_none() && bottom.is_none() {
                    Cell { text: one_char(' '), fg: None, bg, bold: false }
                } else {
                    let fg = match top {
                        Some(Pixel::Line) => ink.line,
                        Some(Pixel::Fill) => ink.fill,
                        None => bg,
                    };
                    let under = match bottom {
                        Some(Pixel::Line) => ink.line,
                        Some(Pixel::Fill) => ink.fill,
                        None => bg,
                    };
                    Cell { text: one_char('\u{2580}'), fg: Some(fg), bg: under, bold: false }
                };
                let ghost before = cells_view(v@);
                proof {
                    lemma_columns_push(before, cell_view(cell));
                }
                v.push(cell);
                assert(cells_view(v@) =~= before.push(cell_view(cell)));
                x += 1;
            }
            v
        },
        None => {
            let rows = piece_rows(role, style, ch);
            assert(rows@.len() == strings_view(rows@).len());
            assert(rows@.len() <= ch);
            let n = rows.len() as u16;
            let top = (ch - n + 1) / 2;
            let content = if sub >= top && ((sub - top) as usize) < rows.len() {
                centre(rows[(sub - top) as usize].as_str(), cw)
            } else {
                blank(cw)
            };
            let bold = match side {
                Side::White => true,
                Side::Black => false,
            };
            let mut v: Vec<Cell> = Vec::new();
            let ghost c = (content@, Some(ink.fill), bg, bold);
            v.push(Cell { text: content, fg: Some(ink.fill), bg, bold });
            proof {
                lemma_columns_push(Seq::empty(), c);
                assert(cells_view(v@) =~= Seq::<(Seq<char>, Option<Rgb>, Rgb, bool)>::empty().push(c));
            }
            v
        },
    }
}

} // verus!
