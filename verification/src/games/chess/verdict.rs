//! The verdict once a game is lost: the word spelled out across the board a
//! letter at a time, who won, and where on the board it goes.
//!
//! How far the word has been spelled, and the colour each letter cools
//! through, follow the clock and are worked out by whoever draws.

use vstd::prelude::*;

use super::app::Ending;
use super::controls::{other, side_word, state_line_of, ControlsView, Side, Standing};
use super::pieces::rows_view;
use super::ui::{Geometry, Square};
use crate::text::{chars_of, joined, push_char};
use crate::ui::{centred, centred_of, fits_on_screen, Rect};

verus! {

broadcast use vstd::string::group_string_axioms;

// The letters of CHECKMATE and RESIGNED, five blocks square.

pub const LETTER_C: [&'static str; 5] = [
    " ████",
    "█    ",
    "█    ",
    "█    ",
    " ████",
];

pub const LETTER_H: [&'static str; 5] = [
    "█   █",
    "█   █",
    "█████",
    "█   █",
    "█   █",
];

pub const LETTER_E: [&'static str; 5] = [
    "█████",
    "█    ",
    "████ ",
    "█    ",
    "█████",
];

pub const LETTER_K: [&'static str; 5] = [
    "█   █",
    "█  █ ",
    "███  ",
    "█  █ ",
    "█   █",
];

pub const LETTER_M: [&'static str; 5] = [
    "█   █",
    "██ ██",
    "█ █ █",
    "█   █",
    "█   █",
];

pub const LETTER_A: [&'static str; 5] = [
    " ███ ",
    "█   █",
    "█████",
    "█   █",
    "█   █",
];

pub const LETTER_T: [&'static str; 5] = [
    "█████",
    "  █  ",
    "  █  ",
    "  █  ",
    "  █  ",
];

pub const LETTER_R: [&'static str; 5] = [
    "████ ",
    "█   █",
    "████ ",
    "█  █ ",
    "█   █",
];

pub const LETTER_S: [&'static str; 5] = [
    " ████",
    "█    ",
    " ███ ",
    "    █",
    "████ ",
];

pub const LETTER_I: [&'static str; 5] = [
    "█████",
    "  █  ",
    "  █  ",
    "  █  ",
    "█████",
];

pub const LETTER_G: [&'static str; 5] = [
    " ████",
    "█    ",
    "█  ██",
    "█   █",
    " ████",
];

pub const LETTER_N: [&'static str; 5] = [
    "█   █",
    "██  █",
    "█ █ █",
    "█  ██",
    "█   █",
];

pub const LETTER_D: [&'static str; 5] = [
    "████ ",
    "█   █",
    "█   █",
    "█   █",
    "████ ",
];

pub const LETTER_BLANK: [&'static str; 5] = ["     ", "     ", "     ", "     ", "     "];

pub open spec fn glyph_of(c: char) -> Seq<&'static str> {
    if c == 'C' {
        LETTER_C@
    } else if c == 'H' {
        LETTER_H@
    } else if c == 'E' {
        LETTER_E@
    } else if c == 'K' {
        LETTER_K@
    } else if c == 'M' {
        LETTER_M@
    } else if c == 'A' {
        LETTER_A@
    } else if c == 'T' {
        LETTER_T@
    } else if c == 'R' {
        LETTER_R@
    } else if c == 'S' {
        LETTER_S@
    } else if c == 'I' {
        LETTER_I@
    } else if c == 'G' {
        LETTER_G@
    } else if c == 'N' {
        LETTER_N@
    } else if c == 'D' {
        LETTER_D@
    } else {
        LETTER_BLANK@
    }
}

/// A letter of the verdict in big blocks; anything else is blank.
pub fn glyph(c: char) -> (r: [&'static str; 5])
    ensures
        r@ == glyph_of(c),
{
    match c {
        'C' => LETTER_C,
        'H' => LETTER_H,
        'E' => LETTER_E,
        'K' => LETTER_K,
        'M' => LETTER_M,
        'A' => LETTER_A,
        'T' => LETTER_T,
        'R' => LETTER_R,
        'S' => LETTER_S,
        'I' => LETTER_I,
        'G' => LETTER_G,
        'N' => LETTER_N,
        'D' => LETTER_D,
        _ => LETTER_BLANK,
    }
}

pub open spec fn verdict_word_of(how: Ending) -> Seq<char> {
    match how {
        Ending::Checkmate => "CHECKMATE"@,
        Ending::Resignation => "RESIGNED"@,
    }
}

pub open spec fn word_len(how: Ending) -> nat {
    match how {
        Ending::Checkmate => 9,
        Ending::Resignation => 8,
    }
}

pub fn verdict_word(how: Ending) -> (r: &'static str)
    ensures
        r@ == verdict_word_of(how),
        r@.len() == word_len(how),
{
    proof {
        reveal_strlit("CHECKMATE");
        reveal_strlit("RESIGNED");
    }
    match how {
        Ending::Checkmate => "CHECKMATE",
        Ending::Resignation => "RESIGNED",
    }
}

/// The word as drawn with its first `shown` letters revealed: in big
/// letters, five rows with a glyph's row for each letter; else one row with
/// each letter and a space after it. Letters still to come are blank.
pub open spec fn banner_rows_of(word: Seq<char>, shown: nat, big: bool) -> Seq<Seq<Seq<char>>> {
    if big {
        Seq::new(
            5,
            |row: int|
                Seq::new(
                    word.len(),
                    |i: int|
                        if i < shown {
                            rows_view(glyph_of(word[i]))[row]
                        } else {
                            rows_view(LETTER_BLANK@)[row]
                        },
                ),
        )
    } else {
        seq![
            Seq::new(
                word.len(),
                |i: int|
                    if i < shown {
                        seq![word[i], ' ']
                    } else {
                        seq![' ', ' ']
                    },
            ),
        ]
    }
}

pub open spec fn rows_of_strings(v: Seq<Vec<String>>) -> Seq<Seq<Seq<char>>> {
    v.map_values(|r: Vec<String>| r@.map_values(|s: String| s@))
}

/// The rows of the verdict word, a piece of text per letter, with the first
/// `shown` letters revealed.
pub fn banner_rows(how: Ending, shown: usize, big: bool) -> (r: Vec<Vec<String>>)
    ensures
        rows_of_strings(r@) == banner_rows_of(verdict_word_of(how), shown as nat, big),
{
    let word = chars_of(verdict_word(how));
    let ghost w = verdict_word_of(how);
    let mut out: Vec<Vec<String>> = Vec::new();
    if big {
        let mut row: usize = 0;
        while row < 5
            invariant
                row <= 5,
                word@ == w,
                big,
                rows_of_strings(out@) =~= banner_rows_of(w, shown as nat, big).take(row as int),
            decreases 5 - row,
        {
            let mut texts: Vec<String> = Vec::new();
            let mut i: usize = 0;
            while i < word.len()
                invariant
                    i <= word.len(),
                    row < 5,
                    word@ == w,
                    big,
                    texts@.map_values(|s: String| s@) =~= banner_rows_of(w, shown as nat, big)[row as int].take(
                        i as int,
                    ),
                decreases word.len() - i,
            {
                let g = if i < shown {
                    glyph(word[i])
                } else {
                    LETTER_BLANK
                };
                let ghost before = texts@;
                texts.push(String::from_str(g[row]));
                assert(texts@.map_values(|s: String| s@) =~= before.map_values(|s: String| s@).push(
                    texts@.last()@,
                ));
                i += 1;
            }
            assert(banner_rows_of(w, shown as nat, big)[row as int].take(word.len() as int)
                =~= banner_rows_of(w, shown as nat, big)[row as int]);
            assert(banner_rows_of(w, shown as nat, big).take(row + 1) =~= banner_rows_of(
                w,
                shown as nat,
                big,
            ).take(row as int).push(banner_rows_of(w, shown as nat, big)[row as int]));
            let ghost before = out@;
            out.push(texts);
            assert(rows_of_strings(out@) =~= rows_of_strings(before).push(
                out@.last()@.map_values(|s: String| s@),
            ));
            row += 1;
        }
    } else {
        let mut texts: Vec<String> = Vec::new();
        let mut i: usize = 0;
        while i < word.len()
            invariant
                i <= word.len(),
                word@ == w,
                !big,
                texts@.map_values(|s: String| s@) =~= banner_rows_of(w, shown as nat, big)[0].take(
                    i as int,
                ),
            decreases word.len() - i,
        {
            let c = if i < shown {
                word[i]
            } else {
                ' '
            };
            let mut t = String::new();
            push_char(&mut t, c);
            push_char(&mut t, ' ');
            assert(t@ =~= seq![c, ' ']);
            let ghost before = texts@;
            texts.push(t);
            assert(texts@.map_values(|s: String| s@) =~= before.map_values(|s: String| s@).push(
                seq![c, ' '],
            ));
            i += 1;
        }
        assert(banner_rows_of(w, shown as nat, big)[0].take(word.len() as int) =~= banner_rows_of(
            w,
            shown as nat,
            big,
        )[0]);
        out.push(texts);
        assert(rows_of_strings(out@) =~= banner_rows_of(w, shown as nat, big));
    }
    out
}

/// Who won, said to whoever is looking: to a player, in terms of them and
/// the opponent they see named; at a shared keyboard, by colour.
pub open spec fn verdict_of(how: Ending, me: Option<Side>, loser: Side, peer: Seq<char>) -> Seq<char> {
    match how {
        Ending::Checkmate => match me {
            Some(m) => if m == loser {
                peer + " wins"@
            } else {
                "you win"@
            },
            None => side_word(other(loser)) + " wins"@,
        },
        Ending::Resignation => match me {
            Some(m) => if m == loser {
                "you resigned"@
            } else {
                peer + " resigned \u{b7} you win"@
            },
            None => side_word(loser) + " resigns \u{b7} "@ + side_word(other(loser)) + " wins"@,
        },
    }
}

/// At a shared keyboard the verdict names the winner, the side other than
/// the one that lost, whatever the opponent is called: black when white is
/// mated, white when black is. A resignation names both, the one that
/// resigned first. With a side of one's own, a mate is "you win" for the
/// winner and the opponent's win for the loser.
pub proof fn lemma_verdict_names_the_winner(loser: Side, peer: Seq<char>, other_peer: Seq<char>)
    ensures
        verdict_of(Ending::Checkmate, None, Side::White, peer) == "black wins"@,
        verdict_of(Ending::Checkmate, None, Side::Black, peer) == "white wins"@,
        verdict_of(Ending::Checkmate, None, loser, peer) == verdict_of(
            Ending::Checkmate,
            None,
            loser,
            other_peer,
        ),
        verdict_of(Ending::Resignation, None, Side::White, peer) == "white resigns \u{b7} black wins"@,
        verdict_of(Ending::Resignation, None, Side::Black, peer) == "black resigns \u{b7} white wins"@,
        verdict_of(Ending::Checkmate, Some(other(loser)), loser, peer) == "you win"@,
        verdict_of(Ending::Checkmate, Some(loser), loser, peer) == peer + " wins"@,
{
    reveal_strlit("black wins");
    reveal_strlit("white wins");
    reveal_strlit(" wins");
    reveal_strlit("white");
    reveal_strlit("black");
    reveal_strlit(" resigns \u{b7} ");
    reveal_strlit("white resigns \u{b7} black wins");
    reveal_strlit("black resigns \u{b7} white wins");
    assert(verdict_of(Ending::Checkmate, None, Side::White, peer) =~= "black wins"@);
    assert(verdict_of(Ending::Checkmate, None, Side::Black, peer) =~= "white wins"@);
    assert(verdict_of(Ending::Resignation, None, Side::White, peer)
        =~= "white resigns \u{b7} black wins"@);
    assert(verdict_of(Ending::Resignation, None, Side::Black, peer)
        =~= "black resigns \u{b7} white wins"@);
}

/// The status line and the verdict agree on who mated whom: with the side
/// to move mated at a shared keyboard, the status line is "checkmate — "
/// and then the verdict for that side losing.
pub proof fn lemma_status_agrees_with_verdict(c: ControlsView, s: Standing, peer: Seq<char>)
    requires
        s.resigned is None,
        !c.draw.agreed,
        s.checkmate,
    ensures
        state_line_of(c, s).0 == "checkmate \u{2014} "@ + verdict_of(Ending::Checkmate, None, s.turn, peer),
{
    assert(state_line_of(c, s).0 =~= "checkmate \u{2014} "@ + verdict_of(Ending::Checkmate, None, s.turn, peer));
}

fn side_text(s: Side) -> (r: &'static str)
    ensures
        r@ == side_word(s),
{
    match s {
        Side::White => "white",
        Side::Black => "black",
    }
}

/// The line under the verdict saying who won. `me` is the side this player
/// has, or none at a shared keyboard; `peer` is what the opponent is called.
pub fn verdict_text(how: Ending, me: Option<Side>, loser: Side, peer: &str) -> (r: String)
    ensures
        r@ == verdict_of(how, me, loser, peer@),
{
    let winner = match loser {
        Side::White => Side::Black,
        Side::Black => Side::White,
    };
    match how {
        Ending::Checkmate => match me {
            Some(m) => if m == loser {
                joined(peer, " wins")
            } else {
                String::from_str("you win")
            },
            None => joined(side_text(winner), " wins"),
        },
        Ending::Resignation => match me {
            Some(m) => if m == loser {
                String::from_str("you resigned")
            } else {
                joined(peer, " resigned \u{b7} you win")
            },
            None => {
                let a = joined(side_text(loser), " resigns \u{b7} ");
                let b = joined(a.as_str(), side_text(winner));
                joined(b.as_str(), " wins")
            },
        },
    }
}

/// Whether the board has room for the word in big letters.
pub open spec fn banner_big_of(board: Rect, how: Ending) -> bool {
    board.width >= word_len(how) * 6 - 1 + 6 && board.height >= 13
}

pub fn banner_big(board: Rect, how: Ending) -> (r: bool)
    ensures
        r == banner_big_of(board, how),
{
    let len = chars_of(verdict_word(how)).len() as u16;
    board.width >= len * 6 - 1 + 6 && board.height >= 13
}

/// The row of the screen grid a square is drawn on.
pub open spec fn screen_row_of(sq: Square, flipped: bool) -> u16 {
    if flipped {
        sq.rank as u16
    } else {
        (7 - sq.rank) as u16
    }
}

/// Where the verdict box goes: sized for the word, big or small, and the
/// lines under it once it is done; in the half of the board away from the
/// losing king, so the mate stays in view, if it fits there, and else in
/// the middle of the board.
pub open spec fn verdict_box_of(g: Geometry, how: Ending, done: bool, king_row: u16) -> Rect {
    let big = banner_big_of(g.board, how);
    let len = word_len(how) as int;
    let lines: int = 2 + (if big {
        5int
    } else {
        1int
    }) + (if done {
        2int
    } else {
        0int
    });
    let w: int = if big {
        len * 6 - 1 + 6
    } else {
        2 * len + 8
    };
    let width: int = if w >= 30 {
        w
    } else {
        30
    };
    let height: int = (if big {
        if lines >= 10 {
            lines
        } else {
            10
        }
    } else {
        if lines >= 5 {
            lines
        } else {
            5
        }
    }) + 2;
    let half = (g.grid.height / 2) as u16;
    let away = Rect {
        x: g.board.x,
        y: (if king_row < 4 {
            g.grid.y + half
        } else {
            g.grid.y as int
        }) as u16,
        width: g.board.width,
        height: half,
    };
    centred_of(if height <= half {
        away
    } else {
        g.board
    }, width as u16, height as u16)
}

pub fn verdict_box(g: &Geometry, how: Ending, done: bool, king: Option<Square>, flipped: bool) -> (r: Rect)
    requires
        fits_on_screen(g.board, 0),
        g.grid.y + g.grid.height <= u16::MAX,
        king matches Some(k) ==> k.rank < 8,
    ensures
        r == verdict_box_of(
            *g,
            how,
            done,
            match king {
                Some(k) => screen_row_of(k, flipped),
                None => 0,
            },
        ),
{
    let big = banner_big(g.board, how);
    let len = chars_of(verdict_word(how)).len() as u16;
    let lines: u16 = 2 + (if big {
        5
    } else {
        1
    }) + (if done {
        2
    } else {
        0
    });
    let w = if big {
        len * 6 - 1 + 6
    } else {
        2 * len + 8
    };
    let width = if w >= 30 {
        w
    } else {
        30
    };
    let least: u16 = if big {
        10
    } else {
        5
    };
    let height = (if lines >= least {
        lines
    } else {
        least
    }) + 2;
    let half = g.grid.height / 2;
    let king_row: u16 = match king {
        Some(k) => if flipped {
            k.rank as u16
        } else {
            7 - k.rank as u16
        },
        None => 0,
    };
    let away = Rect {
        x: g.board.x,
        y: if king_row < 4 {
            g.grid.y + half
        } else {
            g.grid.y
        },
        width: g.board.width,
        height: half,
    };
    let area = if height <= half {
        away
    } else {
        g.board
    };
    centred(area, width, height)
}

} // verus!
