//! The words around the board: the list of moves, the captured pieces, the
//! key hints in the footer, and how long ago something happened. Putting
//! them on the screen is left to whoever draws.

use vstd::prelude::*;

use super::pieces::{figurine, figurine_of, letter, letter_of, Role};
use crate::games::chrome::{span_view, Span, Tone};
use crate::text::{chars_of, decimal, decimal_string, joined, push_char, string_of};

verus! {

broadcast use vstd::string::group_string_axioms;

/// `n` spaces.
pub open spec fn spaces(n: nat) -> Seq<char> {
    Seq::new(n, |i: int| ' ')
}

/// `format!("{:>w$}")`: padded on the left to `w` characters.
pub open spec fn pad_left(s: Seq<char>, w: nat) -> Seq<char> {
    if s.len() >= w {
        s
    } else {
        spaces((w - s.len()) as nat) + s
    }
}

/// `format!("{:<w$}")`: padded on the right to `w` characters.
pub open spec fn pad_right(s: Seq<char>, w: nat) -> Seq<char> {
    if s.len() >= w {
        s
    } else {
        s + spaces((w - s.len()) as nat)
    }
}

fn push_spaces(s: &mut String, n: usize)
    ensures
        final(s)@ == old(s)@ + spaces(n as nat),
{
    let mut i: usize = 0;
    while i < n
        invariant
            i <= n,
            s@ == old(s)@ + spaces(i as nat),
        decreases n - i,
    {
        push_char(s, ' ');
        i += 1;
        assert(old(s)@ + spaces(i as nat) =~= (old(s)@ + spaces((i - 1) as nat)).push(' '));
    }
}

fn padded_left(s: &str, w: usize) -> (r: String)
    ensures
        r@ == pad_left(s@, w as nat),
{
    let n = chars_of(s).len();
    let mut out = String::new();
    if n < w {
        push_spaces(&mut out, w - n);
    }
    assert(Seq::<char>::empty() + spaces(0) =~= Seq::<char>::empty());
    let r = joined(out.as_str(), s);
    assert(s@.len() >= w ==> r@ =~= s@);
    r
}

fn padded_right(s: &str, w: usize) -> (r: String)
    ensures
        r@ == pad_right(s@, w as nat),
{
    let n = chars_of(s).len();
    let mut out = String::from_str(s);
    if n < w {
        push_spaces(&mut out, w - n);
    } else {
        assert(out@ == pad_right(s@, w as nat));
    }
    out
}

/// One line of the move list: the move number, right-aligned in three
/// columns with a dot, white's move in eight, and black's, if made.
pub open spec fn move_line(history: Seq<Seq<char>>, k: int) -> (Seq<char>, Seq<char>, Seq<char>) {
    (
        pad_left(decimal((k + 1) as nat), 3) + ". "@,
        pad_right(history[2 * k], 8),
        if 2 * k + 1 < history.len() {
            history[2 * k + 1]
        } else {
            Seq::empty()
        },
    )
}

/// How many lines the whole game takes, a move each for white and black.
pub open spec fn move_count(history: Seq<Seq<char>>) -> nat {
    ((history.len() + 1) / 2) as nat
}

/// The move list, keeping the tail of the game visible in `rows` lines.
pub open spec fn move_lines_of(history: Seq<Seq<char>>, rows: nat) -> Seq<
    (Seq<char>, Seq<char>, Seq<char>),
> {
    let n = move_count(history);
    let shown = if n <= rows {
        n
    } else {
        rows
    };
    Seq::new(shown, |j: int| move_line(history, (n - shown) + j))
}

pub open spec fn strings_view(v: Seq<String>) -> Seq<Seq<char>> {
    v.map_values(|s: String| s@)
}

pub open spec fn triple_view(t: (String, String, String)) -> (Seq<char>, Seq<char>, Seq<char>) {
    (t.0@, t.1@, t.2@)
}

/// The moves so far, numbered and paired, as many of the last as fit in
/// `rows` lines.
pub fn move_lines(history: &Vec<String>, rows: usize) -> (r: Vec<(String, String, String)>)
    ensures
        r@.map_values(|t: (String, String, String)| triple_view(t)) == move_lines_of(
            strings_view(history@),
            rows as nat,
        ),
{
    let ghost h = strings_view(history@);
    let n = history.len() / 2 + history.len() % 2;
    assert(n == move_count(h));
    let shown = if n <= rows {
        n
    } else {
        rows
    };
    let first = n - shown;
    let mut out: Vec<(String, String, String)> = Vec::new();
    let mut k: usize = first;
    while k < n
        invariant
            h == strings_view(history@),
            n == move_count(h),
            first == n - shown,
            first <= k <= n,
            shown <= n,
            out@.map_values(|t: (String, String, String)| triple_view(t)) =~= Seq::new(
                (k - first) as nat,
                |j: int| move_line(h, first + j),
            ),
        decreases n - k,
    {
        assert(2 * k < history.len());
        let number = decimal_string((k + 1) as u64);
        let num = padded_left(number.as_str(), 3);
        let numbered = joined(num.as_str(), ". ");
        let white = padded_right(history[2 * k].as_str(), 8);
        let black = if 2 * k + 1 < history.len() {
            history[2 * k + 1].clone()
        } else {
            String::new()
        };
        proof {
            reveal_strlit(". ");
        }
        let ghost before = out@;
        out.push((numbered, white, black));
        assert(h[2 * k as int] == history@[2 * k as int]@);
        assert(2 * k + 1 < history.len() ==> h[2 * k + 1] == history@[2 * k + 1]@);
        assert(triple_view(out@.last()) == move_line(h, k as int));
        assert(out@.map_values(|t: (String, String, String)| triple_view(t)) =~= before.map_values(
            |t: (String, String, String)| triple_view(t),
        ).push(triple_view(out@.last())));
        k += 1;
    }
    out
}

/// The key hints in the footer, fewer as the terminal narrows.
pub open spec fn footer_keys_of(promoting: bool, width: u16) -> Seq<char> {
    if promoting {
        "click a piece, or \u{2190}/\u{2192} and enter   esc cancel"@
    } else if width >= 92 {
        "click or drag to move   arrows/hjkl   f flip   p pieces   m mouse   r resign   d draw   q lobby"@
    } else if width >= 62 {
        "click or drag   f flip   p pieces   r resign   d draw   q lobby"@
    } else {
        "click to move   f flip   r resign   q lobby"@
    }
}

pub fn footer_keys(promoting: bool, width: u16) -> (r: &'static str)
    ensures
        r@ == footer_keys_of(promoting, width),
{
    if promoting {
        "click a piece, or \u{2190}/\u{2192} and enter   esc cancel"
    } else if width >= 92 {
        "click or drag to move   arrows/hjkl   f flip   p pieces   m mouse   r resign   d draw   q lobby"
    } else if width >= 62 {
        "click or drag   f flip   p pieces   r resign   d draw   q lobby"
    } else {
        "click to move   f flip   r resign   q lobby"
    }
}

/// The footer of a game of chess: a question waiting on an answer first,
/// standing out from the usual key hints.
pub open spec fn chess_footer_of(confirm_quit: bool, confirm_resign: bool, promoting: bool, width: u16) -> (
    Seq<char>,
    Tone,
) {
    if confirm_quit {
        ("leave this game?   y leave   n stay"@, Tone::Asking)
    } else if confirm_resign {
        ("resign this game?   y resign   n cancel"@, Tone::Asking)
    } else {
        (footer_keys_of(promoting, width), Tone::Muted)
    }
}

pub fn chess_footer(confirm_quit: bool, confirm_resign: bool, promoting: bool, width: u16) -> (r: Span)
    ensures
        span_view(r) == chess_footer_of(confirm_quit, confirm_resign, promoting, width),
{
    if confirm_quit {
        Span { text: String::from_str("leave this game?   y leave   n stay"), tone: Tone::Asking }
    } else if confirm_resign {
        Span { text: String::from_str("resign this game?   y resign   n cancel"), tone: Tone::Asking }
    } else {
        Span { text: String::from_str(footer_keys(promoting, width)), tone: Tone::Muted }
    }
}

/// A tray of captured pieces: one glyph each, and the material edge after
/// them when it is in this side's favour.
pub open spec fn tray_text_of(taken: Seq<Role>, letters: bool, ahead: i64) -> Seq<char> {
    let glyphs = taken.map_values(|r: Role| if letters {
        letter_of(r)
    } else {
        figurine_of(r)
    });
    if ahead > 0 {
        glyphs + "  +"@ + decimal(ahead as nat)
    } else {
        glyphs
    }
}

/// The pieces one side has captured, in letters or figurines, and how far
/// ahead in material that side is, if it is.
pub fn tray_text(taken: &Vec<Role>, letters: bool, ahead: i64) -> (r: String)
    ensures
        r@ == tray_text_of(taken@, letters, ahead),
{
    let mut out = String::new();
    let mut i: usize = 0;
    while i < taken.len()
        invariant
            i <= taken.len(),
            out@ =~= taken@.take(i as int).map_values(|r: Role| if letters {
                letter_of(r)
            } else {
                figurine_of(r)
            }),
        decreases taken.len() - i,
    {
        let c = if letters {
            letter(taken[i])
        } else {
            figurine(taken[i])
        };
        push_char(&mut out, c);
        i += 1;
        assert(taken@.take(i as int).drop_last() =~= taken@.take(i - 1));
    }
    assert(taken@.take(taken.len() as int) =~= taken@);
    if ahead > 0 {
        proof {
            reveal_strlit("  +");
        }
        let with_plus = joined(out.as_str(), "  +");
        joined(with_plus.as_str(), decimal_string(ahead as u64).as_str())
    } else {
        out
    }
}

pub open spec fn minute() -> nat {
    60
}

pub open spec fn hour() -> nat {
    3600
}

pub open spec fn day() -> nat {
    86400
}

/// How long ago something was, given the seconds since: the coarsest unit
/// that fits, rounded down.
pub open spec fn ago_of(elapsed: nat) -> Seq<char> {
    if elapsed < minute() {
        "just now"@
    } else if elapsed < hour() {
        decimal(elapsed / minute()) + "m ago"@
    } else if elapsed < day() {
        decimal(elapsed / hour()) + "h ago"@
    } else if elapsed < 2 * day() {
        "yesterday"@
    } else if elapsed < 14 * day() {
        decimal(elapsed / day()) + "d ago"@
    } else {
        decimal(elapsed / (7 * day())) + "w ago"@
    }
}

/// How long ago `then` was at `now`, both in seconds since the epoch. A
/// `then` in the future reads as just now.
pub fn ago(now: u64, then: u64) -> (r: String)
    ensures
        r@ == ago_of(if now >= then {
            (now - then) as nat
        } else {
            0
        }),
{
    let s = now.saturating_sub(then);
    if s < 60 {
        String::from_str("just now")
    } else if s < 3600 {
        joined(decimal_string(s / 60).as_str(), "m ago")
    } else if s < 86400 {
        joined(decimal_string(s / 3600).as_str(), "h ago")
    } else if s < 2 * 86400 {
        String::from_str("yesterday")
    } else if s < 14 * 86400 {
        joined(decimal_string(s / 86400).as_str(), "d ago")
    } else {
        joined(decimal_string(s / (7 * 86400)).as_str(), "w ago")
    }
}

/// `s` centred in `width` columns, or cut to them.
pub open spec fn centre_of(s: Seq<char>, width: nat) -> Seq<char> {
    if s.len() >= width {
        s.take(width as int)
    } else {
        let left = ((width - s.len()) / 2) as nat;
        spaces(left) + s + spaces((width - s.len() - left) as nat)
    }
}

/// Pads `s` to `width` columns with the content centred.
pub fn centre(s: &str, width: u16) -> (r: String)
    ensures
        r@ == centre_of(s@, width as nat),
{
    let cs = chars_of(s);
    let w = width as usize;
    let len = cs.len();
    if len >= w {
        let mut out = String::new();
        let mut i: usize = 0;
        while i < w
            invariant
                i <= w <= len == cs.len(),
                out@ =~= cs@.take(i as int),
            decreases w - i,
        {
            push_char(&mut out, cs[i]);
            i += 1;
            assert(cs@.take(i as int) =~= cs@.take(i - 1).push(cs@[i - 1]));
        }
        assert(cs@ == s@);
        return out;
    }
    let left = (w - len) / 2;
    let mut out = String::new();
    push_spaces(&mut out, left);
    let mid = joined(out.as_str(), s);
    let mut done = mid;
    push_spaces(&mut done, w - len - left);
    assert(Seq::<char>::empty() + spaces(left as nat) =~= spaces(left as nat));
    done
}

} // verus!
