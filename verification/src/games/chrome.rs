//! What every game's screen shares: where the connection stands, and the
//! footer with the table's own questions in it.
//!
//! This decides the words and how each should stand out; putting them on
//! the screen is left to whoever draws.

use vstd::prelude::*;

use super::{peer_label_of, Conn, Copied, Table};
use crate::text::joined;

verus! {

broadcast use vstd::string::group_string_axioms;

/// How a piece of text should look.
#[derive(Clone, Copy, Debug, PartialEq, Eq, Structural)]
pub enum Tone {
    /// The terminal's own colours.
    Plain,
    /// Greyed out: hints and explanations.
    Muted,
    /// The colour of the cursor: what to look at.
    Cursor,
    /// The colour of a selection: something done.
    Selected,
    /// The colour of a capture: something gone wrong.
    Capture,
    /// A question waiting on an answer: capture colour, in bold.
    Asking,
}

/// A run of text in one tone.
#[derive(Clone, Debug)]
pub struct Span {
    pub text: String,
    pub tone: Tone,
}

pub open spec fn span_view(s: Span) -> (Seq<char>, Tone) {
    (s.text@, s.tone)
}

/// A line of spans as text and tones.
pub open spec fn line_view(l: Vec<Span>) -> Seq<(Seq<char>, Tone)> {
    l@.map_values(|s: Span| span_view(s))
}

/// Lines of spans as text and tones.
pub open spec fn lines_view(ls: Seq<Vec<Span>>) -> Seq<Seq<(Seq<char>, Tone)>> {
    ls.map_values(|l: Vec<Span>| line_view(l))
}

/// A line of one span.
pub open spec fn styled(text: Seq<char>, tone: Tone) -> Seq<(Seq<char>, Tone)> {
    seq![(text, tone)]
}

/// What the sidebar says of the connection: the code to share while
/// hosting, who we are waiting on, who we are playing, or what went wrong.
/// Nothing at all in hot-seat. `label` is how the opponent is referred to.
pub open spec fn connection_lines_of(
    conn: Conn,
    share: Option<Seq<char>>,
    copied: Option<Copied>,
    mouse: bool,
    label: Seq<char>,
) -> Seq<Seq<(Seq<char>, Tone)>> {
    match conn {
        Conn::Local => seq![],
        Conn::Publishing | Conn::Waiting => {
            let code = match share {
                Some(s) => s,
                None => Seq::empty(),
            };
            let head = seq![styled("share this code:"@, Tone::Muted), styled(code, Tone::Cursor)];
            let told = match copied {
                Some(Copied::Clipboard) => seq![styled("copied \u{2713}"@, Tone::Selected)],
                Some(Copied::Terminal) => if mouse {
                    seq![
                        styled("copied via the terminal"@, Tone::Selected),
                        styled("(no? m, then select it)"@, Tone::Muted),
                    ]
                } else {
                    seq![styled("copied via the terminal"@, Tone::Selected)]
                },
                None => seq![styled("c copies it"@, Tone::Muted)],
            };
            let publishing = if conn is Publishing {
                seq![styled("publishing it\u{2026}"@, Tone::Muted)]
            } else {
                seq![]
            };
            head + told + publishing
        },
        Conn::LookingUp => seq![styled("looking up code\u{2026}"@, Tone::Muted)],
        Conn::Dialling => seq![styled("connecting\u{2026}"@, Tone::Muted)],
        Conn::Inviting(name) => seq![
            styled("waiting for "@ + name@ + " to accept\u{2026}"@, Tone::Muted),
        ],
        Conn::Playing => seq![seq![("peer "@, Tone::Muted), (label, Tone::Plain)]],
        Conn::Lost(why) => seq![styled(why@, Tone::Capture)],
    }
}

/// What the table calls its opponent.
pub open spec fn table_label(t: Table) -> Seq<char> {
    peer_label_of(
        match t.peer_name {
            Some(n) => Some(n@),
            None => None,
        },
        t.peer,
    )
}

fn span(text: String, tone: Tone) -> (r: Span)
    ensures
        span_view(r) == (text@, tone),
{
    Span { text, tone }
}

/// A line of one span.
fn one(text: String, tone: Tone) -> (r: Vec<Span>)
    ensures
        line_view(r) == styled(text@, tone),
{
    let mut v: Vec<Span> = Vec::new();
    v.push(span(text, tone));
    assert(line_view(v) =~= styled(text@, tone));
    v
}

/// Adds a line at the end.
fn add_line(lines: &mut Vec<Vec<Span>>, line: Vec<Span>)
    ensures
        lines_view(final(lines)@) == lines_view(old(lines)@).push(line_view(line)),
{
    lines.push(line);
    assert(lines_view(lines@) =~= lines_view(old(lines)@).push(line_view(line)));
}

/// A few lines on the connection, for a game's sidebar: the code to share
/// while hosting, who we are waiting on, who we are playing, or what went
/// wrong. Nothing at all in hot-seat. `mouse` is whether mouse reporting is
/// on, which is what stops the player selecting the code by hand.
pub fn connection_lines(table: &Table, mouse: bool) -> (r: Vec<Vec<Span>>)
    ensures
        lines_view(r@) == connection_lines_of(
            table.conn,
            match table.share {
                Some(s) => Some(s@),
                None => None,
            },
            table.copied,
            mouse,
            table_label(*table),
        ),
{
    let mut lines: Vec<Vec<Span>> = Vec::new();
    assert(lines_view(lines@) =~= seq![]);
    match &table.conn {
        Conn::Local => {},
        Conn::Publishing | Conn::Waiting => {
            add_line(&mut lines, one(String::from_str("share this code:"), Tone::Muted));
            let code = match &table.share {
                Some(s) => s.clone(),
                None => String::new(),
            };
            add_line(&mut lines, one(code, Tone::Cursor));
            match table.copied {
                Some(Copied::Clipboard) => {
                    add_line(&mut lines, one(String::from_str("copied \u{2713}"), Tone::Selected));
                },
                // Nothing reports back whether the terminal did it, so say
                // what to do if it did not.
                Some(Copied::Terminal) => {
                    add_line(
                        &mut lines,
                        one(String::from_str("copied via the terminal"), Tone::Selected),
                    );
                    if mouse {
                        add_line(
                            &mut lines,
                            one(String::from_str("(no? m, then select it)"), Tone::Muted),
                        );
                    }
                },
                None => {
                    add_line(&mut lines, one(String::from_str("c copies it"), Tone::Muted));
                },
            }
            if let Conn::Publishing = table.conn {
                add_line(&mut lines, one(String::from_str("publishing it\u{2026}"), Tone::Muted));
            }
        },
        Conn::LookingUp => {
            add_line(&mut lines, one(String::from_str("looking up code\u{2026}"), Tone::Muted));
        },
        Conn::Dialling => {
            add_line(&mut lines, one(String::from_str("connecting\u{2026}"), Tone::Muted));
        },
        Conn::Inviting(name) => {
            let a = joined("waiting for ", name.as_str());
            let text = joined(a.as_str(), " to accept\u{2026}");
            add_line(&mut lines, one(text, Tone::Muted));
        },
        Conn::Playing => {
            let mut line: Vec<Span> = Vec::new();
            line.push(span(String::from_str("peer "), Tone::Muted));
            line.push(span(table.peer_label(), Tone::Plain));
            assert(line_view(line) =~= seq![("peer "@, Tone::Muted), (table_label(*table), Tone::Plain)]);
            add_line(&mut lines, line);
        },
        Conn::Lost(why) => {
            add_line(&mut lines, one(why.clone(), Tone::Capture));
        },
    }
    assert(lines_view(lines@) =~= connection_lines_of(
        table.conn,
        match table.share {
            Some(s) => Some(s@),
            None => None,
        },
        table.copied,
        mouse,
        table_label(*table),
    ));
    lines
}

/// The bottom line of the screen: the table's own question first, then the
/// chat's keys while the player is typing, then the game's question, and
/// with none of those the game's key hints.
pub open spec fn footer_line_of(
    confirm_leave: bool,
    chat_focused: bool,
    networked: bool,
    question: Option<Seq<char>>,
    hints: Seq<char>,
) -> (Seq<char>, Tone) {
    if confirm_leave {
        ("leave this game?   y leave   n stay"@, Tone::Asking)
    } else if chat_focused {
        let send = if networked {
            "enter send   "@
        } else {
            Seq::empty()
        };
        (send + "\u{2191}/\u{2193} scroll   esc back to the game"@, Tone::Muted)
    } else {
        match question {
            Some(q) => (q, Tone::Asking),
            None => (hints, Tone::Muted),
        }
    }
}

/// The words and tone of the footer. `confirm_leave` is whether the table
/// is asking before leaving a game in play; `chat_focused` whether the
/// player is typing in the chat.
pub fn footer_line(
    confirm_leave: bool,
    chat_focused: bool,
    networked: bool,
    question: Option<&str>,
    hints: &str,
) -> (r: Span)
    ensures
        span_view(r) == footer_line_of(
            confirm_leave,
            chat_focused,
            networked,
            match question {
                Some(q) => Some(q@),
                None => None,
            },
            hints@,
        ),
{
    if confirm_leave {
        span(String::from_str("leave this game?   y leave   n stay"), Tone::Asking)
    } else if chat_focused {
        let send = if networked {
            "enter send   "
        } else {
            ""
        };
        proof {
            reveal_strlit("");
        }
        span(joined(send, "\u{2191}/\u{2193} scroll   esc back to the game"), Tone::Muted)
    } else {
        match question {
            Some(q) => span(String::from_str(q), Tone::Asking),
            None => span(String::from_str(hints), Tone::Muted),
        }
    }
}

} // verus!
