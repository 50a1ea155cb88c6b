//! Chess's own wire protocol as the connection pump speaks it: what we tell
//! the peer, and what a line from the peer means.

use vstd::prelude::*;

use crate::games::PeerId;
use crate::session::Progress;
use crate::games::chess::protocol::{parse_of, Msg, MsgView};
use crate::session::name::trim_end_of;
use crate::text::{chars_of, joined, string_of};

verus! {

broadcast use vstd::string::group_string_axioms;

/// Something the peer did, delivered to the UI loop.
#[derive(Clone, Debug, PartialEq, Eq)]
pub enum NetEvent {
    /// Pairing moved along.
    Progress(Progress),
    Connected(PeerId),
    Move(String),
    Resign,
    Draw,
    Disconnected(String),
}

/// Something to tell the peer.
#[derive(Clone, Debug, PartialEq, Eq)]
pub enum Out {
    Move(String),
    Resign,
    Draw,
}

pub open spec fn out_line_of(o: Out) -> Seq<char> {
    match o {
        Out::Move(uci) => seq!['m', 'o', 'v', 'e', ' '] + uci@ + seq!['\n'],
        Out::Resign => seq!['r', 'e', 's', 'i', 'g', 'n', '\n'],
        Out::Draw => seq!['d', 'r', 'a', 'w', '\n'],
    }
}

impl Out {
    pub fn line(&self) -> (r: String)
        ensures
            r@ == out_line_of(*self),
    {
        proof {
            reveal_strlit("move ");
            reveal_strlit("\n");
            reveal_strlit("resign\n");
            reveal_strlit("draw\n");
        }
        match self {
            Out::Move(uci) => {
                let a = joined("move ", uci.as_str());
                joined(a.as_str(), "\n")
            },
            Out::Resign => String::from_str("resign\n"),
            Out::Draw => String::from_str("draw\n"),
        }
    }
}

/// What a line from the peer asks of the game, if anything: the line, its
/// end trimmed, must be exactly one of the messages. Anything else, such as
/// a verb with more after it than it takes, is ignored, so the protocol can
/// grow.
pub open spec fn incoming_of(line: Seq<char>) -> Option<MsgView> {
    parse_of(trim_end_of(line))
}

pub fn incoming(line: &str) -> (r: Option<NetEvent>)
    ensures
        match incoming_of(line@) {
            Some(MsgView::Move(uci)) => r matches Some(NetEvent::Move(m)) && m@ == uci,
            Some(MsgView::Resign) => r == Some(NetEvent::Resign),
            Some(MsgView::Draw) => r == Some(NetEvent::Draw),
            None => r is None,
        },
{
    let cs = chars_of(line);
    // The line's end trimmed of white space.
    let mut n: usize = cs.len();
    assert(cs@.take(cs.len() as int) =~= cs@);
    while n > 0 && crate::session::name::is_whitespace(cs[n - 1])
        invariant
            n <= cs.len(),
            cs@ == line@,
            trim_end_of(line@) == trim_end_of(cs@.take(n as int)),
        decreases n,
    {
        assert(cs@.take(n as int).drop_last() =~= cs@.take(n - 1));
        n -= 1;
    }
    let ghost t = cs@.take(n as int);
    assert(trim_end_of(t) == t);
    let mut kept: Vec<char> = Vec::new();
    let mut k: usize = 0;
    while k < n
        invariant
            k <= n <= cs.len(),
            kept@ == cs@.take(k as int),
        decreases n - k,
    {
        kept.push(cs[k]);
        k += 1;
        assert(cs@.take(k as int) =~= cs@.take(k - 1).push(cs@[k - 1]));
    }
    let trimmed = string_of(&kept);
    match Msg::parse(trimmed.as_str()) {
        Some(Msg::Move(uci)) => Some(NetEvent::Move(uci)),
        Some(Msg::Resign) => Some(NetEvent::Resign),
        Some(Msg::Draw) => Some(NetEvent::Draw),
        None => None,
    }
}

/// What the player is told when the connection ends: the error it ended
/// with, or, when the peer simply hung up, that they did.
pub open spec fn disconnect_note_of(error: Option<Seq<char>>) -> Seq<char> {
    match error {
        None => "opponent disconnected"@,
        Some(e) => e,
    }
}

pub fn disconnect_note(error: Option<String>) -> (r: String)
    ensures
        r@ == disconnect_note_of(
            match error {
                Some(e) => Some(e@),
                None => None,
            },
        ),
{
    match error {
        None => String::from_str("opponent disconnected"),
        Some(e) => e,
    }
}

} // verus!
