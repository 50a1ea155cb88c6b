//! What two chess players say to each other once they are connected: a UCI
//! move per line, plus a few control words.

use vstd::prelude::*;

use crate::session::Game;
use crate::text::{chars_of, joined};

verus! {

broadcast use vstd::string::group_string_axioms;

/// The name chess goes by on the wire.
pub open spec fn game_name() -> Seq<char> {
    seq!['c', 'h', 'e', 's', 's']
}

/// Chess's name and protocol version, as the two sides agree on them when
/// pairing.
pub fn game() -> (g: Game)
    ensures
        g.name@ == game_name(),
        g.version == 1,
{
    proof {
        reveal_strlit("chess");
    }
    Game { name: "chess", version: 1 }
}

#[derive(Clone, Debug, PartialEq, Eq)]
pub enum Msg {
    Move(String),
    Resign,
    /// Offers a draw, or accepts the one on offer.
    Draw,
}

/// A message as the contracts see it.
pub enum MsgView {
    Move(Seq<char>),
    Resign,
    Draw,
}

impl View for Msg {
    type V = MsgView;

    open spec fn view(&self) -> MsgView {
        match self {
            Msg::Move(uci) => MsgView::Move(uci@),
            Msg::Resign => MsgView::Resign,
            Msg::Draw => MsgView::Draw,
        }
    }
}

pub open spec fn word_move() -> Seq<char> {
    seq!['m', 'o', 'v', 'e']
}

pub open spec fn word_resign() -> Seq<char> {
    seq!['r', 'e', 's', 'i', 'g', 'n']
}

pub open spec fn word_draw() -> Seq<char> {
    seq!['d', 'r', 'a', 'w']
}

/// A move's text can travel: something there, and no space to split on.
pub open spec fn is_move_text(uci: Seq<char>) -> bool {
    uci.len() > 0 && !uci.contains(' ')
}

/// The line that carries a message.
pub open spec fn line_of(m: MsgView) -> Seq<char> {
    match m {
        MsgView::Move(uci) => word_move().push(' ') + uci,
        MsgView::Resign => word_resign(),
        MsgView::Draw => word_draw(),
    }
}

/// What a line means: exactly one of the words, or `move` and one move.
pub open spec fn parse_of(line: Seq<char>) -> Option<MsgView> {
    if line == word_resign() {
        Some(MsgView::Resign)
    } else if line == word_draw() {
        Some(MsgView::Draw)
    } else if line.len() > 5 && line.take(5) == word_move().push(' ') && is_move_text(line.skip(5)) {
        Some(MsgView::Move(line.skip(5)))
    } else {
        None
    }
}

/// Whether a message can be said on one line and read back as itself.
pub open spec fn well_formed(m: MsgView) -> bool {
    match m {
        MsgView::Move(uci) => is_move_text(uci),
        _ => true,
    }
}

impl Msg {
    pub fn line(&self) -> (r: String)
        ensures
            r@ == line_of(self@),
    {
        proof {
            reveal_strlit("move ");
            reveal_strlit("resign");
            reveal_strlit("draw");
        }
        match self {
            Msg::Move(uci) => joined("move ", uci.as_str()),
            Msg::Resign => String::from_str("resign"),
            Msg::Draw => String::from_str("draw"),
        }
    }

    /// `None` for anything but an exact message; whatever else arrives is
    /// ignored, so the protocol can grow.
    pub fn parse(line: &str) -> (r: Option<Msg>)
        ensures
            match r {
                Some(m) => parse_of(line@) == Some(m@),
                None => parse_of(line@) is None,
            },
    {
        let cs = chars_of(line);
        let n = cs.len();
        if n == 6 && cs[0] == 'r' && cs[1] == 'e' && cs[2] == 's' && cs[3] == 'i' && cs[4] == 'g'
            && cs[5] == 'n' {
            assert(line@ =~= word_resign());
            return Some(Msg::Resign);
        }
        if n == 4 && cs[0] == 'd' && cs[1] == 'r' && cs[2] == 'a' && cs[3] == 'w' {
            assert(line@ =~= word_draw());
            return Some(Msg::Draw);
        }
        assert(line@ != word_resign()) by {
            if line@ == word_resign() {
                assert(line@[0] == 'r');
            }
        }
        assert(line@ != word_draw()) by {
            if line@ == word_draw() {
                assert(line@[0] == 'd');
            }
        }
        if n > 5 && cs[0] == 'm' && cs[1] == 'o' && cs[2] == 'v' && cs[3] == 'e' && cs[4] == ' ' {
            assert(line@.take(5) =~= word_move().push(' '));
            let mut rest = String::new();
            let mut i: usize = 5;
            while i < n
                invariant
                    5 <= i <= n,
                    n == cs.len(),
                    cs@ == line@,
                    rest@ == line@.subrange(5, i as int),
                    !rest@.contains(' '),
                decreases n - i,
            {
                if cs[i] == ' ' {
                    assert(line@.skip(5)[i - 5] == ' ');
                    return None;
                }
                crate::text::push_char(&mut rest, cs[i]);
                i += 1;
                assert(line@.subrange(5, i as int) =~= line@.subrange(5, i - 1).push(cs@[i - 1]));
            }
            assert(line@.subrange(5, n as int) =~= line@.skip(5));
            return Some(Msg::Move(rest));
        }
        assert(!(line@.len() > 5 && line@.take(5) == word_move().push(' '))) by {
            if line@.len() > 5 && line@.take(5) == word_move().push(' ') {
                assert(line@.take(5)[0] == word_move().push(' ')[0]);
                assert(line@.take(5)[1] == word_move().push(' ')[1]);
                assert(line@.take(5)[2] == word_move().push(' ')[2]);
                assert(line@.take(5)[3] == word_move().push(' ')[3]);
                assert(line@.take(5)[4] == word_move().push(' ')[4]);
            }
        }
        None
    }
}

/// Whatever a well-formed message is, it reads back as itself.
pub proof fn lemma_parse_line(m: MsgView)
    requires
        well_formed(m),
    ensures
        parse_of(line_of(m)) == Some(m),
{
    match m {
        MsgView::Move(uci) => {
            let l = line_of(m);
            assert(l.take(5) =~= word_move().push(' '));
            assert(l.skip(5) =~= uci);
            assert(l != word_resign()) by {
                assert(l[0] == 'm');
            }
            assert(l != word_draw()) by {
                assert(l[0] == 'm');
            }
        },
        MsgView::Resign => {
            assert(word_resign() != word_draw()) by {
                assert(word_resign().len() != word_draw().len());
            }
        },
        MsgView::Draw => {
            assert(word_resign() != word_draw()) by {
                assert(word_resign().len() != word_draw().len());
            }
        },
    }
}

} // verus!
