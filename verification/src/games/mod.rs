//! The games, and what every game shares: who is across the table, and how
//! the connection to them is going.
//!
//! A new game needs its own rules, screen and messages, plus an entry in
//! [`Kind`].

pub mod chess;
pub mod chrome;

use vstd::prelude::*;

use crate::session::{self, Game, MAX_WRONG_CODES, Progress};
use crate::session::handshake::short_id;
use crate::text::{ascii_lowercase, decimal, decimal_string, eq_ignore_ascii_case, joined, to_lowercase};

verus! {

broadcast use vstd::string::group_string_axioms;

/// Every game there is to play.
#[derive(Clone, Copy, Debug, PartialEq, Eq, Structural)]
pub enum Kind {
    Chess,
}

/// The games, in the order the lobby offers them.
pub open spec fn all_kinds() -> Seq<Kind> {
    seq![Kind::Chess]
}

pub open spec fn kind_name(k: Kind) -> Seq<char> {
    match k {
        Kind::Chess => seq!['C', 'h', 'e', 's', 's'],
    }
}

/// The name and protocol version a game goes by when pairing.
pub open spec fn kind_wire(k: Kind) -> (Seq<char>, u32) {
    match k {
        Kind::Chess => (chess::protocol::game_name(), 1),
    }
}

/// The first game, in the registry's order, that goes by `g` on the wire.
pub open spec fn from_wire_of(g: (Seq<char>, u32)) -> Option<Kind> {
    if kind_wire(Kind::Chess) == g {
        Some(Kind::Chess)
    } else {
        None
    }
}

/// The first game whose name, with ASCII case ignored, is `word`.
pub open spec fn named_of(word: Seq<char>) -> Option<Kind> {
    if ascii_lowercase(kind_name(Kind::Chess)) == ascii_lowercase(word) {
        Some(Kind::Chess)
    } else {
        None
    }
}

impl Kind {
    /// In the order the lobby offers them. The first is the one played when
    /// none is named.
    pub const ALL: [Kind; 1] = [Kind::Chess];

    pub fn name(self) -> (r: &'static str)
        ensures
            r@ == kind_name(self),
    {
        proof {
            reveal_strlit("Chess");
        }
        match self {
            Kind::Chess => "Chess",
        }
    }

    /// The name and protocol version the two sides agree on when pairing.
    pub fn wire(self) -> (g: Game)
        ensures
            g@ == kind_wire(self),
    {
        match self {
            Kind::Chess => chess::game(),
        }
    }

    /// The game a peer offered, if this build can play it.
    pub fn from_wire(game: Game) -> (r: Option<Kind>)
        ensures
            r == from_wire_of(game@),
    {
        let mine = Kind::Chess.wire();
        if game.version == mine.version && crate::text::str_eq(game.name, mine.name) {
            Some(Kind::Chess)
        } else {
            None
        }
    }

    /// What pairing offers and accepts: every game this build can play.
    pub fn all_wire() -> (r: Vec<Game>)
        ensures
            r@.len() == all_kinds().len(),
            forall|i: int| 0 <= i < r@.len() ==> (#[trigger] r@[i])@ == kind_wire(all_kinds()[i]),
    {
        let mut v: Vec<Game> = Vec::new();
        v.push(Kind::Chess.wire());
        v
    }

    /// A game named on the command line, in any case.
    pub fn from_name(word: &str) -> (r: Option<Kind>)
        ensures
            r == named_of(word@),
    {
        let name = Kind::Chess.name();
        if eq_ignore_ascii_case(name, word) {
            Some(Kind::Chess)
        } else {
            None
        }
    }
}

/// Every game is known by what it says on the wire, and by its name on the
/// command line in any case; no two games share a name or a wire id.
pub proof fn lemma_registry(k: Kind)
    ensures
        from_wire_of(kind_wire(k)) == Some(k),
        named_of(kind_name(k)) == Some(k),
        named_of(ascii_lowercase(kind_name(k))) == Some(k),
        all_kinds().contains(k),
        forall|i: int, j: int|
            0 <= i < j < all_kinds().len() ==> ascii_lowercase(kind_name(#[trigger] all_kinds()[i]))
                != ascii_lowercase(kind_name(#[trigger] all_kinds()[j])) && kind_wire(all_kinds()[i]).0
                != kind_wire(all_kinds()[j]).0,
{
    assert(all_kinds()[0] == Kind::Chess);
    match k {
        Kind::Chess => {
            assert(ascii_lowercase(ascii_lowercase(kind_name(k))) =~= ascii_lowercase(kind_name(k)));
        },
    }
}

/// Where a player sits, which decides who goes first.
#[derive(Clone, Copy, Debug, PartialEq, Eq, Structural)]
pub enum Seat {
    /// Both players at this keyboard.
    Local,
    /// The one who hosted, or was invited.
    Host,
    /// The one who joined, or invited.
    Guest,
}

/// How the connection to the opponent is going.
#[derive(Clone, Debug, PartialEq, Eq)]
pub enum Conn {
    /// Hot-seat: no network at all.
    Local,
    /// Hosting, putting the code on the DHT.
    Publishing,
    /// Hosting, with the code published and nobody in yet.
    Waiting,
    /// Joining, finding the host behind the code.
    LookingUp,
    /// Joining, found the host and pairing with it.
    Dialling,
    /// Waiting for this friend to answer our invite.
    Inviting(String),
    Playing,
    Lost(String),
}

/// How the share code last went onto the clipboard.
#[derive(Clone, Copy, Debug, PartialEq, Eq, Structural)]
pub enum Copied {
    /// Straight onto the system clipboard.
    Clipboard,
    /// Asked of the terminal, which does not say whether it did.
    Terminal,
}

/// An opponent's endpoint id: the 32 bytes of their public key.
pub type PeerId = [u8; 32];

/// Who is across the table, and how to reach them. The same for every game.
pub struct Table {
    pub conn: Conn,
    /// A connection to the opponent is attached.
    pub net: bool,
    pub peer: Option<PeerId>,
    /// What the peer calls itself.
    pub peer_name: Option<String>,
    /// The code to show for someone to join with, when hosting.
    pub share: Option<String>,
    /// Text waiting for the main loop to put on the clipboard.
    pub copy_request: Option<String>,
    /// How the last copy of the share code went.
    pub copied: Option<Copied>,
}

pub open spec fn is_sharing(c: Conn) -> bool {
    match c {
        Conn::Publishing | Conn::Waiting => true,
        _ => false,
    }
}

pub open spec fn dash() -> Seq<char> {
    seq!['\u{2014}']
}

/// How a table refers to its opponent: their name, else a short id.
pub open spec fn peer_label_of(name: Option<Seq<char>>, peer: Option<PeerId>) -> Seq<char> {
    match name {
        Some(n) => n,
        None => match peer {
            Some(p) => session::handshake::short_id_of(p@),
            None => dash(),
        },
    }
}

pub open spec fn wrong_code_note(attempts: u32) -> Seq<char> {
    seq!['s', 'o', 'm', 'e', 'o', 'n', 'e', ' ', 't', 'r', 'i', 'e', 'd', ' ', 'a', ' ', 'w', 'r',
        'o', 'n', 'g', ' ', 'c', 'o', 'd', 'e', ' ', '('] + decimal(attempts as nat) + seq![' ', 'o', 'f', ' ']
        + decimal(MAX_WRONG_CODES as nat) + seq![')']
}

pub open spec fn declined_note(game: Kind) -> Seq<char> {
    seq!['s', 'o', 'm', 'e', 'o', 'n', 'e', ' ', 'j', 'o', 'i', 'n', 'e', 'd', ' ', 'w', 'h', 'o', ' ',
        'c', 'a', 'n', 'n', 'o', 't', ' ', 'p', 'l', 'a', 'y', ' '] + ascii_lowercase(kind_name(game))
}

/// Where a game wants to go when it is done.
#[derive(Clone, Copy, Debug, PartialEq, Eq, Structural)]
pub enum Leave {
    /// Back to the lobby.
    Lobby,
    /// Out of the program altogether.
    Exit,
}

/// Where the connection stands once pairing has moved along.
pub open spec fn progress_conn_of(conn: Conn, progress: Progress) -> Conn {
    match progress {
        Progress::Listed => Conn::Waiting,
        Progress::Found => Conn::Dialling,
        _ => conn,
    }
}

/// What the player is told when pairing moves along, if anything.
pub open spec fn progress_note_of(progress: Progress, game: Kind) -> Option<Seq<char>> {
    match progress {
        Progress::WrongCode { attempts } => Some(wrong_code_note(attempts)),
        Progress::Declined => Some(declined_note(game)),
        _ => None,
    }
}

impl Table {
    /// Nobody to connect to: both players are here.
    pub fn local() -> (t: Table)
        ensures
            t.conn is Local,
            !t.net,
            t.peer is None,
            t.peer_name is None,
            t.share is None,
            t.copy_request is None,
            t.copied is None,
    {
        Table::new(Conn::Local, None)
    }

    /// Someone who is not connected yet. `code` is what to show for them to
    /// join with, when hosting.
    pub fn new(conn: Conn, code: Option<String>) -> (t: Table)
        ensures
            t.conn == conn,
            !t.net,
            t.peer is None,
            t.peer_name is None,
            t.share == code,
            t.copy_request is None,
            t.copied is None,
    {
        Table {
            conn,
            net: false,
            peer: None,
            peer_name: None,
            share: code,
            copy_request: None,
            copied: None,
        }
    }

    /// The opponent is in.
    pub fn attach(&mut self, peer: PeerId, name: &str)
        ensures
            final(self).peer == Some(peer),
            final(self).peer_name matches Some(n) && n@ == name@,
            final(self).net,
            final(self).conn is Playing,
            final(self).share == old(self).share,
            final(self).copy_request == old(self).copy_request,
            final(self).copied == old(self).copied,
    {
        self.peer = Some(peer);
        self.peer_name = Some(String::from_str(name));
        self.net = true;
        self.conn = Conn::Playing;
    }

    pub fn is_networked(&self) -> (r: bool)
        ensures
            r == self.net,
    {
        self.net
    }

    /// Ask for the share code to go on the clipboard, while it is still of use.
    pub fn copy_share(&mut self)
        ensures
            final(self).copy_request == if is_sharing(old(self).conn) {
                old(self).share
            } else {
                old(self).copy_request
            },
            final(self).conn == old(self).conn,
            final(self).net == old(self).net,
            final(self).peer == old(self).peer,
            final(self).peer_name == old(self).peer_name,
            final(self).share == old(self).share,
            final(self).copied == old(self).copied,
    {
        match self.conn {
            Conn::Publishing | Conn::Waiting => {
                self.copy_request = self.share.clone();
            },
            _ => {},
        }
    }

    /// How to refer to the opponent: their name, else a short id.
    pub fn peer_label(&self) -> (r: String)
        ensures
            r@ == peer_label_of(
                match self.peer_name {
                    Some(n) => Some(n@),
                    None => None,
                },
                self.peer,
            ),
    {
        match &self.peer_name {
            Some(name) => name.clone(),
            None => match &self.peer {
                Some(p) => short_id(p),
                None => {
                    proof {
                        reveal_strlit("\u{2014}");
                    }
                    String::from_str("\u{2014}")
                },
            },
        }
    }

    /// Moves the connection along. Returns anything worth telling the
    /// player about.
    pub fn on_progress(&mut self, progress: Progress, game: Kind) -> (r: Option<String>)
        ensures
            final(self).conn == progress_conn_of(old(self).conn, progress),
            match r {
                Some(s) => progress_note_of(progress, game) == Some(s@),
                None => progress_note_of(progress, game) is None,
            },
            final(self).net == old(self).net,
            final(self).peer == old(self).peer,
            final(self).peer_name == old(self).peer_name,
            final(self).share == old(self).share,
            final(self).copy_request == old(self).copy_request,
            final(self).copied == old(self).copied,
    {
        match progress {
            Progress::Listed => {
                self.conn = Conn::Waiting;
                None
            },
            Progress::Found => {
                self.conn = Conn::Dialling;
                None
            },
            Progress::WrongCode { attempts } => {
                proof {
                    reveal_strlit("someone tried a wrong code (");
                    reveal_strlit(" of ");
                    reveal_strlit(")");
                }
                let a = joined("someone tried a wrong code (", decimal_string(attempts as u64).as_str());
                let b = joined(a.as_str(), " of ");
                let c = joined(b.as_str(), decimal_string(MAX_WRONG_CODES as u64).as_str());
                Some(joined(c.as_str(), ")"))
            },
            Progress::Declined => {
                proof {
                    reveal_strlit("someone joined who cannot play ");
                }
                let name = to_lowercase(game.name());
                assert(vstd::utf8::is_ascii_chars(kind_name(game)));
                Some(joined("someone joined who cannot play ", name.as_str()))
            },
        }
    }
}

} // verus!
