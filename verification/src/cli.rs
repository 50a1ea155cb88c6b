//! The command line: which game to play, and whether to open the lobby or
//! go straight to a game.
//!
//!     tui-tui                     the lobby: pick a game, host, join
//!     tui-tui [game] local        two players, one keyboard
//!     tui-tui [game] host         wait for an opponent, and go first
//!     tui-tui join <code>         join with an opponent's code
//!
//! Without a game named, the first there is.

use vstd::prelude::*;

use crate::games::{all_kinds, kind_name, named_of, Kind};
use crate::text::{ascii_lowercase, joined, str_eq, to_lowercase};

verus! {

broadcast use vstd::string::group_string_axioms;

/// The help text up to the list of games.
pub const USAGE_HEAD: &'static str = "tui-tui \u{2014} terminal games over iroh\n\nusage:\n  tui-tui                    open the lobby to pick a game, host, join, or\n                             challenge a friend\n  tui-tui [game] local       play locally, two players on one keyboard\n  tui-tui [game] host        host a game and get a code to share\n  tui-tui join <code>        join a game with the code your opponent sent,\n                             e.g. tui-tui join 42-tiger-marble-ocean\n\ngames: ";

/// The help text after the list of games.
pub const USAGE_TAIL: &'static str = "\n\nYour profile (identity, name, friends) is kept in tui-tui under your\nconfig directory, or in $TUI_TUI_HOME if that is set.\n";

/// How a game is listed in the help: its name in lower case, and the first,
/// which is played when none is named, marked as the default.
pub open spec fn game_entry(k: Kind, i: int) -> Seq<char> {
    if i == 0 {
        ascii_lowercase(kind_name(k)) + " (default)"@
    } else {
        ascii_lowercase(kind_name(k))
    }
}

/// The first `n` games' entries, separated by commas.
pub open spec fn games_line_upto(n: int) -> Seq<char>
    decreases n,
{
    if n <= 0 {
        Seq::empty()
    } else if n == 1 {
        game_entry(all_kinds()[0], 0)
    } else {
        games_line_upto(n - 1) + ", "@ + game_entry(all_kinds()[n - 1], n - 1)
    }
}

pub open spec fn usage_of() -> Seq<char> {
    USAGE_HEAD@ + games_line_upto(all_kinds().len() as int) + USAGE_TAIL@
}

/// The usage text, with the games this build can play filled in.
pub fn usage() -> (r: String)
    ensures
        r@ == usage_of(),
{
    let all = Kind::ALL;
    assert(all@ =~= all_kinds());
    let mut games = String::new();
    let mut i: usize = 0;
    while i < all.len()
        invariant
            all@ == all_kinds(),
            i <= all.len(),
            games@ == games_line_upto(i as int),
        decreases all.len() - i,
    {
        let k = all[i];
        let name = to_lowercase(k.name());
        assert(vstd::utf8::is_ascii_chars(kind_name(k))) by {
            match k {
                Kind::Chess => {},
            }
        }
        let entry = if i == 0 {
            joined(name.as_str(), " (default)")
        } else {
            name
        };
        if i == 0 {
            games = entry;
            assert(games@ == games_line_upto(1));
        } else {
            let with_comma = joined(games.as_str(), ", ");
            games = joined(with_comma.as_str(), entry.as_str());
        }
        i += 1;
    }
    let head = joined(USAGE_HEAD, games.as_str());
    joined(head.as_str(), USAGE_TAIL)
}

/// What the command line asks for, once any game named first is taken off.
#[derive(Clone, Debug)]
pub enum Command {
    /// Nothing: open the lobby.
    Lobby,
    /// `local`: two players, one keyboard.
    Local,
    /// `host`: wait for an opponent.
    Host,
    /// `join <code>`: the words of the code, joined by dashes.
    Join(String),
    /// `help`, `-h` or `--help`.
    Help,
    /// Anything else: the usage goes to stderr and the program fails.
    Misused,
}

/// A command as text.
pub enum CommandView {
    Lobby,
    Local,
    Host,
    Join(Seq<char>),
    Help,
    Misused,
}

impl View for Command {
    type V = CommandView;

    open spec fn view(&self) -> CommandView {
        match self {
            Command::Lobby => CommandView::Lobby,
            Command::Local => CommandView::Local,
            Command::Host => CommandView::Host,
            Command::Join(s) => CommandView::Join(s@),
            Command::Help => CommandView::Help,
            Command::Misused => CommandView::Misused,
        }
    }
}

/// Words joined by single dashes, as in `42-tiger-marble-ocean`.
pub open spec fn dash_joined(words: Seq<Seq<char>>) -> Seq<char>
    decreases words.len(),
{
    if words.len() == 0 {
        Seq::empty()
    } else if words.len() == 1 {
        words[0]
    } else {
        dash_joined(words.drop_last()) + seq!['-'] + words.last()
    }
}

/// What the words after the game ask for. Spaces in a code are fine too, as
/// in `join 42 tiger marble ocean`.
pub open spec fn command_of(w: Seq<Seq<char>>) -> CommandView {
    if w.len() == 0 {
        CommandView::Lobby
    } else if w.len() == 1 && w[0] == "local"@ {
        CommandView::Local
    } else if w.len() == 1 && w[0] == "host"@ {
        CommandView::Host
    } else if w.len() >= 2 && w[0] == "join"@ {
        CommandView::Join(dash_joined(w.skip(1)))
    } else if w.len() == 1 && (w[0] == "-h"@ || w[0] == "--help"@ || w[0] == "help"@) {
        CommandView::Help
    } else {
        CommandView::Misused
    }
}

/// The game named first, if the first word names one, and the words left.
/// Without one, the first game there is and every word.
pub open spec fn game_and_rest(w: Seq<Seq<char>>) -> (Kind, Seq<Seq<char>>) {
    if w.len() > 0 && named_of(w[0]) is Some {
        (named_of(w[0])->0, w.skip(1))
    } else {
        (all_kinds()[0], w)
    }
}

pub open spec fn words_of(args: Seq<String>) -> Seq<Seq<char>> {
    args.map_values(|a: String| a@)
}

/// The game and what to do with it, from the program's arguments (its own
/// name left off).
pub fn parse_args(args: &Vec<String>) -> (r: (Kind, Command))
    ensures
        r.0 == game_and_rest(words_of(args@)).0,
        r.1@ == command_of(game_and_rest(words_of(args@)).1),
{
    let ghost w = words_of(args@);
    let mut skip: usize = 0;
    let mut game = Kind::ALL[0];
    if args.len() > 0 {
        match Kind::from_name(args[0].as_str()) {
            Some(k) => {
                game = k;
                skip = 1;
            },
            None => {},
        }
    }
    assert(Kind::ALL@ =~= all_kinds());
    let ghost rest = game_and_rest(w).1;
    assert(rest =~= w.skip(skip as int));
    let n = args.len() - skip;
    proof {
        reveal_strlit("local");
        reveal_strlit("host");
        reveal_strlit("join");
        reveal_strlit("-h");
        reveal_strlit("--help");
        reveal_strlit("help");
    }
    if n == 0 {
        return (game, Command::Lobby);
    }
    let first = args[skip].as_str();
    assert(first@ == rest[0]);
    if n == 1 && str_eq(first, "local") {
        return (game, Command::Local);
    }
    if n == 1 && str_eq(first, "host") {
        return (game, Command::Host);
    }
    if n >= 2 && str_eq(first, "join") {
        let mut code = String::from_str(args[skip + 1].as_str());
        let mut j: usize = skip + 2;
        assert(rest.skip(1).take(1) =~= seq![rest[1]]);
        while j < args.len()
            invariant
                w == words_of(args@),
                skip + 2 <= j <= args.len(),
                rest == w.skip(skip as int),
                code@ == dash_joined(rest.skip(1).take(j - skip - 1)),
            decreases args.len() - j,
        {
            let dashed = joined(code.as_str(), "-");
            proof {
                reveal_strlit("-");
            }
            code = joined(dashed.as_str(), args[j].as_str());
            j += 1;
            assert(rest.skip(1).take(j - skip - 1).drop_last() =~= rest.skip(1).take(j - skip - 2));
        }
        assert(rest.skip(1).take(j - skip - 1) =~= rest.skip(1));
        return (game, Command::Join(code));
    }
    if n == 1 && (str_eq(first, "-h") || str_eq(first, "--help") || str_eq(first, "help")) {
        return (game, Command::Help);
    }
    (game, Command::Misused)
}

} // verus!
