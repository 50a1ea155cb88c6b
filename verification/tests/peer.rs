//! The opponent is on the other end of a network connection, running code we
//! did not build. Nothing they send is taken on trust. Here the position is
//! shakmaty's, as in the program, and the rest is the library's.

use shakmaty::uci::UciMove;
use shakmaty::{Chess, Color, Position};
use tui_tui::games::chess::controls::{Action, Controls, Facts, PeerAction, Side};
use tui_tui::games::{Conn, Leave, Table};
use tui_tui::keys::{Key, KeyCode};
use tui_tui::net::{incoming, NetEvent};
use tui_tui::session::Progress;

/// A game as the program holds it: the position, who we are, and the rest.
struct Game {
    pos: Chess,
    me: Option<Side>,
    resigned: bool,
    controls: Controls,
    table: Table,
}

impl Game {
    /// A networked game in which we play white.
    fn as_white() -> Game {
        let mut table = Table::new(Conn::Playing, None);
        table.attach([9; 32], "them");
        Game {
            pos: Chess::default(),
            me: Some(Side::White),
            resigned: false,
            controls: Controls::new(Some(Side::White)),
            table,
        }
    }

    /// Both players at one keyboard.
    fn local() -> Game {
        Game {
            pos: Chess::default(),
            me: None,
            resigned: false,
            controls: Controls::new(None),
            table: Table::local(),
        }
    }

    fn turn(&self) -> Side {
        match self.pos.turn() {
            Color::White => Side::White,
            Color::Black => Side::Black,
        }
    }

    fn facts(&self) -> Facts {
        Facts {
            promoting: false,
            ending: false,
            ended: false,
            animating: false,
            selected: false,
            over: self.resigned || self.pos.is_game_over(),
            networked: self.table.is_networked(),
            my_turn: self.me.is_none_or(|me| me == self.turn()),
        }
    }

    fn play_uci(&mut self, uci: &str) -> Result<(), String> {
        let m = uci
            .parse::<UciMove>()
            .map_err(|_| format!("a move that is not one: {uci}"))?
            .to_move(&self.pos)
            .map_err(|_| format!("an illegal move: {uci}"))?;
        self.pos.play_unchecked(m);
        Ok(())
    }

    fn peer_says(&mut self, line: &str) {
        let Some(event) = incoming(line) else {
            return;
        };
        let facts = self.facts();
        match self.controls.on_net(&mut self.table, event, facts) {
            PeerAction::Nothing => {}
            PeerAction::Resigned => self.resigned = true,
            PeerAction::Play(uci) => match self.play_uci(&uci) {
                Ok(()) => self.controls.on_peer_move(None),
                Err(why) => self.controls.on_peer_move(Some(why.as_str())),
            },
        }
    }
}

#[test]
fn the_peer_cannot_move_our_pieces_on_our_turn() {
    let mut app = Game::as_white();
    let before = app.pos.clone();
    // e2e4 is perfectly legal — for us. It is our turn, so it is not theirs
    // to play.
    app.peer_says("move e2e4");
    assert_eq!(app.pos, before, "the board must not change");
    assert_eq!(app.pos.turn(), Color::White);
    assert!(app.controls.note.as_deref().is_some_and(|n| n.contains("out of turn")));
}

#[test]
fn the_peer_moves_on_their_own_turn() {
    let mut app = Game::as_white();
    app.play_uci("e2e4").unwrap();
    app.peer_says("move e7e5");
    assert_eq!(app.pos.turn(), Color::White, "black's reply was played");
}

#[test]
fn nonsense_and_illegal_moves_change_nothing() {
    let mut app = Game::as_white();
    app.play_uci("e2e4").unwrap();
    let before = app.pos.clone();
    for line in ["move e7e2", "move zz99", "move", "", "resign please", "castle-sideways"] {
        app.peer_says(line);
        assert_eq!(app.pos, before, "{line:?}");
    }
    assert!(!app.resigned);
}

#[test]
fn a_finished_game_takes_no_more_messages() {
    let mut app = Game::as_white();
    for m in ["f2f3", "e7e5", "g2g4", "d8h4"] {
        app.play_uci(m).unwrap();
    }
    assert!(app.pos.is_checkmate());
    // Black has already won. A resignation now would rewrite the result.
    app.peer_says("resign");
    assert!(!app.resigned, "checkmate stands");
    app.peer_says("draw");
    assert!(!app.controls.draw.offered && !app.controls.draw.agreed);
}

#[test]
fn hot_seat_ignores_the_network_entirely() {
    let mut app = Game::local();
    let before = app.pos.clone();
    app.peer_says("move e2e4");
    app.peer_says("resign");
    assert_eq!(app.pos, before);
    assert!(!app.resigned);
}

/// A key press, carried out on the table where it asks for that.
fn press(app: &mut Controls, table: &mut Table, key: Key, networked: bool) {
    let facts = Facts {
        promoting: false,
        ending: false,
        ended: false,
        animating: false,
        selected: false,
        over: false,
        networked,
        my_turn: true,
    };
    if app.on_key(key, facts) == Action::CopyShare {
        table.copy_share();
    }
}

fn playing(networked: bool) -> Facts {
    Facts {
        promoting: false,
        ending: false,
        ended: false,
        animating: false,
        selected: false,
        over: false,
        networked,
        my_turn: false,
    }
}

#[test]
fn progress_moves_the_connection_along() {
    let mut table = Table::new(Conn::Publishing, None);
    let mut app = Controls::new(Some(Side::White));
    app.on_net(&mut table, NetEvent::Progress(Progress::Listed), playing(true));
    assert_eq!(table.conn, Conn::Waiting);
    app.on_net(&mut table, NetEvent::Progress(Progress::Declined), playing(true));
    assert_eq!(app.note.as_deref(), Some("someone joined who cannot play chess"));
    app.on_net(&mut table, NetEvent::Disconnected("gone".into()), playing(true));
    assert_eq!(table.conn, Conn::Lost("gone".into()));
}

#[test]
fn a_game_behind_the_trait_leaves_like_any_other() {
    let mut table = Table::local();
    let mut app = Controls::new(None);
    press(&mut app, &mut table, Key::new(KeyCode::Char('q')), false);
    press(&mut app, &mut table, Key::new(KeyCode::Char('y')), false);
    assert_eq!(app.leaving(), Some(Leave::Lobby));

    let mut app = Controls::new(None);
    press(&mut app, &mut table, Key::ctrl(KeyCode::Char('c')), false);
    assert_eq!(app.leaving(), Some(Leave::Exit));
}

#[test]
fn c_copies_the_code_only_while_it_is_needed() {
    let mut app = Controls::new(None);
    let mut table = Table::local();
    table.share = Some("42-tiger-marble-ocean".into());
    let c = Key::new(KeyCode::Char('c'));

    press(&mut app, &mut table, c, false);
    assert_eq!(table.copy_request, None, "hot-seat has nothing to share");

    table.conn = Conn::Waiting;
    press(&mut app, &mut table, c, false);
    assert_eq!(table.copy_request.as_deref(), Some("42-tiger-marble-ocean"));

    table.copy_request = None;
    table.conn = Conn::Playing;
    press(&mut app, &mut table, c, false);
    assert_eq!(table.copy_request, None, "the opponent is already in");
}

#[test]
fn a_game_still_being_played_goes_nowhere() {
    let app = Controls::new(None);
    assert_eq!(app.leaving(), None);
}

#[test]
fn a_wrong_code_is_told_and_the_connection_stays() {
    let mut table = Table::new(Conn::Waiting, Some("42-tiger-marble-ocean".into()));
    let mut app = Controls::new(Some(Side::White));
    let r = app.on_net(
        &mut table,
        NetEvent::Progress(Progress::WrongCode { attempts: 1 }),
        playing(true),
    );
    assert_eq!(r, PeerAction::Nothing);
    assert_eq!(table.conn, Conn::Waiting);
    assert_eq!(app.note.as_deref(), Some("someone tried a wrong code (1 of 3)"));
    // Finding the host says nothing, and keeps what was said before.
    let mut joining = Table::new(Conn::LookingUp, None);
    app.on_net(&mut joining, NetEvent::Progress(Progress::Found), playing(true));
    assert_eq!(joining.conn, Conn::Dialling);
    assert_eq!(app.note.as_deref(), Some("someone tried a wrong code (1 of 3)"));
}

#[test]
fn on_their_turn_moves_and_resignations_go_to_the_rules() {
    let mut table = Table::new(Conn::Playing, None);
    let mut app = Controls::new(Some(Side::Black));
    assert_eq!(
        app.on_net(&mut table, NetEvent::Move("e2e4".into()), playing(true)),
        PeerAction::Play("e2e4".into())
    );
    assert_eq!(app.on_net(&mut table, NetEvent::Resign, playing(true)), PeerAction::Resigned);
    assert_eq!(
        app.on_net(&mut table, NetEvent::Connected([7; 32]), playing(true)),
        PeerAction::Nothing
    );
    assert_eq!(table.conn, Conn::Playing);
    assert_eq!(app.note, None);
    // At one keyboard, the same messages are nothing.
    assert_eq!(
        app.on_net(&mut table, NetEvent::Move("e2e4".into()), playing(false)),
        PeerAction::Nothing
    );
    assert_eq!(app.on_net(&mut table, NetEvent::Resign, playing(false)), PeerAction::Nothing);
}

#[test]
fn a_draw_message_answers_our_offer_or_makes_one() {
    let mut table = Table::new(Conn::Playing, None);
    let mut app = Controls::new(Some(Side::White));
    assert_eq!(app.on_net(&mut table, NetEvent::Draw, playing(true)), PeerAction::Nothing);
    assert!(app.draw.offered && !app.draw.agreed);

    let mut app = Controls::new(Some(Side::White));
    press(&mut app, &mut table, Key::new(KeyCode::Char('d')), true);
    assert!(app.draw.sent);
    app.on_net(&mut table, NetEvent::Draw, playing(true));
    assert!(app.draw.agreed && !app.draw.sent && !app.draw.offered);
}
