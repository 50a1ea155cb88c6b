//! The registry of games, chess's messages, and the table they share.

use std::collections::HashSet;

use tui_tui::games::chess;
use tui_tui::games::chess::protocol::Msg;
use tui_tui::games::{Conn, Copied, Kind, Table};
use tui_tui::session::{self, Progress};

#[test]
fn every_game_is_known_by_what_it_says_on_the_wire() {
    for &kind in Kind::ALL.iter() {
        let back = Kind::from_wire(kind.wire());
        assert!(back == Some(kind));
    }
    assert_eq!(Kind::all_wire().len(), Kind::ALL.len());
    let stranger = session::Game {
        name: "go",
        version: 1,
    };
    assert!(Kind::from_wire(stranger).is_none());
    let newer = session::Game {
        version: chess::game().version + 1,
        ..chess::game()
    };
    assert!(Kind::from_wire(newer).is_none(), "a version we cannot speak");
}

/// The registry is where a second game gets added, so it is where two games
/// could collide: the same name in the lobby, or the same id on the wire.
#[test]
fn no_two_games_share_a_name_or_a_wire_id() {
    let names: HashSet<String> = Kind::ALL.iter().map(|k| k.name().to_lowercase()).collect();
    let wires: HashSet<&str> = Kind::ALL.iter().map(|k| k.wire().name).collect();
    assert_eq!(names.len(), Kind::ALL.len(), "two games share a name");
    assert_eq!(wires.len(), Kind::ALL.len(), "two games share a wire id");
}

#[test]
fn every_game_can_be_named_on_the_command_line() {
    for &kind in Kind::ALL.iter() {
        let name = kind.name();
        assert!(
            !name.is_empty() && name.chars().all(|c| c.is_ascii_alphanumeric()),
            "{name:?} must be one plain word to type"
        );
        assert!(Kind::from_name(&name.to_lowercase()) == Some(kind));
        assert!(Kind::from_name(&name.to_uppercase()) == Some(kind));
    }
    assert!(Kind::from_name("draughts").is_none());
}

#[test]
fn chess_messages_survive_the_trip() {
    for msg in [Msg::Move("e2e4".into()), Msg::Resign, Msg::Draw] {
        assert_eq!(Msg::parse(&msg.line()), Some(msg.clone()), "{msg:?}");
    }
}

#[test]
fn chess_messages_are_matched_exactly() {
    for line in [
        "castle-sideways",
        "resign please",
        "draw now",
        "move",
        "move e2e4 e7e5",
        "Move e2e4",
        " resign",
    ] {
        assert_eq!(Msg::parse(line), None, "{line:?}");
    }
}

#[test]
fn chess_goes_by_its_name_and_first_version() {
    let g = chess::game();
    assert_eq!(g.name, "chess");
    assert_eq!(g.version, 1);
    assert_eq!(Kind::Chess.name(), "Chess");
    assert!(Kind::from_name("cHeSs") == Some(Kind::Chess));
    assert!(Kind::from_name("chess ").is_none());
}

#[test]
fn chess_lines_are_exact() {
    assert_eq!(Msg::Move("e7e8q".into()).line(), "move e7e8q");
    assert_eq!(Msg::Resign.line(), "resign");
    assert_eq!(Msg::Draw.line(), "draw");
    assert_eq!(Msg::parse("move a1a2"), Some(Msg::Move("a1a2".into())));
}

#[test]
fn progress_moves_the_table_along() {
    let mut table = Table::new(Conn::Publishing, Some("42-tiger-marble-ocean".into()));
    assert_eq!(table.on_progress(Progress::Listed, Kind::Chess), None);
    assert!(matches!(table.conn, Conn::Waiting));
    assert_eq!(
        table.on_progress(Progress::Declined, Kind::Chess).as_deref(),
        Some("someone joined who cannot play chess")
    );
    assert!(matches!(table.conn, Conn::Waiting));
    assert_eq!(
        table
            .on_progress(Progress::WrongCode { attempts: 2 }, Kind::Chess)
            .as_deref(),
        Some("someone tried a wrong code (2 of 3)")
    );
    let mut joining = Table::new(Conn::LookingUp, None);
    assert_eq!(joining.on_progress(Progress::Found, Kind::Chess), None);
    assert!(matches!(joining.conn, Conn::Dialling));
}

#[test]
fn the_share_code_is_copied_only_while_it_is_needed() {
    let mut table = Table::local();
    table.share = Some("42-tiger-marble-ocean".into());
    table.copy_share();
    assert_eq!(table.copy_request, None, "hot-seat has nothing to share");

    table.conn = Conn::Waiting;
    table.copy_share();
    assert_eq!(table.copy_request.as_deref(), Some("42-tiger-marble-ocean"));

    table.copy_request = None;
    table.conn = Conn::Playing;
    table.copy_share();
    assert_eq!(table.copy_request, None, "the opponent is already in");
}

#[test]
fn the_opponent_is_called_by_name_else_by_id() {
    let mut table = Table::new(Conn::Dialling, None);
    assert_eq!(table.peer_label(), "\u{2014}");
    assert!(!table.is_networked());
    let mut id = [0u8; 32];
    id[0] = 0xab;
    id[1] = 0x01;
    id[4] = 0xff;
    table.peer = Some(id);
    assert_eq!(table.peer_label(), "ab010000ff");
    table.attach(id, "alice");
    assert_eq!(table.peer_label(), "alice");
    assert!(table.is_networked());
    assert!(matches!(table.conn, Conn::Playing));
    assert_eq!(table.copied, None::<Copied>);
}
