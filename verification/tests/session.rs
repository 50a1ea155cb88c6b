//! The host's wait, publishing, the peer's lines, and the command line.

use tui_tui::cli::{parse_args, usage, Command};
use tui_tui::games::chess::app::{Ending, FINALE, RESIGN_FINALE};
use tui_tui::games::chess::ui::PieceStyle;
use tui_tui::games::Kind;
use tui_tui::net::{disconnect_note, incoming, NetEvent, Out};
use tui_tui::session::{
    after_attempt, after_publish, Attempt, Next, Progress, Publish, MAX_WRONG_CODES,
    PUBLISH_ATTEMPTS,
};

#[test]
fn the_host_stops_after_too_many_wrong_codes() {
    let mut wrong = 0;
    let mut told = Vec::new();
    let mut next = Next::Wait;
    while next == Next::Wait {
        let (w, progress, n) = after_attempt(wrong, Attempt::WrongCode);
        wrong = w;
        told.extend(progress);
        next = n;
    }
    assert_eq!(next, Next::GiveUp);
    assert_eq!(wrong, MAX_WRONG_CODES);
    assert_eq!(
        told,
        [
            Progress::WrongCode { attempts: 1 },
            Progress::WrongCode { attempts: 2 },
            Progress::WrongCode { attempts: 3 },
        ]
    );
}

#[test]
fn anything_but_a_wrong_code_leaves_the_count_alone() {
    assert_eq!(after_attempt(1, Attempt::Paired), (1, None, Next::Play));
    assert_eq!(
        after_attempt(2, Attempt::Declined),
        (2, Some(Progress::Declined), Next::Wait)
    );
    assert_eq!(after_attempt(0, Attempt::Dropped), (0, None, Next::Wait));
}

#[test]
fn publishing_is_tried_three_times() {
    assert_eq!(after_publish(1, true), Publish::Done);
    assert_eq!(after_publish(1, false), Publish::Retry(2));
    assert_eq!(after_publish(2, false), Publish::Retry(3));
    assert_eq!(after_publish(PUBLISH_ATTEMPTS, false), Publish::GiveUp);
    assert_eq!(after_publish(PUBLISH_ATTEMPTS, true), Publish::Done);
}

#[test]
fn the_peers_lines_become_events() {
    assert_eq!(incoming("move e2e4"), Some(NetEvent::Move("e2e4".into())));
    assert_eq!(incoming("move e2e4 \r"), Some(NetEvent::Move("e2e4".into())));
    assert_eq!(incoming("resign"), Some(NetEvent::Resign));
    assert_eq!(incoming("draw"), Some(NetEvent::Draw));
    // Only whole messages count: a verb with too little or too much is
    // nothing.
    assert_eq!(incoming("move"), None);
    assert_eq!(incoming("move e2e4 e7e5"), None);
    assert_eq!(incoming("resign please"), None);
    assert_eq!(incoming("draw now"), None);
    assert_eq!(incoming("castle"), None);
    assert_eq!(incoming(""), None);
}

#[test]
fn our_moves_go_out_one_to_a_line() {
    assert_eq!(Out::Move("g1f3".into()).line(), "move g1f3\n");
    assert_eq!(Out::Resign.line(), "resign\n");
    assert_eq!(Out::Draw.line(), "draw\n");
    let line = Out::Move("e7e8q".into()).line();
    assert_eq!(incoming(line.trim_end()), Some(NetEvent::Move("e7e8q".into())));
}

#[test]
fn a_hang_up_is_told_plainly() {
    assert_eq!(disconnect_note(None), "opponent disconnected");
    assert_eq!(disconnect_note(Some("timed out".into())), "timed out");
}

fn args(words: &[&str]) -> Vec<String> {
    words.iter().map(|w| w.to_string()).collect()
}

#[test]
fn the_command_line_names_a_game_and_what_to_do() {
    let (game, cmd) = parse_args(&args(&[]));
    assert_eq!(game, Kind::ALL[0]);
    assert!(matches!(cmd, Command::Lobby));
    let (game, cmd) = parse_args(&args(&["CHESS", "local"]));
    assert_eq!(game, Kind::Chess);
    assert!(matches!(cmd, Command::Local));
    assert!(matches!(parse_args(&args(&["host"])).1, Command::Host));
    assert!(matches!(parse_args(&args(&["help"])).1, Command::Help));
    assert!(matches!(parse_args(&args(&["-h"])).1, Command::Help));
    assert!(matches!(parse_args(&args(&["--help"])).1, Command::Help));
    assert!(matches!(parse_args(&args(&["join"])).1, Command::Misused));
    assert!(matches!(parse_args(&args(&["local", "now"])).1, Command::Misused));
    assert!(matches!(parse_args(&args(&["draughts", "local"])).1, Command::Misused));
    assert!(matches!(parse_args(&args(&["chess"])).1, Command::Lobby));
}

#[test]
fn a_code_may_be_typed_with_spaces() {
    match parse_args(&args(&["join", "42", "tiger", "marble", "ocean"])).1 {
        Command::Join(code) => assert_eq!(code, "42-tiger-marble-ocean"),
        other => panic!("expected a code, got {other:?}"),
    }
    match parse_args(&args(&["chess", "join", "42-tiger-marble-ocean"])).1 {
        Command::Join(code) => assert_eq!(code, "42-tiger-marble-ocean"),
        other => panic!("expected a code, got {other:?}"),
    }
}

#[test]
fn the_usage_lists_the_games_with_the_default_marked() {
    let text = usage();
    assert!(text.starts_with("tui-tui \u{2014} terminal games over iroh\n\nusage:\n"));
    assert!(text.contains("\ngames: chess (default)\n\n"));
    assert!(text.ends_with("or in $TUI_TUI_HOME if that is set.\n"));
}

#[test]
fn a_finale_plays_in_three_acts() {
    assert_eq!(Ending::Checkmate.acts(), (700, 600, 600));
    assert_eq!(Ending::Resignation.acts(), (250, 1100, 600));
    assert_eq!(Ending::Checkmate.length(), FINALE);
    assert_eq!(Ending::Resignation.length(), RESIGN_FINALE);
    assert_eq!(FINALE, 1900);
    assert_eq!(RESIGN_FINALE, 1950);
}

#[test]
fn p_reaches_every_style() {
    let mut style = PieceStyle::Octant;
    let mut seen = Vec::new();
    for _ in 0..7 {
        assert!(!seen.contains(&style), "{style:?} comes round twice");
        seen.push(style);
        style = style.next();
    }
    assert_eq!(style, PieceStyle::Octant);
    assert_eq!(seen.len(), 7, "every style is reachable: {seen:?}");
}
