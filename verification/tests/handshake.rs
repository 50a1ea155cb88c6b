//! Pairing: what the two sides say before the game starts.

use tui_tui::games::chess;
use tui_tui::session::handshake::{
    finish, hear, hex, key_from, pick_game, short_id, start, tag, unhex, BadHex, Declined, Failure,
    HostHandshake, HostStage, JoinHandshake, JoinStage, Role, WrongCode,
};
use tui_tui::session::Game;

fn ids() -> ([u8; 32], [u8; 32]) {
    let mut host = [0u8; 32];
    let mut joiner = [0u8; 32];
    for i in 0..32 {
        host[i] = i as u8;
        joiner[i] = 200 - i as u8;
    }
    (host, joiner)
}

fn one(lines: &[String]) -> &str {
    assert_eq!(lines.len(), 1, "{lines:?}");
    lines[0].as_str()
}

#[test]
fn hex_goes_there_and_back() {
    assert_eq!(hex(&[0x00, 0x0f, 0xa0, 0xff]), "000fa0ff");
    assert_eq!(unhex("000fa0ff"), Ok(vec![0x00, 0x0f, 0xa0, 0xff]));
    assert_eq!(unhex("000FA0FF"), Ok(vec![0x00, 0x0f, 0xa0, 0xff]));
    let bytes: Vec<u8> = (0..=255).collect();
    assert_eq!(unhex(&hex(&bytes)), Ok(bytes));
    assert_eq!(unhex(""), Ok(vec![]));
}

#[test]
fn bad_hex_is_refused() {
    assert_eq!(unhex("abc"), Err(BadHex));
    assert_eq!(unhex("zz"), Err(BadHex));
    assert_eq!(unhex("\u{e9}a"), Err(BadHex));
    assert_eq!(unhex("-1"), Err(BadHex));
    // std's byte parser takes a leading plus.
    assert_eq!(unhex("+f"), Ok(vec![0x0f]));
}

#[test]
fn a_short_id_is_the_first_five_bytes() {
    let (host, _) = ids();
    assert_eq!(short_id(&host), "0001020304");
}

#[test]
fn a_line_is_heard_by_its_first_word() {
    assert_eq!(hear("pake 0a0b", "pake"), Ok("0a0b".to_string()));
    assert_eq!(hear("ok", "ok"), Ok(String::new()));
    assert_eq!(hear("no wrong-code", "confirm"), Err(Failure::WrongCode));
    assert_eq!(hear("no unsupported-game", "ok"), Err(Failure::Declined));
    assert_eq!(
        hear("no thanks", "ok"),
        Err(Failure::Refused("thanks".to_string()))
    );
    assert_eq!(
        hear("game chess 1", "confirm"),
        Err(Failure::Unexpected("confirm".to_string(), "game".to_string()))
    );
}

#[test]
fn the_offered_game_is_picked_exactly() {
    let games = vec![chess::game()];
    assert_eq!(pick_game("chess 1", &games).map(|g| g.version), Some(1));
    assert!(pick_game("chess 2", &games).is_none());
    assert!(pick_game("go 1", &games).is_none());
    assert!(pick_game("chess", &games).is_none());
    assert!(pick_game("chess one", &games).is_none());
    assert!(pick_game("chess  1", &games).is_none());
}

#[test]
fn the_two_sides_reach_the_same_key_only_with_the_same_code() {
    let (a, ours_a) = start("42-tiger-marble-ocean");
    let (b, ours_b) = start("42-tiger-marble-ocean");
    let key_a = finish(a, &ours_b).unwrap();
    let key_b = finish(b, &ours_a).unwrap();
    assert_eq!(key_a.len(), 32);
    assert_eq!(key_a, key_b);

    let (c, ours_c) = start("42-tiger-marble-ocean");
    let (d, ours_d) = start("43-tiger-marble-ocean");
    let key_c = finish(c, &ours_d).unwrap();
    let key_d = finish(d, &ours_c).unwrap();
    assert_ne!(key_c, key_d);
}

#[test]
fn a_malformed_key_exchange_is_refused() {
    let (a, _) = start("42-tiger-marble-ocean");
    assert_eq!(finish(a, &vec![1, 2, 3]), Err(Failure::BadKeyExchange));
}

#[test]
fn confirmations_are_bound_to_the_side_and_the_ids() {
    let key = vec![7u8; 32];
    let host_tag = tag(&key, Role::Host, &ids());
    let joiner_tag = tag(&key, Role::Joiner, &ids());
    assert_ne!(host_tag, joiner_tag);
    let (h, j) = ids();
    assert_ne!(tag(&key, Role::Host, &(j, h)), host_tag);
    assert_ne!(tag(&vec![8u8; 32], Role::Host, &ids()), host_tag);
    assert!(tui_tui::session::handshake::matches(&hex(&host_tag), &host_tag));
    assert!(tui_tui::session::handshake::matches(&hex(&host_tag).to_uppercase(), &host_tag));
    assert!(!tui_tui::session::handshake::matches(&hex(&joiner_tag), &host_tag));
    assert!(!tui_tui::session::handshake::matches("not hex", &host_tag));
}

/// Runs the whole handshake between the two state machines, line by line.
fn pair(host_code: &str, join_code: &str, host_game: Game, join_games: Vec<Game>)
    -> (Option<Result<(), Failure>>, Option<Result<Game, Failure>>, Vec<String>) {
    let mut host = HostHandshake::new(host_code, host_game, ids());
    let (mut join, opening) = JoinHandshake::new(join_code, join_games, ids());
    let mut refusals = Vec::new();
    let mut to_host = vec![opening];
    let mut to_join: Vec<String> = Vec::new();
    let mut host_end = None;
    let mut join_end = None;
    while host_end.is_none() || join_end.is_none() {
        let mut progressed = false;
        if host_end.is_none() && !to_host.is_empty() {
            let line = to_host.remove(0);
            let step = host.on_line(Some(&line));
            to_join.extend(step.say);
            if let Some(why) = step.refuse {
                refusals.push(why.clone());
                to_join.push(format!("no {why}"));
            }
            host_end = step.end;
            progressed = true;
        }
        if join_end.is_none() && !to_join.is_empty() {
            let line = to_join.remove(0);
            let step = join.on_line(Some(&line));
            to_host.extend(step.say);
            if let Some(why) = step.refuse {
                refusals.push(why.clone());
                to_host.push(format!("no {why}"));
            }
            join_end = step.end;
            progressed = true;
        }
        if !progressed {
            // Whoever is still waiting finds the other side gone.
            if host_end.is_none() {
                host_end = host.on_line(None).end;
            }
            if join_end.is_none() {
                join_end = join.on_line(None).end;
            }
        }
    }
    assert_eq!(host.stage, HostStage::Done);
    assert_eq!(join.stage, JoinStage::Done);
    (host_end, join_end, refusals)
}

#[test]
fn the_same_code_pairs_both_sides_on_the_hosts_game() {
    let other = Game { name: "go", version: 3 };
    let (host, join, refusals) = pair(
        "42-tiger-marble-ocean",
        "42-tiger-marble-ocean",
        chess::game(),
        vec![other, chess::game()],
    );
    assert_eq!(host, Some(Ok(())));
    let game = join.unwrap().unwrap();
    assert_eq!((game.name, game.version), ("chess", 1));
    assert!(refusals.is_empty());
}

#[test]
fn a_wrong_code_is_refused_by_the_host() {
    let (host, join, refusals) = pair(
        "42-tiger-marble-ocean",
        "42-tiger-marble-oceans",
        chess::game(),
        vec![chess::game()],
    );
    assert_eq!(host, Some(Err(Failure::WrongCode)));
    assert_eq!(join, Some(Err(Failure::WrongCode)));
    assert_eq!(refusals, ["wrong-code"]);
}

#[test]
fn a_game_the_joiner_cannot_play_is_declined() {
    let (host, join, refusals) = pair(
        "42-tiger-marble-ocean",
        "42-tiger-marble-ocean",
        Game { name: "go", version: 1 },
        vec![chess::game()],
    );
    assert_eq!(host, Some(Err(Failure::Declined)));
    assert_eq!(join, Some(Err(Failure::Unsupported("go 1".to_string()))));
    assert_eq!(refusals, ["unsupported-game"]);
}

#[test]
fn the_host_speaks_second_and_says_its_game_once_confirmed() {
    let mut host = HostHandshake::new("7-a-b-c", chess::game(), ids());
    let (_join, opening) = JoinHandshake::new("7-a-b-c", vec![chess::game()], ids());
    assert!(opening.starts_with("pake "));
    assert_eq!(opening.len(), 5 + 66);
    let step = host.on_line(Some(&opening));
    assert!(one(&step.say).starts_with("pake "));
    assert!(step.end.is_none());
    assert_eq!(host.stage, HostStage::Confirm);
    let step = host.on_line(Some("confirm 00"));
    assert_eq!(step.end, Some(Err(Failure::WrongCode)));
    assert_eq!(step.refuse.as_deref(), Some("wrong-code"));
}

#[test]
fn a_hang_up_or_nonsense_ends_the_handshake() {
    let mut host = HostHandshake::new("7-a-b-c", chess::game(), ids());
    let step = host.on_line(None);
    assert_eq!(step.end, Some(Err(Failure::HungUp)));
    assert!(step.say.is_empty());

    let mut host = HostHandshake::new("7-a-b-c", chess::game(), ids());
    assert_eq!(host.on_line(Some("pake xyz")).end, Some(Err(Failure::BadHex)));

    let (mut join, _) = JoinHandshake::new("7-a-b-c", vec![chess::game()], ids());
    assert_eq!(
        join.on_line(Some("hello")).end,
        Some(Err(Failure::Unexpected("pake".to_string(), "hello".to_string())))
    );
}

#[test]
fn refusals_say_what_went_wrong() {
    assert_eq!(
        WrongCode.message(),
        "the code did not match \u{2014} check it with your opponent"
    );
    assert_eq!(Declined.message(), "your opponent's build cannot play this game");
}

#[test]
fn what_the_exchange_hands_back_comes_to_a_key_or_a_reason() {
    assert_eq!(key_from(None), Err(Failure::BadKeyExchange));
    assert_eq!(key_from(Some(vec![7; 32])), Ok(vec![7; 32]));
    assert_eq!(key_from(Some(vec![7; 31])), Err(Failure::WrongKeySize));
    assert_eq!(key_from(Some(vec![7; 33])), Err(Failure::WrongKeySize));
    assert_eq!(key_from(Some(Vec::new())), Err(Failure::WrongKeySize));
}

#[test]
fn a_key_moves_the_host_on_and_its_half_goes_back_either_way() {
    let mut host = HostHandshake::new("42-tiger-marble-ocean", chess::game(), ids());
    let ours = format!("pake {}", hex(&host.ours));
    let step = host.keyed(Ok(vec![9; 32]));
    assert_eq!(host.stage, HostStage::Confirm);
    assert_eq!(host.key, vec![9; 32]);
    assert_eq!(one(&step.say), ours);
    assert!(step.end.is_none() && step.refuse.is_none());

    let mut host = HostHandshake::new("42-tiger-marble-ocean", chess::game(), ids());
    let ours = format!("pake {}", hex(&host.ours));
    let step = host.keyed(Err(Failure::WrongKeySize));
    assert_eq!(host.stage, HostStage::Done);
    assert_eq!(one(&step.say), ours);
    assert_eq!(step.end, Some(Err(Failure::WrongKeySize)));
}

#[test]
fn a_key_has_the_joiner_prove_it_and_no_key_ends_it() {
    let (mut join, _) = JoinHandshake::new("42-tiger-marble-ocean", vec![chess::game()], ids());
    let key = vec![5u8; 32];
    let step = join.keyed(Ok(key.clone()));
    assert_eq!(join.stage, JoinStage::Confirm);
    assert_eq!(join.key, key);
    assert_eq!(one(&step.say), format!("confirm {}", hex(&tag(&key, Role::Joiner, &ids()))));
    assert!(step.end.is_none());

    let (mut join, _) = JoinHandshake::new("42-tiger-marble-ocean", vec![chess::game()], ids());
    let step = join.keyed(Err(Failure::BadKeyExchange));
    assert_eq!(join.stage, JoinStage::Done);
    assert!(step.say.is_empty());
    assert_eq!(step.end, Some(Err(Failure::BadKeyExchange)));
}

#[test]
fn each_failure_tells_the_player_what_happened() {
    assert_eq!(
        Failure::Unsupported("go 3".into()).message(),
        "your opponent is playing go 3, which this build does not have"
    );
    assert_eq!(
        Failure::WrongCode.message(),
        "the code did not match \u{2014} check it with your opponent"
    );
    assert_eq!(Failure::Declined.message(), "your opponent's build cannot play this game");
    assert_eq!(Failure::Refused("busy".into()).message(), "peer refused: busy");
    assert_eq!(
        Failure::Unexpected("pake".into(), "hello".into()).message(),
        "expected \"pake\" from peer, got \"hello\""
    );
    assert_eq!(Failure::BadHex.message(), "bad hex from peer");
    assert_eq!(Failure::BadKeyExchange.message(), "peer sent a bad key exchange");
    assert_eq!(Failure::WrongKeySize.message(), "key exchange gave a key of the wrong size");
    assert_eq!(Failure::HungUp.message(), "peer hung up during the handshake");
}

#[test]
fn a_well_shaped_half_gives_a_key_exactly_when_it_is_a_point() {
    let (_, ours) = start("42-tiger-marble-ocean");
    let (exchange, _) = start("42-tiger-marble-ocean");
    assert!(finish(exchange, &ours).is_ok(), "a real half gives a key");
    // 'S' and 32 bytes: some of these are curve points and some are not,
    // and those that are not are refused as a bad exchange.
    let (mut keys, mut refused) = (0, 0);
    for b in 0u8..32 {
        let mut theirs = vec![0x53u8, b];
        theirs.extend([0u8; 31]);
        let (exchange, _) = start("42-tiger-marble-ocean");
        match finish(exchange, &theirs) {
            Ok(k) => {
                assert_eq!(k.len(), 32);
                keys += 1;
            }
            Err(e) => {
                assert_eq!(e, Failure::BadKeyExchange);
                refused += 1;
            }
        }
    }
    assert!(keys > 0 && refused > 0, "{keys} keys, {refused} refused");
}
