//! Leaving a game in play asks first; leaving one that is over does not.

use tui_tui::games::chess::controls::{Action, Controls, Facts};
use tui_tui::games::chess::panels::chess_footer;
use tui_tui::keys::{Key, KeyCode};

fn in_play() -> Facts {
    Facts {
        promoting: false,
        ending: false,
        ended: false,
        animating: false,
        selected: false,
        over: false,
        networked: false,
        my_turn: true,
    }
}

fn press(app: &mut Controls, facts: Facts, code: KeyCode) -> Action {
    app.on_key(Key::new(code), facts)
}

fn footer(app: &Controls) -> String {
    chess_footer(app.confirm_quit, app.confirm_resign, false, 120).text
}

#[test]
fn q_and_esc_ask_before_leaving_a_game_in_play() {
    for first in [KeyCode::Char('q'), KeyCode::Esc] {
        for confirm in [KeyCode::Char('y'), KeyCode::Char('q'), KeyCode::Enter] {
            let mut app = Controls::new(None);
            press(&mut app, in_play(), first);
            assert!(!app.quit, "{first:?} leaves without asking");
            assert!(footer(&app).contains("leave this game?"), "{first:?}");
            press(&mut app, in_play(), confirm);
            assert!(app.quit, "{first:?} then {confirm:?}");
        }
    }
}

#[test]
fn anything_else_stays_in_the_game() {
    for answer in [KeyCode::Char('n'), KeyCode::Esc, KeyCode::Char('f')] {
        let mut app = Controls::new(None);
        press(&mut app, in_play(), KeyCode::Char('q'));
        assert_eq!(press(&mut app, in_play(), answer), Action::Nothing);
        assert!(!app.quit && !app.confirm_quit, "{answer:?}");
        assert!(!app.flipped, "the answer is not also taken as a command");
        assert!(!footer(&app).contains("leave this game?"));
    }
}

#[test]
fn esc_drops_a_selected_piece_before_it_asks_to_leave() {
    let mut app = Controls::new(None);
    assert_eq!(press(&mut app, in_play(), KeyCode::Enter), Action::Activate);
    let picked_up = Facts {
        selected: true,
        ..in_play()
    };
    assert_eq!(press(&mut app, picked_up, KeyCode::Esc), Action::Deselect);
    assert!(!app.confirm_quit);
}

#[test]
fn a_finished_game_is_left_at_once() {
    let mut app = Controls::new(None);
    let mated = Facts {
        ending: true,
        ended: true,
        over: true,
        ..in_play()
    };
    app.banner_hidden = true;
    press(&mut app, mated, KeyCode::Char('q'));
    assert!(app.quit);
}

#[test]
fn ctrl_c_leaves_the_program_from_the_question_too() {
    let mut app = Controls::new(None);
    app.on_key(Key::ctrl(KeyCode::Char('c')), in_play());
    assert!(app.exit);
    let mut app = Controls::new(None);
    press(&mut app, in_play(), KeyCode::Char('q'));
    app.on_key(Key::ctrl(KeyCode::Char('c')), in_play());
    assert!(app.exit && !app.quit);
}

#[test]
fn during_the_finale_a_key_skips_it_and_then_clears_the_verdict() {
    let mut app = Controls::new(None);
    let playing_out = Facts {
        ending: true,
        ended: true,
        over: true,
        animating: true,
        ..in_play()
    };
    assert_eq!(press(&mut app, playing_out, KeyCode::Char('f')), Action::SkipFinale);
    assert!(!app.flipped);
    let done = Facts {
        animating: false,
        ..playing_out
    };
    assert_eq!(press(&mut app, done, KeyCode::Char('f')), Action::Nothing);
    assert!(app.banner_hidden && !app.flipped);
    // q still gets straight out, verdict or not.
    let mut app = Controls::new(None);
    press(&mut app, done, KeyCode::Char('q'));
    assert!(app.quit);
}
