//! The lobby: choosing from the menu, and typing a code in.

use tui_tui::keys::{Key, KeyCode};
use tui_tui::lobby::{Choice, Entry, Item, Lobby, Outcome, ITEMS};

fn key(lobby: &mut Lobby, code: KeyCode) -> Option<Choice> {
    match lobby.on_key(Key::new(code)) {
        Outcome::Chose(choice) => Some(choice),
        _ => None,
    }
}

fn typed(lobby: &mut Lobby, text: &str) -> Option<Choice> {
    text.chars().find_map(|c| key(lobby, KeyCode::Char(c)))
}

fn index(item: Item) -> usize {
    ITEMS.iter().position(|&i| i == item).unwrap()
}

#[test]
fn the_menu_picks_what_is_selected() {
    let mut lobby = Lobby::new();
    assert_eq!(key(&mut lobby, KeyCode::Enter), Some(Choice::Host));

    let mut lobby = Lobby::new();
    key(&mut lobby, KeyCode::Down);
    key(&mut lobby, KeyCode::Down);
    assert_eq!(key(&mut lobby, KeyCode::Enter), Some(Choice::Local));

    // Wrapping upwards from the top lands on the last item.
    let mut lobby = Lobby::new();
    key(&mut lobby, KeyCode::Up);
    assert_eq!(key(&mut lobby, KeyCode::Enter), Some(Choice::Quit));

    assert_eq!(key(&mut Lobby::new(), KeyCode::Char('q')), Some(Choice::Quit));
}

#[test]
fn joining_opens_the_code_box_and_esc_backs_out() {
    let mut lobby = Lobby::new();
    key(&mut lobby, KeyCode::Down);
    assert_eq!(key(&mut lobby, KeyCode::Enter), None);
    assert!(lobby.joining);

    // In the box, q is part of a word, not a way out.
    assert_eq!(key(&mut lobby, KeyCode::Char('q')), None);
    assert_eq!(lobby.input, "q");

    key(&mut lobby, KeyCode::Esc);
    assert!(!lobby.joining);
}

#[test]
fn typing_a_number_from_the_menu_starts_a_code() {
    let mut lobby = Lobby::new();
    assert_eq!(typed(&mut lobby, "42 Tiger marble ocean"), None);
    assert!(lobby.joining);
    assert_eq!(lobby.selected, index(Item::Join));
    assert_eq!(lobby.input, "42-tiger-marble-ocean");
    assert_eq!(
        key(&mut lobby, KeyCode::Enter),
        Some(Choice::Join("42-tiger-marble-ocean".into()))
    );
}

#[test]
fn enter_does_nothing_until_the_code_is_whole() {
    let mut lobby = Lobby::new();
    typed(&mut lobby, "42-tiger-marble");
    assert_eq!(key(&mut lobby, KeyCode::Enter), None);
    assert!(lobby.joining);
}

#[test]
fn tab_after_the_number_moves_on_to_the_words() {
    let mut lobby = Lobby::new();
    typed(&mut lobby, "42");
    key(&mut lobby, KeyCode::Tab);
    assert_eq!(lobby.input, "42-");
    // A word is finished from the code words, by whoever holds them.
    typed(&mut lobby, "tig");
    assert_eq!(lobby.on_key(Key::new(KeyCode::Tab)), Outcome::Complete);
    assert_eq!(lobby.input, "42-tig");
    // A number past 99 is not finished, and gets no dash.
    let mut lobby = Lobby::new();
    typed(&mut lobby, "420");
    assert_eq!(lobby.on_key(Key::new(KeyCode::Tab)), Outcome::Nothing);
    assert_eq!(lobby.input, "420");
}

#[test]
fn the_code_is_judged_by_its_shape_as_you_go() {
    let entry = |text: &str| {
        let mut lobby = Lobby::new();
        typed(&mut lobby, text);
        lobby.entry()
    };
    assert_eq!(Lobby::new().entry(), Entry::Empty);
    assert_eq!(entry("4"), Entry::Typing);
    assert_eq!(entry("42-tig"), Entry::Typing);
    assert_eq!(
        entry("420-tiger"),
        Entry::Bad("\"420\" should be a number from 0 to 99".into())
    );
    assert_eq!(
        entry("42-tiger-marble-ocean-river"),
        Entry::Bad("a code is a number and three words".into())
    );
    assert_eq!(entry("42-tiger-marble-ocean"), Entry::Ready("42-tiger-marble-ocean".into()));
    assert_eq!(entry("7-a-b-c"), Entry::Ready("7-a-b-c".into()));
    assert_eq!(entry("42-tiger-marble-0cean"), Entry::Typing);
}

#[test]
fn ctrl_w_drops_the_last_part() {
    let mut lobby = Lobby::new();
    typed(&mut lobby, "42-tiger-marb");
    lobby.on_key(Key::ctrl(KeyCode::Char('w')));
    assert_eq!(lobby.input, "42-tiger-");
    lobby.on_key(Key::ctrl(KeyCode::Char('w')));
    assert_eq!(lobby.input, "42-");
}

#[test]
fn ctrl_u_clears_and_backspace_takes_one() {
    let mut lobby = Lobby::new();
    typed(&mut lobby, "42-tig");
    lobby.on_key(Key::new(KeyCode::Backspace));
    assert_eq!(lobby.input, "42-ti");
    lobby.on_key(Key::ctrl(KeyCode::Char('u')));
    assert_eq!(lobby.input, "");
    lobby.on_key(Key::new(KeyCode::Backspace));
    assert_eq!(lobby.input, "");
    assert!(lobby.joining);
}

#[test]
fn separators_become_single_dashes_and_never_lead() {
    let mut lobby = Lobby::new();
    lobby.on_key(Key::new(KeyCode::Down));
    lobby.on_key(Key::new(KeyCode::Enter));
    typed(&mut lobby, " -_. 7  .. Ab_c!?");
    assert_eq!(lobby.input, "7-ab-c");
}

#[test]
fn ctrl_c_quits_from_anywhere() {
    let mut lobby = Lobby::new();
    typed(&mut lobby, "4");
    assert!(lobby.joining);
    assert_eq!(lobby.on_key(Key::ctrl(KeyCode::Char('c'))), Outcome::Chose(Choice::Quit));
}

#[test]
fn only_presses_count() {
    let mut lobby = Lobby::new();
    let mut release = Key::new(KeyCode::Enter);
    release.press = false;
    assert_eq!(lobby.on_key(release), Outcome::Nothing);
    assert_eq!(lobby.selected, 0);
}

#[test]
fn pasting_takes_the_code_or_the_whole_command() {
    for pasted in [
        "42-tiger-marble-ocean",
        "  42 Tiger Marble Ocean\n",
        "chess-p2p join 42-tiger-marble-ocean\n",
    ] {
        let mut lobby = Lobby::new();
        lobby.on_paste(pasted);
        assert!(lobby.joining, "{pasted:?}");
        assert_eq!(lobby.selected, index(Item::Join), "{pasted:?}");
        assert_eq!(lobby.input, "42-tiger-marble-ocean", "{pasted:?}");
        assert_eq!(lobby.entry(), Entry::Ready("42-tiger-marble-ocean".into()), "{pasted:?}");
    }
}

#[test]
fn the_menu_says_what_each_item_does() {
    assert_eq!(Item::Host.label(), "Host a game");
    assert_eq!(Item::Join.blurb(), "type in the code your opponent sent");
    assert_eq!(Item::Local.label(), "Play on one keyboard");
    assert_eq!(Item::Quit.blurb(), "");
}
