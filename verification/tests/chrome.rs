//! What every game's screen says of the connection, and its footer.

use tui_tui::games::chrome::{connection_lines, footer_line, Span, Tone};
use tui_tui::games::{Conn, Copied, Table};

fn text(lines: &[Vec<Span>]) -> Vec<Vec<(String, Tone)>> {
    lines
        .iter()
        .map(|l| l.iter().map(|s| (s.text.clone(), s.tone)).collect())
        .collect()
}

fn line(s: &str, tone: Tone) -> Vec<(String, Tone)> {
    vec![(s.to_string(), tone)]
}

#[test]
fn hot_seat_says_nothing_of_a_connection() {
    assert!(connection_lines(&Table::local(), true).is_empty());
}

#[test]
fn a_host_is_shown_the_code_and_how_to_copy_it() {
    let mut table = Table::new(Conn::Publishing, Some("42-tiger-marble-ocean".into()));
    assert_eq!(
        text(&connection_lines(&table, true)),
        [
            line("share this code:", Tone::Muted),
            line("42-tiger-marble-ocean", Tone::Cursor),
            line("c copies it", Tone::Muted),
            line("publishing it\u{2026}", Tone::Muted),
        ]
    );
    table.conn = Conn::Waiting;
    table.copied = Some(Copied::Terminal);
    assert_eq!(
        text(&connection_lines(&table, true)),
        [
            line("share this code:", Tone::Muted),
            line("42-tiger-marble-ocean", Tone::Cursor),
            line("copied via the terminal", Tone::Selected),
            line("(no? m, then select it)", Tone::Muted),
        ]
    );
    assert_eq!(connection_lines(&table, false).len(), 3);
    table.copied = Some(Copied::Clipboard);
    assert_eq!(
        text(&connection_lines(&table, true))[2],
        line("copied \u{2713}", Tone::Selected)
    );
}

#[test]
fn the_connection_says_where_it_stands() {
    let t = |conn| text(&connection_lines(&Table::new(conn, None), true));
    assert_eq!(t(Conn::LookingUp), [line("looking up code\u{2026}", Tone::Muted)]);
    assert_eq!(t(Conn::Dialling), [line("connecting\u{2026}", Tone::Muted)]);
    assert_eq!(
        t(Conn::Inviting("alice".into())),
        [line("waiting for alice to accept\u{2026}", Tone::Muted)]
    );
    assert_eq!(t(Conn::Lost("gone".into())), [line("gone", Tone::Capture)]);
    let mut table = Table::new(Conn::Dialling, None);
    table.attach([9u8; 32], "bob");
    assert_eq!(
        text(&connection_lines(&table, true)),
        [vec![("peer ".to_string(), Tone::Muted), ("bob".to_string(), Tone::Plain)]]
    );
}

#[test]
fn the_footer_asks_the_tables_question_first() {
    let f = |leave, chat, net, q: Option<&str>| {
        let s = footer_line(leave, chat, net, q, "q quit   f flip");
        (s.text, s.tone)
    };
    assert_eq!(
        f(true, true, true, Some("promote?")),
        ("leave this game?   y leave   n stay".to_string(), Tone::Asking)
    );
    assert_eq!(
        f(false, true, true, Some("promote?")),
        ("enter send   \u{2191}/\u{2193} scroll   esc back to the game".to_string(), Tone::Muted)
    );
    assert_eq!(
        f(false, true, false, None),
        ("\u{2191}/\u{2193} scroll   esc back to the game".to_string(), Tone::Muted)
    );
    assert_eq!(f(false, false, true, Some("promote?")), ("promote?".to_string(), Tone::Asking));
    assert_eq!(f(false, false, true, None), ("q quit   f flip".to_string(), Tone::Muted));
}
