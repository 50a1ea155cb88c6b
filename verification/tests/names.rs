//! What each side calls itself.

use tui_tui::session::name::clean_name;

#[test]
fn names_are_one_short_line() {
    assert_eq!(clean_name("bob\nsmith").as_deref(), Some("bob smith"));
    assert_eq!(clean_name("\u{1b}[31mred").as_deref(), Some("[31mred"));
    assert_eq!(clean_name(&"x".repeat(100)).unwrap().len(), 24);
    assert_eq!(clean_name("   "), None);
}

#[test]
fn words_are_squashed_and_ends_trimmed() {
    assert_eq!(clean_name("  Ace\tof   Spades ").as_deref(), Some("Ace of Spades"));
    assert_eq!(clean_name(" - "), None);
    assert_eq!(clean_name("").as_deref(), None);
    assert_eq!(clean_name("\u{7f}\u{85}ab").as_deref(), Some("ab"));
}

#[test]
fn a_cut_that_ends_on_a_space_is_trimmed() {
    // 23 letters, a space, and more: the cut lands just past the space.
    let name = format!("{} tail", "a".repeat(23));
    assert_eq!(clean_name(&name), Some("a".repeat(23)));
}

#[test]
fn a_name_needs_a_letter_or_digit_within_the_limit() {
    let name = format!("{}x", "-".repeat(30));
    assert_eq!(clean_name(&name), None);
    assert_eq!(clean_name("\u{e9}t\u{e9}").as_deref(), Some("\u{e9}t\u{e9}"));
}

#[test]
fn cleaning_twice_is_cleaning_once() {
    for raw in ["  Ace\tof   Spades ", "bob\nsmith", "\u{1b}[31mred", &"xy ".repeat(20)] {
        let once = clean_name(raw).unwrap();
        assert_eq!(clean_name(&once).as_deref(), Some(once.as_str()), "{raw:?}");
    }
}
