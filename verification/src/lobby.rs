//! The first screen: host, join with a code, or share a keyboard.
//!
//! This only holds state and decides what a key or a paste means; the
//! program draws it and acts on the [`Choice`] it returns.

use vstd::prelude::*;

use crate::keys::{Key, KeyCode};
use crate::session::handshake::digits_value;
use crate::session::name::{is_white_space, is_whitespace};
use crate::text::{chars_of, joined, string_of};

verus! {

broadcast use vstd::string::group_string_axioms;

#[derive(Clone, Copy, Debug, PartialEq, Eq, Structural)]
pub enum Item {
    Host,
    Join,
    Local,
    Quit,
}

pub const ITEMS: [Item; 4] = [Item::Host, Item::Join, Item::Local, Item::Quit];

/// The menu, top to bottom.
pub open spec fn items() -> Seq<Item> {
    seq![Item::Host, Item::Join, Item::Local, Item::Quit]
}

pub open spec fn label_of(item: Item) -> Seq<char> {
    match item {
        Item::Host => seq!['H', 'o', 's', 't', ' ', 'a', ' ', 'g', 'a', 'm', 'e'],
        Item::Join => seq!['J', 'o', 'i', 'n', ' ', 'a', ' ', 'g', 'a', 'm', 'e'],
        Item::Local => seq!['P', 'l', 'a', 'y', ' ', 'o', 'n', ' ', 'o', 'n', 'e', ' ', 'k', 'e', 'y',
            'b', 'o', 'a', 'r', 'd'],
        Item::Quit => seq!['Q', 'u', 'i', 't'],
    }
}

pub open spec fn blurb_of(item: Item) -> Seq<char> {
    match item {
        Item::Host => seq!['g', 'e', 't', ' ', 'a', ' ', 'c', 'o', 'd', 'e', ' ', 't', 'o', ' ', 's',
            'e', 'n', 'd', ' ', 'y', 'o', 'u', 'r', ' ', 'o', 'p', 'p', 'o', 'n', 'e', 'n', 't'],
        Item::Join => seq!['t', 'y', 'p', 'e', ' ', 'i', 'n', ' ', 't', 'h', 'e', ' ', 'c', 'o', 'd',
            'e', ' ', 'y', 'o', 'u', 'r', ' ', 'o', 'p', 'p', 'o', 'n', 'e', 'n', 't', ' ', 's', 'e',
            'n', 't'],
        Item::Local => seq!['t', 'w', 'o', ' ', 'p', 'l', 'a', 'y', 'e', 'r', 's', ' ', 't', 'a', 'k',
            'i', 'n', 'g', ' ', 't', 'u', 'r', 'n', 's'],
        Item::Quit => Seq::empty(),
    }
}

impl Item {
    pub fn label(self) -> (r: &'static str)
        ensures
            r@ == label_of(self),
    {
        proof {
            reveal_strlit("Host a game");
            reveal_strlit("Join a game");
            reveal_strlit("Play on one keyboard");
            reveal_strlit("Quit");
        }
        match self {
            Item::Host => "Host a game",
            Item::Join => "Join a game",
            Item::Local => "Play on one keyboard",
            Item::Quit => "Quit",
        }
    }

    pub fn blurb(self) -> (r: &'static str)
        ensures
            r@ == blurb_of(self),
    {
        proof {
            reveal_strlit("get a code to send your opponent");
            reveal_strlit("type in the code your opponent sent");
            reveal_strlit("two players taking turns");
            reveal_strlit("");
        }
        match self {
            Item::Host => "get a code to send your opponent",
            Item::Join => "type in the code your opponent sent",
            Item::Local => "two players taking turns",
            Item::Quit => "",
        }
    }
}

/// What the player settled on. A code to join with is carried as the text
/// typed for it.
#[derive(Clone, Debug, PartialEq, Eq)]
pub enum Choice {
    Host,
    Join(String),
    Local,
    Quit,
}

/// How the code typed so far is looking, for the line under it.
#[derive(Clone, Debug, PartialEq, Eq)]
pub enum Entry {
    Empty,
    Typing,
    Ready(String),
    Bad(String),
}

/// What a key in the lobby came to.
#[derive(Clone, Debug, PartialEq, Eq)]
pub enum Outcome {
    /// Nothing to act on.
    Nothing,
    /// The player settled on something.
    Chose(Choice),
    /// Tab on one of the code's words: finish it from the code words, if
    /// they make it one.
    Complete,
}

/// [`Choice`] as the contracts see it.
pub enum ChoiceView {
    Host,
    Join(Seq<char>),
    Local,
    Quit,
}

/// [`Outcome`] as the contracts see it.
pub enum OutcomeView {
    Nothing,
    Chose(ChoiceView),
    Complete,
}

pub open spec fn choice_view(c: Choice) -> ChoiceView {
    match c {
        Choice::Host => ChoiceView::Host,
        Choice::Join(code) => ChoiceView::Join(code@),
        Choice::Local => ChoiceView::Local,
        Choice::Quit => ChoiceView::Quit,
    }
}

pub open spec fn outcome_view(o: Outcome) -> OutcomeView {
    match o {
        Outcome::Nothing => OutcomeView::Nothing,
        Outcome::Chose(c) => OutcomeView::Chose(choice_view(c)),
        Outcome::Complete => OutcomeView::Complete,
    }
}

pub struct Lobby {
    pub selected: usize,
    /// Typing a code in, rather than choosing from the menu.
    pub joining: bool,
    pub input: String,
}

/// The index of the Join item.
pub open spec fn join_index() -> usize {
    1
}

pub open spec fn is_ascii_alnum(c: char) -> bool {
    ('0' <= c <= '9') || ('a' <= c <= 'z') || ('A' <= c <= 'Z')
}

pub open spec fn is_ascii_digit(c: char) -> bool {
    '0' <= c <= '9'
}

pub open spec fn lower(c: char) -> char {
    crate::text::ascii_lower(c)
}

/// What typing `c` does to the code: letters and digits go in lower case,
/// and a separator becomes one dash, never first and never doubled.
pub open spec fn push_of(input: Seq<char>, c: char) -> Seq<char> {
    if is_ascii_alnum(c) {
        input.push(lower(c))
    } else if (c == '-' || c == '_' || c == '.' || is_white_space(c)) && input.len() > 0 && input.last()
        != '-' {
        input.push('-')
    } else {
        input
    }
}

pub open spec fn push_all(input: Seq<char>, cs: Seq<char>) -> Seq<char>
    decreases cs.len(),
{
    if cs.len() == 0 {
        input
    } else {
        push_of(push_all(input, cs.drop_last()), cs.last())
    }
}

/// Dashes taken off the end.
pub open spec fn trim_dashes(s: Seq<char>) -> Seq<char>
    decreases s.len(),
{
    if s.len() > 0 && s.last() == '-' {
        trim_dashes(s.drop_last())
    } else {
        s
    }
}

/// Where the last part of `s` starts: just past its last dash, or 0.
pub open spec fn part_start(s: Seq<char>) -> nat
    decreases s.len(),
{
    if s.len() == 0 {
        0
    } else if s.last() == '-' {
        s.len()
    } else {
        part_start(s.drop_last())
    }
}

/// Control-W: the last part goes, with the dashes after it.
pub open spec fn drop_part(s: Seq<char>) -> Seq<char> {
    s.take(part_start(trim_dashes(s)) as int)
}

pub open spec fn word_join() -> Seq<char> {
    seq!['j', 'o', 'i', 'n']
}

pub open spec fn join_at(s: Seq<char>, i: int) -> bool {
    0 <= i && i + 4 <= s.len() && s.subrange(i, i + 4) == word_join()
}

/// The last place before `n` where "join" starts, or -1.
pub open spec fn last_join_before(s: Seq<char>, n: int) -> int
    decreases n,
{
    if n <= 0 {
        -1
    } else if join_at(s, n - 1) {
        n - 1
    } else {
        last_join_before(s, n - 1)
    }
}

/// People paste the whole command as often as the code: whatever follows
/// the last "join", or all of it.
pub open spec fn paste_source(s: Seq<char>) -> Seq<char> {
    let i = last_join_before(s, s.len() as int);
    if i >= 0 {
        s.skip(i + 4)
    } else {
        s
    }
}

/// The code box after a paste.
pub open spec fn pasted(s: Seq<char>) -> Seq<char> {
    trim_dashes(push_all(Seq::empty(), paste_source(s)))
}

/// The shape typed text is kept in: lower-case letters, digits and single
/// dashes between them, never a dash first.
pub open spec fn is_code_text(s: Seq<char>) -> bool {
    &&& forall|i: int|
        0 <= i < s.len() ==> ('0' <= #[trigger] s[i] <= '9') || ('a' <= s[i] <= 'z') || s[i] == '-'
    &&& s.len() > 0 ==> s[0] != '-'
    &&& forall|i: int| 0 <= i < s.len() - 1 ==> !(#[trigger] s[i] == '-' && s[i + 1] == '-')
}


/// The parts of typed text: what lies between its dashes, in order. There
/// is always at least one, empty if nothing has been typed since the last
/// dash.
pub open spec fn parts_of(s: Seq<char>) -> Seq<Seq<char>>
    decreases s.len(),
{
    if s.len() == 0 {
        seq![Seq::empty()]
    } else {
        let p = parts_of(s.drop_last());
        if s.last() == '-' {
            p.push(Seq::empty())
        } else {
            p.update(p.len() - 1, p.last().push(s.last()))
        }
    }
}

/// A code's first part: a number from 0 to 99.
pub open spec fn is_number_part(p: Seq<char>) -> bool {
    &&& p.len() > 0
    &&& forall|i: int| 0 <= i < p.len() ==> is_ascii_digit(#[trigger] p[i])
    &&& digits_value(p) < 100
}

/// One of a code's three words, by its shape: lower-case letters, at least
/// one. Which words there are is the code's word list, which is not here.
pub open spec fn is_word_part(p: Seq<char>) -> bool {
    &&& p.len() > 0
    &&& forall|i: int| 0 <= i < p.len() ==> 'a' <= #[trigger] p[i] <= 'z'
}

/// Text shaped as a whole code: a number, then three words.
pub open spec fn code_ready(s: Seq<char>) -> bool {
    let ps = parts_of(s);
    &&& ps.len() == 4
    &&& is_number_part(ps[0])
    &&& is_word_part(ps[1])
    &&& is_word_part(ps[2])
    &&& is_word_part(ps[3])
}

/// How the code typed so far is looking. Only a part the player has moved
/// past is judged; the first part, quoted as typed, must be a number.
pub open spec fn entry_of(s: Seq<char>) -> EntryView {
    let ps = parts_of(s);
    if s.len() == 0 {
        EntryView::Empty
    } else if code_ready(s) {
        EntryView::Ready(s)
    } else if ps.len() > 4 {
        EntryView::Bad("a code is a number and three words"@)
    } else if ps.len() >= 2 && !is_number_part(ps[0]) {
        EntryView::Bad("\""@ + ps[0] + "\" should be a number from 0 to 99"@)
    } else {
        EntryView::Typing
    }
}

/// [`Entry`] as the contracts see it.
pub enum EntryView {
    Empty,
    Typing,
    Ready(Seq<char>),
    Bad(Seq<char>),
}

pub open spec fn entry_view(e: Entry) -> EntryView {
    match e {
        Entry::Empty => EntryView::Empty,
        Entry::Typing => EntryView::Typing,
        Entry::Ready(c) => EntryView::Ready(c@),
        Entry::Bad(m) => EntryView::Bad(m@),
    }
}

pub open spec fn parts_view(ps: Seq<Vec<char>>) -> Seq<Seq<char>> {
    ps.map_values(|p: Vec<char>| p@)
}

proof fn lemma_parts_nonempty(s: Seq<char>)
    ensures
        parts_of(s).len() >= 1,
    decreases s.len(),
{
    if s.len() > 0 {
        lemma_parts_nonempty(s.drop_last());
    }
}

/// The parts of the text in `cs`.
fn parts(cs: &Vec<char>) -> (r: Vec<Vec<char>>)
    ensures
        parts_view(r@) == parts_of(cs@),
        r@.len() >= 1,
{
    let mut out: Vec<Vec<char>> = Vec::new();
    out.push(Vec::new());
    let mut i: usize = 0;
    assert(cs@.take(0) =~= Seq::<char>::empty());
    assert(parts_view(out@) =~= parts_of(cs@.take(0)));
    while i < cs.len()
        invariant
            i <= cs.len(),
            parts_view(out@) == parts_of(cs@.take(i as int)),
            out@.len() >= 1,
        decreases cs.len() - i,
    {
        let ghost before = cs@.take(i as int);
        assert(cs@.take(i + 1).drop_last() =~= before);
        proof {
            lemma_parts_nonempty(before);
        }
        let c = cs[i];
        if c == '-' {
            out.push(Vec::new());
            assert(parts_view(out@) =~= parts_of(before).push(Seq::empty()));
        } else {
            let mut last = out.pop().unwrap();
            last.push(c);
            out.push(last);
            assert(parts_view(out@) =~= parts_of(before).update(
                parts_of(before).len() - 1,
                parts_of(before).last().push(c),
            ));
        }
        i += 1;
    }
    assert(cs@.take(i as int) =~= cs@);
    out
}

/// Whether a part is a number from 0 to 99.
fn number_part(p: &Vec<char>) -> (r: bool)
    ensures
        r == is_number_part(p@),
{
    if p.len() == 0 {
        return false;
    }
    // The value so far, held at 100 once it reaches it: more digits never
    // bring it back down.
    let mut v: u64 = 0;
    let mut i: usize = 0;
    while i < p.len()
        invariant
            i <= p.len(),
            forall|j: int| 0 <= j < i ==> is_ascii_digit(#[trigger] p@[j]),
            v == if digits_value(p@.take(i as int)) >= 100 {
                100
            } else {
                digits_value(p@.take(i as int))
            },
        decreases p.len() - i,
    {
        let c = p[i];
        if !('0' <= c && c <= '9') {
            return false;
        }
        assert(p@.take(i + 1).drop_last() =~= p@.take(i as int));
        let d = (c as u64) - ('0' as u64);
        if v < 100 {
            v = v * 10 + d;
        }
        if v > 100 {
            v = 100;
        }
        i += 1;
    }
    assert(p@.take(i as int) =~= p@);
    v < 100
}

/// Whether a part is shaped as a code word.
fn word_part(p: &Vec<char>) -> (r: bool)
    ensures
        r == is_word_part(p@),
{
    if p.len() == 0 {
        return false;
    }
    let mut i: usize = 0;
    while i < p.len()
        invariant
            i <= p.len(),
            forall|j: int| 0 <= j < i ==> 'a' <= #[trigger] p@[j] <= 'z',
        decreases p.len() - i,
    {
        let c = p[i];
        if !('a' <= c && c <= 'z') {
            return false;
        }
        i += 1;
    }
    true
}

/// Whether text is shaped as a whole code.
pub fn is_code_ready(s: &str) -> (r: bool)
    ensures
        r == code_ready(s@),
{
    let cs = chars_of(s);
    let ps = parts(&cs);
    assert(parts_view(ps@).len() == ps@.len());
    if ps.len() != 4 {
        return false;
    }
    assert(ps@[0]@ == parts_of(s@)[0]);
    assert(ps@[1]@ == parts_of(s@)[1]);
    assert(ps@[2]@ == parts_of(s@)[2]);
    assert(ps@[3]@ == parts_of(s@)[3]);
    number_part(&ps[0]) && word_part(&ps[1]) && word_part(&ps[2]) && word_part(&ps[3])
}

/// Text with no dash is its one part.
proof fn lemma_single_part(s: Seq<char>)
    requires
        parts_of(s).len() == 1,
    ensures
        parts_of(s)[0] == s,
    decreases s.len(),
{
    if s.len() > 0 {
        lemma_parts_nonempty(s.drop_last());
        if s.last() != '-' {
            lemma_single_part(s.drop_last());
        }
    }
}

/// In the menu the vi keys are the arrow keys: `k` does what Up does and
/// `j` what Down does, held with Control or not. Up selects the item above,
/// wrapping from the first to the last; Down the one below, wrapping from
/// the last to the first. So from a fresh lobby, on Host, `k` then Enter
/// chooses Quit.
pub proof fn lemma_menu_vi_keys(l: LobbyView, ctrl: bool)
    requires
        !l.joining,
        l.selected < 4,
    ensures
        key_effect(l, Key { code: KeyCode::Char('k'), ctrl, press: true }) == key_effect(
            l,
            Key { code: KeyCode::Up, ctrl, press: true },
        ),
        key_effect(l, Key { code: KeyCode::Char('j'), ctrl, press: true }) == key_effect(
            l,
            Key { code: KeyCode::Down, ctrl, press: true },
        ),
        key_effect(l, Key { code: KeyCode::Up, ctrl, press: true }) == (
            LobbyView { selected: if l.selected == 0 {
                3usize
            } else {
                (l.selected - 1) as usize
            }, ..l },
            OutcomeView::Nothing,
        ),
        key_effect(l, Key { code: KeyCode::Down, ctrl, press: true }) == (
            LobbyView { selected: if l.selected == 3 {
                0usize
            } else {
                (l.selected + 1) as usize
            }, ..l },
            OutcomeView::Nothing,
        ),
        l.selected == 0 ==> key_effect(
            key_effect(l, Key { code: KeyCode::Char('k'), ctrl, press: true }).0,
            Key { code: KeyCode::Enter, ctrl: false, press: true },
        ).1 == OutcomeView::Chose(ChoiceView::Quit),
{
}

/// Enter or space in the menu chooses the selected item: Host, Local or
/// Quit come back as the choice, and Join opens the code box instead. `q`
/// and Esc quit from the menu, and a digit starts a code with itself.
pub proof fn lemma_menu_choices(l: LobbyView, c: char)
    requires
        !l.joining,
        l.selected < 4,
    ensures
        ({
            let k = |code: KeyCode| key_effect(l, Key { code, ctrl: false, press: true });
            &&& k(KeyCode::Enter) == k(KeyCode::Char(' '))
            &&& l.selected == 0 ==> k(KeyCode::Enter) == (l, OutcomeView::Chose(ChoiceView::Host))
            &&& l.selected == 1 ==> k(KeyCode::Enter) == (
                LobbyView { joining: true, ..l },
                OutcomeView::Nothing,
            )
            &&& l.selected == 2 ==> k(KeyCode::Enter) == (l, OutcomeView::Chose(ChoiceView::Local))
            &&& l.selected == 3 ==> k(KeyCode::Enter) == (l, OutcomeView::Chose(ChoiceView::Quit))
            &&& k(KeyCode::Char('q')) == (l, OutcomeView::Chose(ChoiceView::Quit))
            &&& k(KeyCode::Esc) == (l, OutcomeView::Chose(ChoiceView::Quit))
            &&& '0' <= c <= '9' ==> k(KeyCode::Char(c)) == (
                LobbyView { selected: 1, joining: true, input: l.input.push(c) },
                OutcomeView::Nothing,
            )
        }),
{
}

/// The lobby as the contracts see it.
pub struct LobbyView {
    pub selected: usize,
    pub joining: bool,
    pub input: Seq<char>,
}

impl View for Lobby {
    type V = LobbyView;

    open spec fn view(&self) -> LobbyView {
        LobbyView { selected: self.selected, joining: self.joining, input: self.input@ }
    }
}

/// Choosing the `i`th item of the menu.
pub open spec fn activate_effect(l: LobbyView, i: usize) -> (LobbyView, OutcomeView) {
    if i >= 4 {
        (l, OutcomeView::Nothing)
    } else {
        match items()[i as int] {
            Item::Host => (l, OutcomeView::Chose(ChoiceView::Host)),
            Item::Join => (LobbyView { selected: join_index(), joining: true, ..l }, OutcomeView::Nothing),
            Item::Local => (l, OutcomeView::Chose(ChoiceView::Local)),
            Item::Quit => (l, OutcomeView::Chose(ChoiceView::Quit)),
        }
    }
}

/// A key on the menu.
pub open spec fn menu_effect(l: LobbyView, key: Key) -> (LobbyView, OutcomeView) {
    match key.code {
        KeyCode::Up => (LobbyView { selected: ((l.selected + 3) % 4) as usize, ..l }, OutcomeView::Nothing),
        KeyCode::Down | KeyCode::Tab => (
            LobbyView { selected: ((l.selected + 1) % 4) as usize, ..l },
            OutcomeView::Nothing,
        ),
        KeyCode::Enter => activate_effect(l, l.selected),
        KeyCode::Esc => (l, OutcomeView::Chose(ChoiceView::Quit)),
        KeyCode::Char(c) => if c == 'k' {
            (LobbyView { selected: ((l.selected + 3) % 4) as usize, ..l }, OutcomeView::Nothing)
        } else if c == 'j' {
            (LobbyView { selected: ((l.selected + 1) % 4) as usize, ..l }, OutcomeView::Nothing)
        } else if c == ' ' {
            activate_effect(l, l.selected)
        } else if c == 'q' {
            (l, OutcomeView::Chose(ChoiceView::Quit))
        } else if is_ascii_digit(c) {
            // Every code starts with its number, so typing one is as good
            // as choosing to join.
            (
                LobbyView { selected: join_index(), joining: true, input: push_of(l.input, c) },
                OutcomeView::Nothing,
            )
        } else {
            (l, OutcomeView::Nothing)
        },
        _ => (l, OutcomeView::Nothing),
    }
}

/// A key while typing a code.
pub open spec fn entry_effect(l: LobbyView, key: Key) -> (LobbyView, OutcomeView) {
    match key.code {
        KeyCode::Esc => (LobbyView { joining: false, ..l }, OutcomeView::Nothing),
        KeyCode::Enter => if code_ready(l.input) {
            (l, OutcomeView::Chose(ChoiceView::Join(l.input)))
        } else {
            (l, OutcomeView::Nothing)
        },
        // A finished number moves on to the first word; a word is finished
        // from the code words, which whoever holds them does.
        KeyCode::Tab | KeyCode::Right => if parts_of(l.input).len() == 1 {
            if is_number_part(l.input) {
                (LobbyView { input: push_of(l.input, '-'), ..l }, OutcomeView::Nothing)
            } else {
                (l, OutcomeView::Nothing)
            }
        } else {
            (l, OutcomeView::Complete)
        },
        KeyCode::Char(c) => if key.ctrl && c == 'u' {
            (LobbyView { input: Seq::empty(), ..l }, OutcomeView::Nothing)
        } else if key.ctrl && c == 'w' {
            (LobbyView { input: drop_part(l.input), ..l }, OutcomeView::Nothing)
        } else {
            (LobbyView { input: push_of(l.input, c), ..l }, OutcomeView::Nothing)
        },
        KeyCode::Backspace => (
            LobbyView {
                input: if l.input.len() > 0 {
                    l.input.drop_last()
                } else {
                    l.input
                },
                ..l
            },
            OutcomeView::Nothing,
        ),
        _ => (l, OutcomeView::Nothing),
    }
}

/// What a key does to the lobby, and what it comes to.
pub open spec fn key_effect(l: LobbyView, key: Key) -> (LobbyView, OutcomeView) {
    if !key.press {
        (l, OutcomeView::Nothing)
    } else if key.ctrl && key.code == KeyCode::Char('c') {
        (l, OutcomeView::Chose(ChoiceView::Quit))
    } else if l.joining {
        entry_effect(l, key)
    } else {
        menu_effect(l, key)
    }
}

impl Lobby {
    pub open spec fn well_formed(&self) -> bool {
        self.selected < 4
    }

    pub fn new() -> (l: Lobby)
        ensures
            l.selected == 0,
            !l.joining,
            l.input@ == Seq::<char>::empty(),
            l.well_formed(),
    {
        Lobby { selected: 0, joining: false, input: String::new() }
    }

    pub fn on_key(&mut self, key: Key) -> (r: Outcome)
        requires
            old(self).well_formed(),
        ensures
            final(self).well_formed(),
            (final(self)@, outcome_view(r)) == key_effect(old(self)@, key),
            is_code_text(old(self).input@) ==> is_code_text(final(self).input@),
    {
        proof {
            if is_code_text(self.input@) {
                lemma_keys_keep_code_text(self@, key);
            }
        }
        if !key.press {
            return Outcome::Nothing;
        }
        if key.ctrl && key.code == KeyCode::Char('c') {
            return Outcome::Chose(Choice::Quit);
        }
        if self.joining {
            return self.entry_key(key);
        }
        match key.code {
            KeyCode::Up | KeyCode::Char('k') => {
                self.selected = (self.selected + 3) % 4;
            },
            KeyCode::Down | KeyCode::Char('j') | KeyCode::Tab => {
                self.selected = (self.selected + 1) % 4;
            },
            KeyCode::Enter | KeyCode::Char(' ') => {
                let i = self.selected;
                return match self.activate(i) {
                    Some(c) => Outcome::Chose(c),
                    None => Outcome::Nothing,
                };
            },
            KeyCode::Char('q') | KeyCode::Esc => return Outcome::Chose(Choice::Quit),
            KeyCode::Char(c) => {
                if '0' <= c && c <= '9' {
                    self.start_joining();
                    self.push(c);
                }
            },
            _ => {},
        }
        Outcome::Nothing
    }

    fn entry_key(&mut self, key: Key) -> (r: Outcome)
        requires
            old(self).well_formed(),
            old(self).joining,
        ensures
            final(self).well_formed(),
            (final(self)@, outcome_view(r)) == entry_effect(old(self)@, key),
    {
        match key.code {
            KeyCode::Esc => {
                self.joining = false;
            },
            KeyCode::Enter => {
                if is_code_ready(self.input.as_str()) {
                    return Outcome::Chose(Choice::Join(self.input.clone()));
                }
            },
            KeyCode::Tab | KeyCode::Right => {
                let cs = chars_of(self.input.as_str());
                let ps = parts(&cs);
                if ps.len() != 1 {
                    return Outcome::Complete;
                }
                assert(ps@[0]@ == parts_of(self.input@)[0]);
                proof {
                    lemma_single_part(self.input@);
                }
                if number_part(&ps[0]) {
                    self.push('-');
                }
            },
            KeyCode::Char(c) => {
                if key.ctrl && c == 'u' {
                    self.input = String::new();
                } else if key.ctrl && c == 'w' {
                    let cs = chars_of(self.input.as_str());
                    let kept = keep_before_last_part(&cs);
                    self.input = string_of(&kept);
                } else {
                    self.push(c);
                }
            },
            KeyCode::Backspace => {
                let cs = chars_of(self.input.as_str());
                if cs.len() > 0 {
                    let mut shorter: Vec<char> = Vec::new();
                    let mut i: usize = 0;
                    while i + 1 < cs.len()
                        invariant
                            i + 1 <= cs.len(),
                            shorter@ == cs@.take(i as int),
                        decreases cs.len() - i,
                    {
                        shorter.push(cs[i]);
                        i += 1;
                        assert(cs@.take(i as int) =~= cs@.take(i - 1).push(cs@[i - 1]));
                    }
                    assert(shorter@ =~= cs@.drop_last());
                    self.input = string_of(&shorter);
                }
            },
            _ => {},
        }
        Outcome::Nothing
    }

    /// How the code typed so far is looking, for the line under it.
    pub fn entry(&self) -> (r: Entry)
        ensures
            entry_view(r) == entry_of(self.input@),
    {
        let cs = chars_of(self.input.as_str());
        if cs.len() == 0 {
            return Entry::Empty;
        }
        if is_code_ready(self.input.as_str()) {
            return Entry::Ready(self.input.clone());
        }
        let ps = parts(&cs);
        if ps.len() > 4 {
            return Entry::Bad(String::from_str("a code is a number and three words"));
        }
        assert(ps@[0]@ == parts_of(self.input@)[0]);
        if ps.len() >= 2 && !number_part(&ps[0]) {
            let first = string_of(&ps[0]);
            let a = joined("\"", first.as_str());
            return Entry::Bad(joined(a.as_str(), "\" should be a number from 0 to 99"));
        }
        Entry::Typing
    }

    /// A paste goes into the code box, whether it is the code or the whole
    /// command it came in.
    pub fn on_paste(&mut self, text: &str)
        requires
            old(self).well_formed(),
        ensures
            final(self).well_formed(),
            final(self).joining,
            final(self).selected == join_index(),
            final(self).input@ == pasted(text@),
            is_code_text(final(self).input@),
    {
        proof {
            lemma_paste_is_code_text(text@);
        }
        self.start_joining();
        self.input = String::new();
        let cs = chars_of(text);
        let from = after_last_join(&cs);
        let mut i: usize = from;
        assert(paste_source(text@) =~= cs@.skip(from as int));
        while i < cs.len()
            invariant
                from <= i <= cs.len(),
                cs@ == text@,
                paste_source(text@) == cs@.skip(from as int),
                self.input@ == push_all(Seq::empty(), cs@.subrange(from as int, i as int)),
                self.joining,
                self.selected == join_index(),
            decreases cs.len() - i,
        {
            assert(cs@.subrange(from as int, i + 1).drop_last() =~= cs@.subrange(from as int, i as int));
            self.push(cs[i]);
            i += 1;
        }
        assert(cs@.subrange(from as int, cs.len() as int) =~= cs@.skip(from as int));
        let typed = chars_of(self.input.as_str());
        let trimmed = without_trailing_dashes(&typed);
        self.input = string_of(&trimmed);
    }

    fn start_joining(&mut self)
        ensures
            final(self).joining,
            final(self).selected == join_index(),
            final(self).input == old(self).input,
    {
        self.joining = true;
        self.selected = 1;
    }

    /// Typed text goes in the way it will be read back: lower case, with any
    /// separator turned into a single dash.
    fn push(&mut self, c: char)
        ensures
            final(self).input@ == push_of(old(self).input@, c),
            final(self).joining == old(self).joining,
            final(self).selected == old(self).selected,
    {
        if ('0' <= c && c <= '9') || ('a' <= c && c <= 'z') || ('A' <= c && c <= 'Z') {
            let l = crate::text::lower_char(c);
            crate::text::push_char(&mut self.input, l);
        } else {
            let sep = c == '-' || c == '_' || c == '.' || is_whitespace(c);
            if sep {
                let cs = chars_of(self.input.as_str());
                if cs.len() > 0 && cs[cs.len() - 1] != '-' {
                    crate::text::push_char(&mut self.input, '-');
                }
            }
        }
    }

    fn activate(&mut self, i: usize) -> (r: Option<Choice>)
        ensures
            i < 4 && items()[i as int] == Item::Join ==> r is None && final(self).joining
                && final(self).selected == join_index(),
            i < 4 && items()[i as int] == Item::Host ==> r == Some(Choice::Host) && *final(self)
                == *old(self),
            i < 4 && items()[i as int] == Item::Local ==> r == Some(Choice::Local) && *final(self)
                == *old(self),
            i < 4 && items()[i as int] == Item::Quit ==> r == Some(Choice::Quit) && *final(self)
                == *old(self),
            i >= 4 ==> r is None && *final(self) == *old(self),
            final(self).input == old(self).input,
    {
        if i >= 4 {
            return None;
        }
        match ITEMS[i] {
            Item::Host => Some(Choice::Host),
            Item::Join => {
                self.start_joining();
                None
            },
            Item::Local => Some(Choice::Local),
            Item::Quit => Some(Choice::Quit),
        }
    }
}

proof fn lemma_prefix_code_text(s: Seq<char>, k: int)
    requires
        is_code_text(s),
        0 <= k <= s.len(),
    ensures
        is_code_text(s.take(k)),
{
    let t = s.take(k);
    assert forall|i: int| 0 <= i < t.len() - 1 implies !(#[trigger] t[i] == '-' && t[i + 1] == '-') by {
        assert(t[i] == s[i] && t[i + 1] == s[i + 1]);
    }
    assert forall|i: int|
        0 <= i < t.len() implies ('0' <= #[trigger] t[i] <= '9') || ('a' <= t[i] <= 'z') || t[i]
        == '-' by {
        assert(t[i] == s[i]);
    }
}

proof fn lemma_push_code_text(s: Seq<char>, c: char)
    requires
        is_code_text(s),
    ensures
        is_code_text(push_of(s, c)),
{
    let t = push_of(s, c);
    if t != s {
        assert forall|i: int| 0 <= i < t.len() - 1 implies !(#[trigger] t[i] == '-' && t[i + 1] == '-') by {
            if i < s.len() - 1 {
                assert(t[i] == s[i] && t[i + 1] == s[i + 1]);
            }
        }
        assert forall|i: int|
            0 <= i < t.len() implies ('0' <= #[trigger] t[i] <= '9') || ('a' <= t[i] <= 'z') || t[i]
            == '-' by {
            if i < s.len() {
                assert(t[i] == s[i]);
            }
        }
    }
}

proof fn lemma_push_all_code_text(s: Seq<char>, cs: Seq<char>)
    requires
        is_code_text(s),
    ensures
        is_code_text(push_all(s, cs)),
    decreases cs.len(),
{
    if cs.len() > 0 {
        lemma_push_all_code_text(s, cs.drop_last());
        lemma_push_code_text(push_all(s, cs.drop_last()), cs.last());
    }
}

proof fn lemma_part_start_bound(s: Seq<char>)
    ensures
        part_start(s) <= s.len(),
    decreases s.len(),
{
    if s.len() > 0 && s.last() != '-' {
        lemma_part_start_bound(s.drop_last());
    }
}

proof fn lemma_trim_dashes_end(s: Seq<char>)
    ensures
        trim_dashes(s).len() > 0 ==> trim_dashes(s).last() != '-',
    decreases s.len(),
{
    if s.len() > 0 && s.last() == '-' {
        lemma_trim_dashes_end(s.drop_last());
    }
}

/// Whatever keys are pressed, the code box keeps its shape: lower-case
/// letters, digits and single dashes, never a dash first.
pub proof fn lemma_keys_keep_code_text(l: LobbyView, key: Key)
    requires
        is_code_text(l.input),
    ensures
        is_code_text(key_effect(l, key).0.input),
{
    lemma_trim_dashes_prefix(l.input);
    lemma_part_start_bound(trim_dashes(l.input));
    lemma_prefix_code_text(l.input, part_start(trim_dashes(l.input)) as int);
    lemma_push_code_text(l.input, ' ');
    if l.input.len() > 0 {
        lemma_prefix_code_text(l.input, l.input.len() - 1);
        assert(l.input.take(l.input.len() - 1) =~= l.input.drop_last());
    }
    match key.code {
        KeyCode::Char(c) => {
            lemma_push_code_text(l.input, c);
        },
        _ => {},
    }
}

/// A paste leaves the code box in shape, with no dash left dangling at its
/// end.
pub proof fn lemma_paste_is_code_text(text: Seq<char>)
    ensures
        is_code_text(pasted(text)),
        pasted(text).len() > 0 ==> pasted(text).last() != '-',
{
    lemma_push_all_code_text(Seq::empty(), paste_source(text));
    let typed = push_all(Seq::empty(), paste_source(text));
    lemma_trim_dashes_prefix(typed);
    lemma_prefix_code_text(typed, trim_dashes(typed).len() as int);
    lemma_trim_dashes_end(typed);
}

/// Where the text worth keeping starts: just past the last "join", or 0.
fn after_last_join(cs: &Vec<char>) -> (r: usize)
    ensures
        r <= cs.len(),
        paste_source(cs@) == cs@.skip(r as int),
{
    let mut n: usize = cs.len();
    while n > 0
        invariant
            n <= cs.len(),
            last_join_before(cs@, cs.len() as int) == last_join_before(cs@, n as int),
        decreases n,
    {
        let i = n - 1;
        if cs.len() - i >= 4 && cs[i] == 'j' && cs[i + 1] == 'o' && cs[i + 2] == 'i' && cs[i + 3] == 'n' {
            assert(cs@.subrange(i as int, i + 4) =~= word_join());
            assert(join_at(cs@, i as int));
            return i + 4;
        }
        assert(!join_at(cs@, i as int)) by {
            if join_at(cs@, i as int) {
                assert(cs@.subrange(i as int, i + 4)[0] == cs@[i as int]);
                assert(cs@.subrange(i as int, i + 4)[1] == cs@[i + 1]);
                assert(cs@.subrange(i as int, i + 4)[2] == cs@[i + 2]);
                assert(cs@.subrange(i as int, i + 4)[3] == cs@[i + 3]);
            }
        }
        n = i;
    }
    assert(cs@.skip(0) =~= cs@);
    0
}

/// `s` with any dashes at its end taken off.
fn without_trailing_dashes(cs: &Vec<char>) -> (r: Vec<char>)
    ensures
        r@ == trim_dashes(cs@),
{
    let mut n: usize = cs.len();
    assert(cs@.take(cs.len() as int) =~= cs@);
    while n > 0 && cs[n - 1] == '-'
        invariant
            n <= cs.len(),
            trim_dashes(cs@) == trim_dashes(cs@.take(n as int)),
        decreases n,
    {
        assert(cs@.take(n as int).drop_last() =~= cs@.take(n - 1));
        n -= 1;
    }
    let mut out: Vec<char> = Vec::new();
    let mut i: usize = 0;
    while i < n
        invariant
            i <= n <= cs.len(),
            out@ == cs@.take(i as int),
        decreases n - i,
    {
        out.push(cs[i]);
        i += 1;
        assert(cs@.take(i as int) =~= cs@.take(i - 1).push(cs@[i - 1]));
    }
    assert(cs@.take(cs.len() as int) =~= cs@);
    out
}

/// Control-W on the code box: everything before the last part.
fn keep_before_last_part(cs: &Vec<char>) -> (r: Vec<char>)
    ensures
        r@ == drop_part(cs@),
{
    let trimmed = without_trailing_dashes(cs);
    let mut k: usize = trimmed.len();
    assert(trimmed@.take(trimmed.len() as int) =~= trimmed@);
    while k > 0 && trimmed[k - 1] != '-'
        invariant
            k <= trimmed.len(),
            part_start(trimmed@) == part_start(trimmed@.take(k as int)),
        decreases k,
    {
        assert(trimmed@.take(k as int).drop_last() =~= trimmed@.take(k - 1));
        k -= 1;
    }
    assert(trimmed@.take(trimmed.len() as int) =~= trimmed@);
    assert(part_start(trimmed@) == k);
    proof {
        lemma_trim_dashes_prefix(cs@);
    }
    let mut out: Vec<char> = Vec::new();
    let mut i: usize = 0;
    while i < k
        invariant
            i <= k <= trimmed.len() <= cs.len(),
            out@ == cs@.take(i as int),
        decreases k - i,
    {
        out.push(cs[i]);
        i += 1;
        assert(cs@.take(i as int) =~= cs@.take(i - 1).push(cs@[i - 1]));
    }
    out
}

proof fn lemma_trim_dashes_prefix(s: Seq<char>)
    ensures
        trim_dashes(s).len() <= s.len(),
        trim_dashes(s) == s.take(trim_dashes(s).len() as int),
    decreases s.len(),
{
    if s.len() > 0 && s.last() == '-' {
        lemma_trim_dashes_prefix(s.drop_last());
        assert(s.drop_last().take(trim_dashes(s).len() as int) =~= s.take(trim_dashes(s).len() as int));
    } else {
        assert(s.take(s.len() as int) =~= s);
    }
}

} // verus!
