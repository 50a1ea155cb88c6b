//! A game of chess in progress, apart from the position itself: which way
//! up the board is, how pieces are drawn, the questions being asked of the
//! player, and how a draw is being agreed. What a key or a message from the
//! peer does to all that is decided here; what it does to the position is
//! handed back as an [`Action`] for the rules to carry out.

use vstd::prelude::*;

use super::ui::{next_style, promo_at_of, square_at_of, Geometry, PieceStyle, Square};
use crate::games::{progress_conn_of, progress_note_of, Conn, Kind, Leave, Table};
use crate::keys::{Key, KeyCode};
use crate::net::NetEvent;
use crate::text::joined;

verus! {

broadcast use vstd::string::group_string_axioms;

/// A side of the board.
#[derive(Clone, Copy, Debug, PartialEq, Eq, Structural)]
pub enum Side {
    White,
    Black,
}

/// How a draw is being agreed. Either side offers with `d`; the other
/// accepts with `d`, and playing on declines.
#[derive(Clone, Copy, Debug, PartialEq, Eq, Structural)]
pub struct Draw {
    /// The peer has offered a draw and we have not answered.
    pub offered: bool,
    /// We have offered a draw and are waiting for an answer.
    pub sent: bool,
    pub agreed: bool,
}

pub open spec fn no_draw() -> Draw {
    Draw { offered: false, sent: false, agreed: false }
}

/// Our `d`: accepts an offer, or makes one to a peer that has none from us
/// yet. Also whether a draw message goes to the peer.
pub open spec fn draw_key_of(d: Draw, networked: bool) -> (Draw, bool) {
    if d.offered {
        (Draw { offered: false, agreed: true, ..d }, true)
    } else if networked && !d.sent {
        (Draw { sent: true, ..d }, true)
    } else {
        (d, false)
    }
}

/// The peer's draw message answers our own offer, or starts a new one.
pub open spec fn peer_draw_of(d: Draw) -> Draw {
    if d.sent {
        Draw { sent: false, agreed: true, ..d }
    } else {
        Draw { offered: true, ..d }
    }
}

/// Playing on silently declines any outstanding offer.
pub open spec fn peer_move_of(d: Draw) -> Draw {
    Draw { offered: false, sent: false, ..d }
}

/// What can happen to a draw.
pub enum DrawEvent {
    /// We pressed `d`, with or without a peer to send it to.
    Key(bool),
    /// The peer said `draw`.
    PeerDraw,
    /// The peer moved.
    PeerMove,
}

pub open spec fn draw_step(d: Draw, e: DrawEvent) -> Draw {
    match e {
        DrawEvent::Key(networked) => draw_key_of(d, networked).0,
        DrawEvent::PeerDraw => peer_draw_of(d),
        DrawEvent::PeerMove => peer_move_of(d),
    }
}

/// Where a game's draw stands after `events`, from none offered.
pub open spec fn draw_after(events: Seq<DrawEvent>) -> Draw
    decreases events.len(),
{
    if events.len() == 0 {
        no_draw()
    } else {
        draw_step(draw_after(events.drop_last()), events.last())
    }
}

pub open spec fn pressed_draw(events: Seq<DrawEvent>) -> bool {
    exists|i: int| 0 <= i < events.len() && #[trigger] events[i] is Key
}

pub open spec fn peer_said_draw(events: Seq<DrawEvent>) -> bool {
    exists|i: int| 0 <= i < events.len() && #[trigger] events[i] is PeerDraw
}

/// A draw is agreed only once both sides have said so: we pressed `d` and
/// the peer sent `draw`. Nobody agrees a draw alone, and an offer of ours
/// is outstanding only after we pressed `d`, one of theirs only after they
/// sent it.
pub proof fn lemma_draw_takes_both_sides(events: Seq<DrawEvent>)
    ensures
        draw_after(events).agreed ==> pressed_draw(events) && peer_said_draw(events),
        draw_after(events).sent ==> pressed_draw(events),
        draw_after(events).offered ==> peer_said_draw(events),
        !(draw_after(events).offered && draw_after(events).sent),
    decreases events.len(),
{
    if events.len() > 0 {
        let init = events.drop_last();
        lemma_draw_takes_both_sides(init);
        if pressed_draw(init) {
            let i = choose|i: int| 0 <= i < init.len() && #[trigger] init[i] is Key;
            assert(events[i] is Key);
        }
        if peer_said_draw(init) {
            let i = choose|i: int| 0 <= i < init.len() && #[trigger] init[i] is PeerDraw;
            assert(events[i] is PeerDraw);
        }
        let last = events.len() - 1;
        match events.last() {
            DrawEvent::Key(_) => {
                assert(events[last] is Key);
            },
            DrawEvent::PeerDraw => {
                assert(events[last] is PeerDraw);
            },
            DrawEvent::PeerMove => {},
        }
    }
}

impl Draw {
    pub fn new() -> (d: Draw)
        ensures
            d == no_draw(),
    {
        Draw { offered: false, sent: false, agreed: false }
    }

    /// Our `d`. Returns whether to tell the peer `draw`.
    pub fn key(&mut self, networked: bool) -> (send: bool)
        ensures
            (*final(self), send) == draw_key_of(*old(self), networked),
    {
        if self.offered {
            self.offered = false;
            self.agreed = true;
            true
        } else if networked && !self.sent {
            self.sent = true;
            true
        } else {
            false
        }
    }

    /// The peer said `draw`.
    pub fn peer_draw(&mut self)
        ensures
            *final(self) == peer_draw_of(*old(self)),
    {
        if self.sent {
            self.sent = false;
            self.agreed = true;
        } else {
            self.offered = true;
        }
    }

    /// The peer's move was played.
    pub fn peer_move(&mut self)
        ensures
            *final(self) == peer_move_of(*old(self)),
    {
        self.offered = false;
        self.sent = false;
    }
}

/// The game's own state, apart from the position and the clock.
pub struct Controls {
    /// The board is drawn from black's side.
    pub flipped: bool,
    pub piece_style: PieceStyle,
    /// Whether the terminal is reporting mouse events to us.
    pub mouse: bool,
    /// Done with this game: back to the lobby.
    pub quit: bool,
    /// Done with the program altogether.
    pub exit: bool,
    /// Asked to resign, and not yet sure.
    pub confirm_resign: bool,
    /// Asked to leave a game still in play, and not yet sure.
    pub confirm_quit: bool,
    pub draw: Draw,
    /// Something to tell the player until the next key.
    pub note: Option<String>,
    /// The verdict has been waved away, to look at the board.
    pub banner_hidden: bool,
    /// The square a press picked a piece up from, for drag-and-drop.
    pub drag_from: Option<Square>,
}

/// The controls as the contracts see them.
pub struct ControlsView {
    pub flipped: bool,
    pub piece_style: PieceStyle,
    pub mouse: bool,
    pub quit: bool,
    pub exit: bool,
    pub confirm_resign: bool,
    pub confirm_quit: bool,
    pub draw: Draw,
    pub note: Option<Seq<char>>,
    pub banner_hidden: bool,
    pub drag_from: Option<Square>,
}

impl View for Controls {
    type V = ControlsView;

    open spec fn view(&self) -> ControlsView {
        ControlsView {
            flipped: self.flipped,
            piece_style: self.piece_style,
            mouse: self.mouse,
            quit: self.quit,
            exit: self.exit,
            confirm_resign: self.confirm_resign,
            confirm_quit: self.confirm_quit,
            draw: self.draw,
            note: match self.note {
                Some(n) => Some(n@),
                None => None,
            },
            banner_hidden: self.banner_hidden,
            drag_from: self.drag_from,
        }
    }
}

/// Where the player has asked to go, if anywhere.
pub open spec fn leaving_of(c: ControlsView) -> Option<Leave> {
    if c.exit {
        Some(Leave::Exit)
    } else if c.quit {
        Some(Leave::Lobby)
    } else {
        None
    }
}

/// What the player is told when the peer moves on our turn.
pub open spec fn out_of_turn_note() -> Seq<char> {
    "the peer tried to move out of turn"@
}

/// What a message from the peer asks of the position.
#[derive(Clone, Debug, PartialEq, Eq)]
pub enum PeerAction {
    Nothing,
    /// Play the peer's move, given in UCI.
    Play(String),
    /// The peer resigned.
    Resigned,
}

/// What pressing on the square under the cursor does.
#[derive(Clone, Copy, Debug, PartialEq, Eq, Structural)]
pub enum Activation {
    Nothing,
    /// Pick up the piece under the cursor.
    Select,
    /// Put the picked-up piece back down.
    Deselect,
    /// Play the one move from the picked-up piece to the cursor.
    Play,
    /// Several moves go there, one per promotion: ask which.
    Promote,
}

/// What pressing on the cursor's square does, given the piece picked up if
/// any, whether one of the mover's own pieces stands on the cursor, and how
/// many legal moves take the picked-up piece there. A press on another own
/// piece picks that one up instead; anywhere else with no move there, the
/// piece is put back down.
pub open spec fn activation_of(selected: Option<Square>, cursor: Square, own_at_cursor: bool, moves: usize) -> Activation {
    match selected {
        None => if own_at_cursor {
            Activation::Select
        } else {
            Activation::Nothing
        },
        Some(from) => if from == cursor {
            Activation::Deselect
        } else if moves == 0 {
            if own_at_cursor {
                Activation::Select
            } else {
                Activation::Deselect
            }
        } else if moves == 1 {
            Activation::Play
        } else {
            Activation::Promote
        },
    }
}

pub fn activation(selected: Option<Square>, cursor: Square, own_at_cursor: bool, moves: usize) -> (r: Activation)
    ensures
        r == activation_of(selected, cursor, own_at_cursor, moves),
{
    match selected {
        None => if own_at_cursor {
            Activation::Select
        } else {
            Activation::Nothing
        },
        Some(from) => if from == cursor {
            Activation::Deselect
        } else if moves == 0 {
            if own_at_cursor {
                Activation::Select
            } else {
                Activation::Deselect
            }
        } else if moves == 1 {
            Activation::Play
        } else {
            Activation::Promote
        },
    }
}

/// What the position says, for deciding what a key means.
#[derive(Clone, Copy, Debug, PartialEq, Eq, Structural)]
pub struct Facts {
    /// A pawn is waiting to be promoted.
    pub promoting: bool,
    /// The game was lost, by mate or resignation.
    pub ending: bool,
    /// Its finale has begun.
    pub ended: bool,
    /// Something is moving on the board.
    pub animating: bool,
    /// A piece is picked up.
    pub selected: bool,
    /// The game is over, however it ended.
    pub over: bool,
    /// There is a peer to send to.
    pub networked: bool,
    /// It is our move; always, sharing a keyboard.
    pub my_turn: bool,
}

/// What a key asks of the position, and of the peer.
#[derive(Clone, Copy, Debug, PartialEq, Eq, Structural)]
pub enum Action {
    Nothing,
    /// A key while a pawn waits to be promoted: see [`promotion_key`].
    Promotion(KeyCode),
    /// Jump to the end of the finale.
    SkipFinale,
    /// We resign: mark it, start the finale and tell the peer.
    Resign,
    /// Put the picked-up piece back down.
    Deselect,
    /// Put the share code on the clipboard, if it is still of use.
    CopyShare,
    /// Tell the peer `draw`.
    SendDraw,
    /// Move the cursor by files and ranks.
    Nudge(i8, i8),
    /// Pick up or put down the piece under the cursor.
    Activate,
}

/// Back to the lobby, asking first if there is still a game to lose.
pub open spec fn leave_of(c: ControlsView, f: Facts) -> ControlsView {
    if f.over || c.draw.agreed {
        ControlsView { quit: true, ..c }
    } else {
        ControlsView { confirm_quit: true, ..c }
    }
}

/// Cursor moves are in screen terms; the board may be upside down.
pub open spec fn nudge_of(c: ControlsView, dfile: i8, drank: i8) -> Action {
    if c.flipped {
        Action::Nudge((-dfile) as i8, (-drank) as i8)
    } else {
        Action::Nudge(dfile, drank)
    }
}

/// A key on the board, with no question pending.
pub open spec fn board_key_of(c: ControlsView, f: Facts, key: Key) -> (ControlsView, Action) {
    match key.code {
        KeyCode::Char(ch) => if ch == 'c' && key.ctrl {
            (ControlsView { exit: true, ..c }, Action::Nothing)
        } else if ch == 'q' {
            (leave_of(c, f), Action::Nothing)
        } else if ch == 'f' {
            (ControlsView { flipped: !c.flipped, ..c }, Action::Nothing)
        } else if ch == 'p' {
            (ControlsView { piece_style: next_style(c.piece_style), ..c }, Action::Nothing)
        } else if ch == 'm' {
            (ControlsView { mouse: !c.mouse, ..c }, Action::Nothing)
        } else if ch == 'c' {
            (c, Action::CopyShare)
        } else if ch == 'r' && !f.over {
            (ControlsView { confirm_resign: true, ..c }, Action::Nothing)
        } else if ch == 'd' && !f.over {
            let (d, send) = draw_key_of(c.draw, f.networked);
            (ControlsView { draw: d, ..c }, if send {
                Action::SendDraw
            } else {
                Action::Nothing
            })
        } else if ch == 'h' {
            (c, nudge_of(c, -1i8, 0i8))
        } else if ch == 'l' {
            (c, nudge_of(c, 1, 0))
        } else if ch == 'k' {
            (c, nudge_of(c, 0, 1))
        } else if ch == 'j' {
            (c, nudge_of(c, 0i8, -1i8))
        } else if ch == ' ' {
            (c, if f.my_turn {
                Action::Activate
            } else {
                Action::Nothing
            })
        } else {
            (c, Action::Nothing)
        },
        KeyCode::Esc => if f.selected {
            (c, Action::Deselect)
        } else {
            (leave_of(c, f), Action::Nothing)
        },
        KeyCode::Left => (c, nudge_of(c, -1i8, 0i8)),
        KeyCode::Right => (c, nudge_of(c, 1, 0)),
        KeyCode::Up => (c, nudge_of(c, 0, 1)),
        KeyCode::Down => (c, nudge_of(c, 0i8, -1i8)),
        KeyCode::Enter => (c, if f.my_turn {
            Action::Activate
        } else {
            Action::Nothing
        }),
        _ => (c, Action::Nothing),
    }
}

/// Whether a key asks to get out: `q`, or Control-C.
pub open spec fn quitting(key: Key) -> bool {
    key.code == KeyCode::Char('q') || (key.ctrl && key.code == KeyCode::Char('c'))
}

/// What a key does to the game's state, and what it asks of the position.
/// A promotion waiting takes every key. During the finale a key skips to its
/// end, and once the verdict is up a key clears it away to look at the
/// board, unless it asks to get out. Then a question being asked takes the
/// key as its answer; and otherwise it is a key on the board.
pub open spec fn key_effect(c: ControlsView, f: Facts, key: Key) -> (ControlsView, Action) {
    if !key.press {
        (c, Action::Nothing)
    } else {
        let c = ControlsView { note: None, ..c };
        if f.promoting {
            (c, Action::Promotion(key.code))
        } else if f.ending && f.ended && !c.banner_hidden && !quitting(key) {
            if f.animating {
                (c, Action::SkipFinale)
            } else {
                (ControlsView { banner_hidden: true, ..c }, Action::Nothing)
            }
        } else if c.confirm_quit {
            // q again confirms, so a double tap still gets out quickly.
            let c = ControlsView { confirm_quit: false, ..c };
            if key.code == KeyCode::Char('y') || key.code == KeyCode::Char('q') || key.code
                == KeyCode::Enter {
                (ControlsView { quit: true, ..c }, Action::Nothing)
            } else if key.code == KeyCode::Char('c') && key.ctrl {
                (ControlsView { exit: true, ..c }, Action::Nothing)
            } else {
                (c, Action::Nothing)
            }
        } else if c.confirm_resign {
            let c = ControlsView { confirm_resign: false, ..c };
            if key.code == KeyCode::Char('y') {
                (c, Action::Resign)
            } else {
                (c, Action::Nothing)
            }
        } else {
            board_key_of(c, f, key)
        }
    }
}

/// The vi keys are the arrow keys: whatever the game's state, `h`, `l`,
/// `k` and `j` do what Left, Right, Up and Down do, held with Control or
/// not. (Only a waiting promotion hands the key itself on, and there too
/// they mean the same: see [`lemma_promotion_keys`].)
pub proof fn lemma_vi_keys_are_arrows(c: ControlsView, f: Facts, ctrl: bool)
    requires
        !f.promoting,
    ensures
        key_effect(c, f, Key { code: KeyCode::Char('h'), ctrl, press: true }) == key_effect(
            c,
            f,
            Key { code: KeyCode::Left, ctrl, press: true },
        ),
        key_effect(c, f, Key { code: KeyCode::Char('l'), ctrl, press: true }) == key_effect(
            c,
            f,
            Key { code: KeyCode::Right, ctrl, press: true },
        ),
        key_effect(c, f, Key { code: KeyCode::Char('k'), ctrl, press: true }) == key_effect(
            c,
            f,
            Key { code: KeyCode::Up, ctrl, press: true },
        ),
        key_effect(c, f, Key { code: KeyCode::Char('j'), ctrl, press: true }) == key_effect(
            c,
            f,
            Key { code: KeyCode::Down, ctrl, press: true },
        ),
{
}

/// On the board, with nothing else taking the key, the arrows move the
/// cursor one square the way they point on the screen: right is the next
/// file and up the next rank on a board the right way up, and the other
/// way round on a flipped one. Nothing else about the game changes but the
/// note, which a key clears.
pub proof fn lemma_arrows_move_the_cursor(c: ControlsView, f: Facts, ctrl: bool)
    requires
        !f.promoting,
        !(f.ending && f.ended && !c.banner_hidden),
        !c.confirm_quit,
        !c.confirm_resign,
    ensures
        ({
            let s = if c.flipped {
                -1i8
            } else {
                1i8
            };
            let right = key_effect(c, f, Key { code: KeyCode::Right, ctrl, press: true });
            let left = key_effect(c, f, Key { code: KeyCode::Left, ctrl, press: true });
            let up = key_effect(c, f, Key { code: KeyCode::Up, ctrl, press: true });
            let down = key_effect(c, f, Key { code: KeyCode::Down, ctrl, press: true });
            &&& right.1 == Action::Nudge(s, 0)
            &&& left.1 == Action::Nudge(-s as i8, 0)
            &&& up.1 == Action::Nudge(0, s)
            &&& down.1 == Action::Nudge(0, -s as i8)
            &&& right.0 == ControlsView { note: None, ..c }
            &&& left.0 == right.0 && up.0 == right.0 && down.0 == right.0
        }),
{
}

/// Each piece letter picks the piece it names, whatever is highlighted,
/// just as Enter does on that piece's place in the prompt. The vi keys move
/// the highlight as the arrows do, one place round the four either way, and
/// space takes the highlighted piece as Enter does.
pub proof fn lemma_promotion_keys(i: usize)
    requires
        i < 4,
    ensures
        promotion_key_of(i, KeyCode::Char('q')) == PromotionStep::Pick(Promotion::Queen),
        promotion_key_of(i, KeyCode::Char('r')) == PromotionStep::Pick(Promotion::Rook),
        promotion_key_of(i, KeyCode::Char('b')) == PromotionStep::Pick(Promotion::Bishop),
        promotion_key_of(i, KeyCode::Char('n')) == PromotionStep::Pick(Promotion::Knight),
        promotion_key_of(i, KeyCode::Char('q')) == promotion_key_of(0, KeyCode::Enter),
        promotion_key_of(i, KeyCode::Char('r')) == promotion_key_of(1, KeyCode::Enter),
        promotion_key_of(i, KeyCode::Char('b')) == promotion_key_of(2, KeyCode::Enter),
        promotion_key_of(i, KeyCode::Char('n')) == promotion_key_of(3, KeyCode::Enter),
        promotion_key_of(i, KeyCode::Char('h')) == promotion_key_of(i, KeyCode::Left),
        promotion_key_of(i, KeyCode::Char('l')) == promotion_key_of(i, KeyCode::Right),
        promotion_key_of(i, KeyCode::Char(' ')) == promotion_key_of(i, KeyCode::Enter),
        promotion_key_of(i, KeyCode::Right) == PromotionStep::Highlight(if i == 3 {
            0usize
        } else {
            (i + 1) as usize
        }),
        promotion_key_of(i, KeyCode::Left) == PromotionStep::Highlight(if i == 0 {
            3usize
        } else {
            (i - 1) as usize
        }),
{
}

/// Checkmate is won by the side that is not to move: when the status line
/// gives the result as checkmate, it names black as the winner with white
/// to move and white with black to move, and stands out as a win.
pub proof fn lemma_checkmate_names_the_winner(c: ControlsView, s: Standing)
    requires
        s.resigned is None,
        !c.draw.agreed,
        s.checkmate,
    ensures
        state_line_of(c, s).1 == Mood::Win,
        s.turn == Side::White ==> state_line_of(c, s).0 == "checkmate \u{2014} black wins"@,
        s.turn == Side::Black ==> state_line_of(c, s).0 == "checkmate \u{2014} white wins"@,
        state_line_of(c, Standing { turn: Side::White, ..s }).0 != state_line_of(
            c,
            Standing { turn: Side::Black, ..s },
        ).0,
{
    reveal_strlit("checkmate \u{2014} ");
    reveal_strlit("checkmate \u{2014} black wins");
    reveal_strlit("checkmate \u{2014} white wins");
    reveal_strlit(" wins");
    reveal_strlit("white");
    reveal_strlit("black");
    let w = state_line_of(c, Standing { turn: Side::White, ..s }).0;
    let b = state_line_of(c, Standing { turn: Side::Black, ..s }).0;
    assert(w =~= "checkmate \u{2014} black wins"@);
    assert(b =~= "checkmate \u{2014} white wins"@);
    assert(w[12] != b[12]);
    if s.turn == Side::White {
        assert(state_line_of(c, s).0 =~= w);
    } else {
        assert(state_line_of(c, s).0 =~= b);
    }
}

/// The board's other keys, with nothing else taking them: `f` turns the
/// board round, `m` turns the mouse on or off, `c` asks to copy the share
/// code, `r` asks before resigning a game still in play, Enter and space
/// pick up or put down on our move and do nothing otherwise, and Esc puts
/// down a piece that is picked up. None of them moves the cursor.
pub proof fn lemma_board_keys(c: ControlsView, f: Facts)
    requires
        !f.promoting,
        !(f.ending && f.ended && !c.banner_hidden),
        !c.confirm_quit,
        !c.confirm_resign,
    ensures
        ({
            let k = |code: KeyCode| key_effect(c, f, Key { code, ctrl: false, press: true });
            let quiet = ControlsView { note: None, ..c };
            &&& k(KeyCode::Char('f')) == (ControlsView { flipped: !c.flipped, ..quiet }, Action::Nothing)
            &&& k(KeyCode::Char('m')) == (ControlsView { mouse: !c.mouse, ..quiet }, Action::Nothing)
            &&& k(KeyCode::Char('c')) == (quiet, Action::CopyShare)
            &&& !f.over ==> k(KeyCode::Char('r')) == (
                ControlsView { confirm_resign: true, ..quiet },
                Action::Nothing,
            )
            &&& f.over ==> k(KeyCode::Char('r')) == (quiet, Action::Nothing)
            &&& k(KeyCode::Enter) == k(KeyCode::Char(' '))
            &&& k(KeyCode::Enter) == (quiet, if f.my_turn {
                Action::Activate
            } else {
                Action::Nothing
            })
            &&& f.selected ==> k(KeyCode::Esc) == (quiet, Action::Deselect)
        }),
{
}

/// Resigning asks first, and only `y` resigns: any other answer just
/// takes the question away.
pub proof fn lemma_resigning_asks_first(c: ControlsView, f: Facts, key: Key)
    requires
        !f.promoting,
        !(f.ending && f.ended && !c.banner_hidden),
        !c.confirm_quit,
        c.confirm_resign,
        key.press,
    ensures
        key_effect(c, f, key) == (ControlsView { confirm_resign: false, note: None, ..c }, if key.code
            == KeyCode::Char('y') {
            Action::Resign
        } else {
            Action::Nothing
        }),
{
}

/// A resignation is won by the other side, and a game agreed drawn says
/// so, before anything else on the status line.
pub proof fn lemma_status_results(c: ControlsView, s: Standing)
    ensures
        s.resigned == Some(Side::White) ==> state_line_of(c, s) == (
            "black wins by resignation"@,
            Mood::Win,
        ),
        s.resigned == Some(Side::Black) ==> state_line_of(c, s) == (
            "white wins by resignation"@,
            Mood::Win,
        ),
        s.resigned is None && c.draw.agreed ==> state_line_of(c, s) == ("draw agreed"@, Mood::Settled),
        s.resigned is None && !c.draw.agreed && !s.checkmate && s.stalemate ==> state_line_of(c, s).1
            == Mood::Settled,
{
    reveal_strlit("black wins by resignation");
    reveal_strlit("white wins by resignation");
    reveal_strlit(" wins by resignation");
    reveal_strlit("white");
    reveal_strlit("black");
    if s.resigned == Some(Side::White) {
        assert(state_line_of(c, s).0 =~= "black wins by resignation"@);
    }
    if s.resigned == Some(Side::Black) {
        assert(state_line_of(c, s).0 =~= "white wins by resignation"@);
    }
}

/// Whether a key answers "leave this game?" with yes.
pub open spec fn says_yes(key: Key) -> bool {
    key.code == KeyCode::Char('y') || key.code == KeyCode::Char('q') || key.code == KeyCode::Enter
}

/// Leaving asks first. With no question pending, no promotion and no
/// finale in the way: in a game still in play, `q`, or Esc with nothing
/// picked up, asks before leaving; `y`, `q` or Enter then leaves, and any
/// other answer but Control-C stays, without also being taken as a
/// command. Esc first puts down a piece that is picked up. A game that is
/// decided is left at once. Control-C exits, and asks nothing of the game.
pub proof fn lemma_leaving_asks_first(c: ControlsView, f: Facts, key: Key, answer: Key)
    requires
        !f.promoting,
        !c.confirm_quit,
        !c.confirm_resign,
        !(f.ending && f.ended && !c.banner_hidden),
        key.press,
        answer.press,
    ensures
        ({
            let (c1, a1) = key_effect(c, f, key);
            (!f.over && !c.draw.agreed && (key.code == KeyCode::Char('q') || (key.code == KeyCode::Esc
                && !f.selected))) ==> {
                &&& c1 == (ControlsView { confirm_quit: true, note: None, ..c })
                &&& a1 == Action::Nothing
                &&& says_yes(answer) ==> key_effect(c1, f, answer).0.quit
                &&& (!says_yes(answer) && !(answer.ctrl && answer.code == KeyCode::Char('c')))
                    ==> key_effect(c1, f, answer) == (ControlsView {
                    confirm_quit: false,
                    note: None,
                    ..c1
                }, Action::Nothing)
            }
        }),
        key.code == KeyCode::Esc && f.selected ==> key_effect(c, f, key) == (ControlsView {
            note: None,
            ..c
        }, Action::Deselect),
        (f.over || c.draw.agreed) && (key.code == KeyCode::Char('q') || (key.code == KeyCode::Esc
            && !f.selected)) ==> key_effect(c, f, key).0.quit,
        key.ctrl && key.code == KeyCode::Char('c') ==> key_effect(c, f, key).0.exit
            && key_effect(c, f, key).1 == Action::Nothing,
{
    let (c1, a1) = key_effect(c, f, key);
    if !f.over && !c.draw.agreed && (key.code == KeyCode::Char('q') || (key.code == KeyCode::Esc
        && !f.selected)) {
        assert(c1 == ControlsView { confirm_quit: true, note: None, ..c });
        assert(!(f.ending && f.ended && !c1.banner_hidden));
        if !says_yes(answer) && !(answer.ctrl && answer.code == KeyCode::Char('c')) {
            assert(key_effect(c1, f, answer).0 == ControlsView { confirm_quit: false, note: None, ..c1 });
        }
    }
}

/// How the game stands, for the one line that says so.
#[derive(Clone, Copy, Debug, PartialEq, Eq, Structural)]
pub struct Standing {
    /// Who resigned, if anyone did.
    pub resigned: Option<Side>,
    pub checkmate: bool,
    pub stalemate: bool,
    pub insufficient_material: bool,
    pub check: bool,
    /// Whose move it is.
    pub turn: Side,
    /// It is our move; always, sharing a keyboard.
    pub my_turn: bool,
}

/// How the line stands out.
#[derive(Clone, Copy, Debug, PartialEq, Eq, Structural)]
pub enum Mood {
    /// Someone won: bold, in green.
    Win,
    /// A result with no winner: bold.
    Settled,
    /// Something for the player to act on: in red.
    Warn,
    /// Nothing for the player to do: grey.
    Quiet,
    Plain,
}

pub open spec fn side_word(s: Side) -> Seq<char> {
    match s {
        Side::White => "white"@,
        Side::Black => "black"@,
    }
}

pub open spec fn other(s: Side) -> Side {
    match s {
        Side::White => Side::Black,
        Side::Black => Side::White,
    }
}

/// The one-line description of where the game stands: a result first, then
/// a note, then a draw being agreed, check, and whose move it is.
pub open spec fn state_line_of(c: ControlsView, s: Standing) -> (Seq<char>, Mood) {
    if s.resigned is Some {
        (side_word(other(s.resigned->0)) + " wins by resignation"@, Mood::Win)
    } else if c.draw.agreed {
        ("draw agreed"@, Mood::Settled)
    } else if s.checkmate {
        ("checkmate \u{2014} "@ + side_word(other(s.turn)) + " wins"@, Mood::Win)
    } else if s.stalemate {
        ("stalemate \u{2014} draw"@, Mood::Settled)
    } else if s.insufficient_material {
        ("draw \u{2014} insufficient material"@, Mood::Settled)
    } else if c.note is Some {
        (c.note->0, Mood::Warn)
    } else if c.draw.offered {
        ("draw offered \u{2014} press d to accept"@, Mood::Warn)
    } else if c.draw.sent {
        ("draw offer sent"@, Mood::Quiet)
    } else if s.check {
        ("check"@, Mood::Warn)
    } else if !s.my_turn {
        ("waiting for opponent"@, Mood::Quiet)
    } else {
        ("your move"@, Mood::Plain)
    }
}

fn side_name(s: Side) -> (r: &'static str)
    ensures
        r@ == side_word(s),
{
    match s {
        Side::White => "white",
        Side::Black => "black",
    }
}

fn other_side(s: Side) -> (r: Side)
    ensures
        r == other(s),
{
    match s {
        Side::White => Side::Black,
        Side::Black => Side::White,
    }
}

impl Controls {
    /// A fresh game. Black sits behind black's pieces.
    pub fn new(me: Option<Side>) -> (c: Controls)
        ensures
            c.flipped == (me == Some(Side::Black)),
            c.piece_style == PieceStyle::Octant,
            c.mouse,
            !c.quit && !c.exit && !c.confirm_resign && !c.confirm_quit && !c.banner_hidden,
            c.draw == no_draw(),
            c.note is None,
            c.drag_from is None,
    {
        let flipped = match me {
            Some(Side::Black) => true,
            _ => false,
        };
        Controls {
            flipped,
            piece_style: PieceStyle::Octant,
            mouse: true,
            quit: false,
            exit: false,
            confirm_resign: false,
            confirm_quit: false,
            draw: Draw::new(),
            note: None,
            banner_hidden: false,
            drag_from: None,
        }
    }

    fn leave(&mut self, f: Facts)
        ensures
            final(self)@ == leave_of(old(self)@, f),
    {
        if f.over || self.draw.agreed {
            self.quit = true;
        } else {
            self.confirm_quit = true;
        }
    }

    fn nudge(&self, dfile: i8, drank: i8) -> (r: Action)
        requires
            dfile != i8::MIN,
            drank != i8::MIN,
        ensures
            r == nudge_of(self@, dfile, drank),
    {
        if self.flipped {
            Action::Nudge(-dfile, -drank)
        } else {
            Action::Nudge(dfile, drank)
        }
    }

    fn activate(f: Facts) -> (r: Action)
        ensures
            r == (if f.my_turn {
                Action::Activate
            } else {
                Action::Nothing
            }),
    {
        if f.my_turn {
            Action::Activate
        } else {
            Action::Nothing
        }
    }

    fn board_key(&mut self, f: Facts, key: Key) -> (r: Action)
        ensures
            (final(self)@, r) == board_key_of(old(self)@, f, key),
    {
        match key.code {
            KeyCode::Char(ch) => {
                if ch == 'c' && key.ctrl {
                    self.exit = true;
                    Action::Nothing
                } else if ch == 'q' {
                    self.leave(f);
                    Action::Nothing
                } else if ch == 'f' {
                    self.flipped = !self.flipped;
                    Action::Nothing
                } else if ch == 'p' {
                    self.piece_style = self.piece_style.next();
                    Action::Nothing
                } else if ch == 'm' {
                    self.mouse = !self.mouse;
                    Action::Nothing
                } else if ch == 'c' {
                    Action::CopyShare
                } else if ch == 'r' && !f.over {
                    self.confirm_resign = true;
                    Action::Nothing
                } else if ch == 'd' && !f.over {
                    if self.draw.key(f.networked) {
                        Action::SendDraw
                    } else {
                        Action::Nothing
                    }
                } else if ch == 'h' {
                    self.nudge(-1, 0)
                } else if ch == 'l' {
                    self.nudge(1, 0)
                } else if ch == 'k' {
                    self.nudge(0, 1)
                } else if ch == 'j' {
                    self.nudge(0, -1)
                } else if ch == ' ' {
                    Controls::activate(f)
                } else {
                    Action::Nothing
                }
            },
            KeyCode::Esc => {
                if f.selected {
                    Action::Deselect
                } else {
                    self.leave(f);
                    Action::Nothing
                }
            },
            KeyCode::Left => self.nudge(-1, 0),
            KeyCode::Right => self.nudge(1, 0),
            KeyCode::Up => self.nudge(0, 1),
            KeyCode::Down => self.nudge(0, -1),
            KeyCode::Enter => Controls::activate(f),
            _ => Action::Nothing,
        }
    }

    /// A key from the player.
    pub fn on_key(&mut self, key: Key, f: Facts) -> (r: Action)
        ensures
            (final(self)@, r) == key_effect(old(self)@, f, key),
    {
        if !key.press {
            return Action::Nothing;
        }
        self.note = None;
        if f.promoting {
            return Action::Promotion(key.code);
        }
        let quits = key.code == KeyCode::Char('q') || (key.ctrl && key.code == KeyCode::Char('c'));
        if f.ending && f.ended && !self.banner_hidden && !quits {
            if f.animating {
                return Action::SkipFinale;
            }
            self.banner_hidden = true;
            return Action::Nothing;
        }
        if self.confirm_quit {
            self.confirm_quit = false;
            if key.code == KeyCode::Char('y') || key.code == KeyCode::Char('q') || key.code
                == KeyCode::Enter {
                self.quit = true;
            } else if key.code == KeyCode::Char('c') && key.ctrl {
                self.exit = true;
            }
            return Action::Nothing;
        }
        if self.confirm_resign {
            self.confirm_resign = false;
            if key.code == KeyCode::Char('y') {
                return Action::Resign;
            }
            return Action::Nothing;
        }
        self.board_key(f, key)
    }

    /// The peer's move was played, or could not be: a peer running the same
    /// code cannot send an illegal one, so that means the two sides have
    /// diverged, and the player is told rather than left guessing.
    pub fn on_peer_move(&mut self, refused: Option<&str>)
        ensures
            match refused {
                None => final(self)@ == (ControlsView {
                    draw: peer_move_of(old(self).draw),
                    ..old(self)@
                }),
                Some(why) => final(self)@ == (ControlsView {
                    note: Some("peer sent "@ + why@),
                    ..old(self)@
                }),
            },
    {
        match refused {
            None => self.draw.peer_move(),
            Some(why) => {
                self.note = Some(joined("peer sent ", why));
            },
        }
    }

    /// Where the player has asked to go: out of the program, which wins,
    /// or back to the lobby.
    pub fn leaving(&self) -> (r: Option<Leave>)
        ensures
            r == leaving_of(self@),
    {
        if self.exit {
            Some(Leave::Exit)
        } else if self.quit {
            Some(Leave::Lobby)
        } else {
            None
        }
    }

    /// Something from the network. Pairing and the connection are the
    /// table's. Nothing the peer says is taken on trust: a game that is over,
    /// or played at one keyboard, ignores it; a move sent while it is our
    /// turn is refused and the player told. Otherwise a draw message answers
    /// our offer or makes one, and a move or a resignation is handed back
    /// for the rules to carry out, which refuse an illegal move.
    pub fn on_net(&mut self, table: &mut Table, event: NetEvent, f: Facts) -> (r: PeerAction)
        ensures
            match event {
                NetEvent::Progress(p) => {
                    &&& r == PeerAction::Nothing
                    &&& final(table).conn == progress_conn_of(old(table).conn, p)
                    &&& final(self)@ == (ControlsView {
                        note: match progress_note_of(p, Kind::Chess) {
                            Some(n) => Some(n),
                            None => old(self)@.note,
                        },
                        ..old(self)@
                    })
                },
                NetEvent::Connected(_) => {
                    &&& r == PeerAction::Nothing
                    &&& final(table).conn == old(table).conn
                    &&& final(self)@ == old(self)@
                },
                NetEvent::Disconnected(why) => {
                    &&& r == PeerAction::Nothing
                    &&& final(table).conn == Conn::Lost(why)
                    &&& final(self)@ == old(self)@
                },
                NetEvent::Move(uci) => {
                    &&& final(table).conn == old(table).conn
                    &&& if f.over || !f.networked {
                        r == PeerAction::Nothing && final(self)@ == old(self)@
                    } else if f.my_turn {
                        r == PeerAction::Nothing && final(self)@ == (ControlsView {
                            note: Some(out_of_turn_note()),
                            ..old(self)@
                        })
                    } else {
                        r == PeerAction::Play(uci) && final(self)@ == old(self)@
                    }
                },
                NetEvent::Resign => {
                    &&& final(table).conn == old(table).conn
                    &&& final(self)@ == old(self)@
                    &&& r == if f.over || !f.networked {
                        PeerAction::Nothing
                    } else {
                        PeerAction::Resigned
                    }
                },
                NetEvent::Draw => {
                    &&& r == PeerAction::Nothing
                    &&& final(table).conn == old(table).conn
                    &&& final(self)@ == if f.over || !f.networked {
                        old(self)@
                    } else {
                        ControlsView { draw: peer_draw_of(old(self).draw), ..old(self)@ }
                    }
                },
            },
            final(table).net == old(table).net,
            final(table).peer == old(table).peer,
            final(table).peer_name == old(table).peer_name,
            final(table).share == old(table).share,
            final(table).copy_request == old(table).copy_request,
            final(table).copied == old(table).copied,
    {
        let ignored = f.over || !f.networked;
        match event {
            NetEvent::Progress(p) => {
                if let Some(note) = table.on_progress(p, Kind::Chess) {
                    self.note = Some(note);
                }
                PeerAction::Nothing
            },
            NetEvent::Connected(_) => PeerAction::Nothing,
            NetEvent::Disconnected(why) => {
                table.conn = Conn::Lost(why);
                PeerAction::Nothing
            },
            NetEvent::Move(uci) => {
                if ignored {
                    PeerAction::Nothing
                } else if f.my_turn {
                    proof {
                        reveal_strlit("the peer tried to move out of turn");
                    }
                    self.note = Some(String::from_str("the peer tried to move out of turn"));
                    PeerAction::Nothing
                } else {
                    PeerAction::Play(uci)
                }
            },
            NetEvent::Resign => {
                if ignored {
                    PeerAction::Nothing
                } else {
                    PeerAction::Resigned
                }
            },
            NetEvent::Draw => {
                if !ignored {
                    self.draw.peer_draw();
                }
                PeerAction::Nothing
            },
        }
    }

    /// The one-line description of where the game stands, and how it should
    /// stand out.
    pub fn state_line(&self, s: Standing) -> (r: (String, Mood))
        ensures
            (r.0@, r.1) == state_line_of(self@, s),
    {
        match s.resigned {
            Some(loser) => {
                let winner = side_name(other_side(loser));
                return (joined(winner, " wins by resignation"), Mood::Win);
            },
            None => {},
        }
        if self.draw.agreed {
            return (String::from_str("draw agreed"), Mood::Settled);
        }
        if s.checkmate {
            let winner = side_name(other_side(s.turn));
            let a = joined("checkmate \u{2014} ", winner);
            return (joined(a.as_str(), " wins"), Mood::Win);
        }
        if s.stalemate {
            return (String::from_str("stalemate \u{2014} draw"), Mood::Settled);
        }
        if s.insufficient_material {
            return (String::from_str("draw \u{2014} insufficient material"), Mood::Settled);
        }
        match &self.note {
            Some(note) => {
                return (note.clone(), Mood::Warn);
            },
            None => {},
        }
        if self.draw.offered {
            return (String::from_str("draw offered \u{2014} press d to accept"), Mood::Warn);
        }
        if self.draw.sent {
            return (String::from_str("draw offer sent"), Mood::Quiet);
        }
        if s.check {
            return (String::from_str("check"), Mood::Warn);
        }
        if !s.my_turn {
            return (String::from_str("waiting for opponent"), Mood::Quiet);
        }
        (String::from_str("your move"), Mood::Plain)
    }
}

/// What the mouse did.
#[derive(Clone, Copy, Debug, PartialEq, Eq, Structural)]
pub enum Pointing {
    LeftDown,
    LeftUp,
    RightDown,
    /// Any other button went down.
    OtherDown,
    Moved,
    Other,
}

/// What the mouse asks of the position.
#[derive(Clone, Copy, Debug, PartialEq, Eq, Structural)]
pub enum Pointer {
    Nothing,
    /// Promote to the choice at this place in the prompt.
    Promote(usize),
    /// Put the cursor here and pick up or put down what is under it.
    Click(Square),
    /// The piece dragged from [`Controls::drag_from`] was let go here.
    Drop(Square),
    /// Put the picked-up piece back down.
    Deselect,
    /// The pointer is over this square: the cursor follows it.
    Hover(Square),
}

/// What the mouse does. While the verdict is up any button only clears it
/// away. A press on the prompt picks a promotion; a press while a question
/// is asked only dismisses it; a press on the board clicks a square. A
/// release somewhere else than it was picked up from drops the piece
/// there, if it is still the one picked up. A right click puts the piece
/// back down, and the cursor follows the pointer over the board.
pub open spec fn pointer_effect(
    c: ControlsView,
    g: Geometry,
    kind: Pointing,
    x: u16,
    y: u16,
    banner: bool,
    promoting: bool,
    selected: Option<Square>,
) -> (ControlsView, Pointer) {
    if banner && (kind == Pointing::LeftDown || kind == Pointing::RightDown || kind
        == Pointing::OtherDown) {
        (ControlsView { banner_hidden: true, ..c }, Pointer::Nothing)
    } else {
        match kind {
            Pointing::LeftDown => {
                let c = ControlsView { note: None, ..c };
                if promoting {
                    (c, match promo_at_of(g, x, y) {
                        Some(i) => Pointer::Promote(i),
                        None => Pointer::Nothing,
                    })
                } else if c.confirm_resign || c.confirm_quit {
                    (ControlsView { confirm_resign: false, confirm_quit: false, ..c }, Pointer::Nothing)
                } else {
                    (c, match square_at_of(g, x, y, c.flipped) {
                        Some(sq) => Pointer::Click(sq),
                        None => Pointer::Nothing,
                    })
                }
            },
            Pointing::LeftUp => {
                let after = ControlsView { drag_from: None, ..c };
                match c.drag_from {
                    None => (after, Pointer::Nothing),
                    Some(from) => match square_at_of(g, x, y, c.flipped) {
                        None => (after, Pointer::Nothing),
                        Some(sq) => if sq == from || selected != Some(from) {
                            (after, Pointer::Nothing)
                        } else {
                            (after, Pointer::Drop(sq))
                        },
                    },
                }
            },
            Pointing::RightDown => (ControlsView { drag_from: None, ..c }, Pointer::Deselect),
            Pointing::Moved => (c, match square_at_of(g, x, y, c.flipped) {
                Some(sq) => Pointer::Hover(sq),
                None => Pointer::Nothing,
            }),
            _ => (c, Pointer::Nothing),
        }
    }
}

impl Controls {
    /// The mouse, at column `x` and row `y` of a screen laid out as `g`.
    /// `banner` is whether the verdict is up, `selected` the square a piece
    /// is picked up from.
    pub fn on_pointer(
        &mut self,
        g: &Geometry,
        kind: Pointing,
        x: u16,
        y: u16,
        banner: bool,
        promoting: bool,
        selected: Option<Square>,
    ) -> (r: Pointer)
        requires
            g.cell.0 > 0,
            g.cell.1 > 0,
            g.promo_cell > 0,
        ensures
            (final(self)@, r) == pointer_effect(old(self)@, *g, kind, x, y, banner, promoting, selected),
    {
        if banner && (kind == Pointing::LeftDown || kind == Pointing::RightDown || kind
            == Pointing::OtherDown) {
            self.banner_hidden = true;
            return Pointer::Nothing;
        }
        match kind {
            Pointing::LeftDown => {
                self.note = None;
                if promoting {
                    return match g.promo_at(x, y) {
                        Some(i) => Pointer::Promote(i),
                        None => Pointer::Nothing,
                    };
                }
                if self.confirm_resign || self.confirm_quit {
                    self.confirm_resign = false;
                    self.confirm_quit = false;
                    return Pointer::Nothing;
                }
                match g.square_at(x, y, self.flipped) {
                    Some(sq) => Pointer::Click(sq),
                    None => Pointer::Nothing,
                }
            },
            Pointing::LeftUp => {
                let drag = self.drag_from;
                self.drag_from = None;
                match drag {
                    None => Pointer::Nothing,
                    Some(from) => match g.square_at(x, y, self.flipped) {
                        None => Pointer::Nothing,
                        Some(sq) => {
                            // Releasing where it was pressed is a click: the
                            // piece stays picked up.
                            if sq == from || selected != Some(from) {
                                Pointer::Nothing
                            } else {
                                Pointer::Drop(sq)
                            }
                        },
                    },
                }
            },
            Pointing::RightDown => {
                self.drag_from = None;
                Pointer::Deselect
            },
            Pointing::Moved => match g.square_at(x, y, self.flipped) {
                Some(sq) => Pointer::Hover(sq),
                None => Pointer::Nothing,
            },
            _ => Pointer::Nothing,
        }
    }

    /// After a click: remember the piece it picked up, if it did, so a drag
    /// can drop it elsewhere.
    pub fn picked_up(&mut self, selected: Option<Square>)
        ensures
            final(self)@ == (ControlsView { drag_from: selected, ..old(self)@ }),
    {
        self.drag_from = selected;
    }
}

/// Which piece a pawn may become, in the order the prompt offers them.
#[derive(Clone, Copy, Debug, PartialEq, Eq, Structural)]
pub enum Promotion {
    Queen,
    Rook,
    Bishop,
    Knight,
}

pub open spec fn promotion_roles() -> Seq<Promotion> {
    seq![Promotion::Queen, Promotion::Rook, Promotion::Bishop, Promotion::Knight]
}

/// What a key does to the promotion prompt.
#[derive(Clone, Copy, Debug, PartialEq, Eq, Structural)]
pub enum PromotionStep {
    /// The highlight moved to this choice.
    Highlight(usize),
    /// Promote to this.
    Pick(Promotion),
    /// Put the pawn back: no promotion after all.
    Cancel,
    Nothing,
}

/// Left and right move round the four choices; Enter or space takes the
/// highlighted one; a piece's letter takes it directly; Esc backs out.
pub open spec fn promotion_key_of(choice: usize, code: KeyCode) -> PromotionStep {
    match code {
        KeyCode::Left => PromotionStep::Highlight(((choice + 3) % 4) as usize),
        KeyCode::Right => PromotionStep::Highlight(((choice + 1) % 4) as usize),
        KeyCode::Enter => PromotionStep::Pick(promotion_roles()[choice as int]),
        KeyCode::Esc => PromotionStep::Cancel,
        KeyCode::Char(c) => if c == 'h' {
            PromotionStep::Highlight(((choice + 3) % 4) as usize)
        } else if c == 'l' {
            PromotionStep::Highlight(((choice + 1) % 4) as usize)
        } else if c == ' ' {
            PromotionStep::Pick(promotion_roles()[choice as int])
        } else if c == 'q' {
            PromotionStep::Pick(Promotion::Queen)
        } else if c == 'r' {
            PromotionStep::Pick(Promotion::Rook)
        } else if c == 'b' {
            PromotionStep::Pick(Promotion::Bishop)
        } else if c == 'n' {
            PromotionStep::Pick(Promotion::Knight)
        } else {
            PromotionStep::Nothing
        },
        _ => PromotionStep::Nothing,
    }
}

/// The piece at a place in the prompt.
pub fn promotion_role(i: usize) -> (r: Promotion)
    requires
        i < 4,
    ensures
        r == promotion_roles()[i as int],
{
    if i == 0 {
        Promotion::Queen
    } else if i == 1 {
        Promotion::Rook
    } else if i == 2 {
        Promotion::Bishop
    } else {
        Promotion::Knight
    }
}

/// A key while a pawn waits to be promoted, with `choice` highlighted.
pub fn promotion_key(choice: usize, code: KeyCode) -> (r: PromotionStep)
    requires
        choice < 4,
    ensures
        r == promotion_key_of(choice, code),
        r matches PromotionStep::Highlight(i) ==> i < 4,
{
    match code {
        KeyCode::Left => PromotionStep::Highlight((choice + 3) % 4),
        KeyCode::Right => PromotionStep::Highlight((choice + 1) % 4),
        KeyCode::Enter => PromotionStep::Pick(promotion_role(choice)),
        KeyCode::Esc => PromotionStep::Cancel,
        KeyCode::Char(c) => {
            if c == 'h' {
                PromotionStep::Highlight((choice + 3) % 4)
            } else if c == 'l' {
                PromotionStep::Highlight((choice + 1) % 4)
            } else if c == ' ' {
                PromotionStep::Pick(promotion_role(choice))
            } else if c == 'q' {
                PromotionStep::Pick(Promotion::Queen)
            } else if c == 'r' {
                PromotionStep::Pick(Promotion::Rook)
            } else if c == 'b' {
                PromotionStep::Pick(Promotion::Bishop)
            } else if c == 'n' {
                PromotionStep::Pick(Promotion::Knight)
            } else {
                PromotionStep::Nothing
            }
        },
        _ => PromotionStep::Nothing,
    }
}

} // verus!
