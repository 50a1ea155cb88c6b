# tui-tui

Terminal games between two players, with chess as the first game. The
library in `src/` is verified with Verus: pairing by a shared code, the
lobby, what keys, clicks and the peer's messages do to a game, and the
layout of the board. `app/` is the program around it; it plays hot-seat
chess on one keyboard. It carries no network transport, so hosting and
joining stop with a message saying so, and the lobby takes keys only.

## Layout

- `src/cli.rs` — the command line: which game, and lobby, `local`, `host`,
  `join <code>` or help; the usage text.
- `src/lobby.rs` — the first screen: the menu and the code box.
- `src/session/` — pairing: the handshake both sides run (`handshake.rs`),
  reading a peer's lines within a size limit (`lines.rs`), cleaning the names
  players give themselves (`name.rs`), and the host's wait for an opponent.
- `src/net.rs` — the lines a game sends and how incoming ones are read.
- `src/games/` — the registry of games, the table every game shares, and the
  connection and footer text every game's screen shows (`chrome.rs`).
- `src/games/chess/` — the chess messages (`protocol.rs`), what keys, clicks
  and the peer's messages do to a game (`controls.rs`), the captured pieces
  and the material edge (`material.rs`), the layout of the
  screen (`ui.rs`), how pieces are drawn in a square (`pieces.rs`), the text
  around the board (`panels.rs`), the verdict once a game is lost
  (`verdict.rs`), and the finale's timing (`app.rs`).
- `src/text.rs`, `src/keys.rs`, `src/ui.rs` — strings, keys and rectangles.
- `app/` — `main`, the terminal, drawing, and the position itself, which
  shakmaty keeps.

## What is proved

Besides a contract on every function, among them:

- the host lets in only a joiner that proved it holds the code, the joiner
  settles on a game only with a host that proved it too, and the host stops
  after three wrong codes;
- hex, the chess messages and our outgoing lines read back as themselves;
- cleaned names are one tidy line of at most 24 characters, and cleaning
  twice is cleaning once;
- a line handed back by the reader is never longer than the limit;
- the code box only ever holds lower-case letters, digits and single dashes;
  Enter joins only with a code shaped as a number from 0 to 99 and three
  words, and Tab moves on past a finished number (finishing a word needs the
  code's word list, which this build does not carry);
- a game takes nothing from the peer on trust: only whole messages count, a
  game that is over or played at one keyboard ignores them, and a move sent
  on our turn is refused with a note;
- pairing ends in a key exactly when the peer's half of the exchange is a
  point on the curve;
- clicks land on the square drawn there and nowhere off the grid, the
  board grows with the terminal, and a larger terminal never gets smaller
  squares;
- leaving a game in play asks first, and a draw takes both sides;
- a piece's cells are exactly as wide as its square, a sprite fits its
  square and stands on it, and the six big sprites are told apart and each
  stands on a solid base.
