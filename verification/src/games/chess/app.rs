//! A game of chess in progress: how long its animations last, and how a lost
//! game plays out.

use vstd::prelude::*;

verus! {

/// How long a piece takes to travel between two squares, in milliseconds.
pub const SLIDE: u64 = 160;

/// Checkmate plays out in three acts once the mating piece lands: the king
/// shudders while its square flashes red, then topples as the board goes
/// dark, and then the verdict is spelled out across the board. Milliseconds.
pub const SHUDDER: u64 = 700;
pub const TOPPLE: u64 = 600;
pub const REVEAL: u64 = 600;
pub const FINALE: u64 = SHUDDER + TOPPLE + REVEAL;

/// A resignation is quieter: a moment's stillness, then the king lays itself
/// down slowly, and the verdict follows. Milliseconds.
pub const STILL: u64 = 250;
pub const LAY_DOWN: u64 = 1100;
pub const RESIGN_FINALE: u64 = STILL + LAY_DOWN + REVEAL;

/// How long a king's square pulses red when it is put in check, in
/// milliseconds.
pub const CHECK_PULSE: u64 = 900;

/// How the game was lost, which sets how the finale plays.
#[derive(Clone, Copy, Debug, PartialEq, Eq, Structural)]
pub enum Ending {
    Checkmate,
    Resignation,
}

/// The length of each act of a finale: the first beat, the fall, and the
/// reveal, in milliseconds.
pub open spec fn acts_of(e: Ending) -> (u64, u64, u64) {
    match e {
        Ending::Checkmate => (SHUDDER, TOPPLE, REVEAL),
        Ending::Resignation => (STILL, LAY_DOWN, REVEAL),
    }
}

impl Ending {
    /// The length of each act: the first beat, the fall, and the reveal.
    pub fn acts(self) -> (r: (u64, u64, u64))
        ensures
            r == acts_of(self),
    {
        match self {
            Ending::Checkmate => (SHUDDER, TOPPLE, REVEAL),
            Ending::Resignation => (STILL, LAY_DOWN, REVEAL),
        }
    }

    /// How long the whole finale takes, in milliseconds.
    pub fn length(self) -> (r: u64)
        ensures
            r == acts_of(self).0 + acts_of(self).1 + acts_of(self).2,
            self == Ending::Checkmate ==> r == FINALE,
            self == Ending::Resignation ==> r == RESIGN_FINALE,
    {
        let (a, b, c) = self.acts();
        a + b + c
    }
}

} // verus!
