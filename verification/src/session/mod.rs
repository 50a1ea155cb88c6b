//! Getting two players connected, whatever they are going to play: the
//! handshake that proves both hold the same code and agree on the game, and
//! the lines the two sides then speak over.

pub mod handshake;
pub mod lines;
pub mod name;

use vstd::prelude::*;

verus! {

/// Wrong codes the host puts up with before it stops listening. Each is one
/// guess at the code, so this bounds the odds of an attacker getting in.
pub const MAX_WRONG_CODES: u32 = 3;

/// A game and the version of its wire protocol.
#[derive(Clone, Copy, Debug, PartialEq, Eq)]
pub struct Game {
    pub name: &'static str,
    pub version: u32,
}

impl View for Game {
    type V = (Seq<char>, u32);

    open spec fn view(&self) -> (Seq<char>, u32) {
        (self.name@, self.version)
    }
}

/// How pairing is going, for the UI to show.
#[derive(Clone, Copy, Debug, PartialEq, Eq, Structural)]
pub enum Progress {
    /// The host's code is on the DHT and can be looked up.
    Listed,
    /// The joiner has found the host and is dialling it.
    Found,
    /// Someone dialled the host with the wrong code.
    WrongCode { attempts: u32 },
    /// Someone got in but could not play what the host is playing.
    Declined,
}

/// How publishing the code on the DHT may be tried before giving up.
pub const PUBLISH_ATTEMPTS: u32 = 3;

/// What comes after one attempt at publishing the code.
#[derive(Clone, Copy, Debug, PartialEq, Eq, Structural)]
pub enum Publish {
    /// It is on the DHT.
    Done,
    /// Wait a moment and make this attempt.
    Retry(u32),
    /// The last attempt failed too: report its error.
    GiveUp,
}

/// Publishing is tried again after a failure, up to `PUBLISH_ATTEMPTS`
/// attempts in all. `attempt` counts from one.
pub fn after_publish(attempt: u32, published: bool) -> (r: Publish)
    requires
        1 <= attempt <= PUBLISH_ATTEMPTS,
    ensures
        published ==> r == Publish::Done,
        !published && attempt >= PUBLISH_ATTEMPTS ==> r == Publish::GiveUp,
        !published && attempt < PUBLISH_ATTEMPTS ==> r == Publish::Retry((attempt + 1) as u32),
        r matches Publish::Retry(next) ==> next <= PUBLISH_ATTEMPTS,
{
    if published {
        Publish::Done
    } else if attempt >= PUBLISH_ATTEMPTS {
        Publish::GiveUp
    } else {
        Publish::Retry(attempt + 1)
    }
}

/// How one attempt at pairing, from someone dialling the host, went.
#[derive(Clone, Copy, Debug, PartialEq, Eq, Structural)]
pub enum Attempt {
    /// They proved the code and took the game.
    Paired,
    /// They used a different code.
    WrongCode,
    /// They got in but could not play the host's game.
    Declined,
    /// Anything else: a timeout, a dropped connection, nonsense.
    Dropped,
}

/// What the host does next.
#[derive(Clone, Copy, Debug, PartialEq, Eq, Structural)]
pub enum Next {
    /// Play with whoever just paired.
    Play,
    /// Keep waiting: the real opponent may still be on the way.
    Wait,
    /// Too many wrong codes: stop listening.
    GiveUp,
}

/// The host's wait, one attempt at a time: the wrong codes counted so far,
/// what to tell the player, and whether to go on.
pub open spec fn after_attempt_of(wrong: u32, attempt: Attempt) -> (u32, Option<Progress>, Next) {
    match attempt {
        Attempt::Paired => (wrong, None, Next::Play),
        Attempt::WrongCode => {
            let w = (wrong + 1) as u32;
            (w, Some(Progress::WrongCode { attempts: w }), if w >= MAX_WRONG_CODES {
                Next::GiveUp
            } else {
                Next::Wait
            })
        },
        Attempt::Declined => (wrong, Some(Progress::Declined), Next::Wait),
        Attempt::Dropped => (wrong, None, Next::Wait),
    }
}

/// A failed attempt does not end the wait, unless it was one wrong code too
/// many.
pub fn after_attempt(wrong: u32, attempt: Attempt) -> (r: (u32, Option<Progress>, Next))
    requires
        wrong < MAX_WRONG_CODES,
    ensures
        r == after_attempt_of(wrong, attempt),
{
    match attempt {
        Attempt::Paired => (wrong, None, Next::Play),
        Attempt::WrongCode => {
            let w = wrong + 1;
            let next = if w >= MAX_WRONG_CODES {
                Next::GiveUp
            } else {
                Next::Wait
            };
            (w, Some(Progress::WrongCode { attempts: w }), next)
        },
        Attempt::Declined => (wrong, Some(Progress::Declined), Next::Wait),
        Attempt::Dropped => (wrong, None, Next::Wait),
    }
}

/// A whole wait, attempt after attempt from none wrong: the count it ends
/// on and what it comes to, stopping at the first attempt that is not
/// waited past.
pub open spec fn wait_of(attempts: Seq<Attempt>) -> (u32, Next)
    decreases attempts.len(),
{
    if attempts.len() == 0 {
        (0, Next::Wait)
    } else {
        let (wrong, next) = wait_of(attempts.drop_last());
        if next != Next::Wait {
            (wrong, next)
        } else {
            let (w, _, n) = after_attempt_of(wrong, attempts.last());
            (w, n)
        }
    }
}

pub open spec fn wrong_codes(attempts: Seq<Attempt>) -> nat
    decreases attempts.len(),
{
    if attempts.len() == 0 {
        0
    } else {
        wrong_codes(attempts.drop_last()) + if attempts.last() == Attempt::WrongCode {
            1nat
        } else {
            0nat
        }
    }
}

pub open spec fn pairs(attempts: Seq<Attempt>) -> bool {
    exists|i: int| 0 <= i < attempts.len() && attempts[i] == Attempt::Paired
}

/// The host puts up with at most `MAX_WRONG_CODES` wrong codes: while it
/// is still waiting it has seen fewer, and it gives up exactly when a
/// sequence of attempts, none of them a pairing, holds that many.
pub proof fn lemma_wrong_code_limit(attempts: Seq<Attempt>)
    ensures
        wait_of(attempts).1 == Next::Wait ==> !pairs(attempts) && wait_of(attempts).0
            == wrong_codes(attempts) && wrong_codes(attempts) < MAX_WRONG_CODES,
        wait_of(attempts).1 == Next::GiveUp ==> wait_of(attempts).0 == MAX_WRONG_CODES,
        wait_of(attempts).1 == Next::Play ==> pairs(attempts),
        !pairs(attempts) ==> (wait_of(attempts).1 == Next::GiveUp <==> wrong_codes(attempts)
            >= MAX_WRONG_CODES),
    decreases attempts.len(),
{
    if attempts.len() > 0 {
        let init = attempts.drop_last();
        lemma_wrong_code_limit(init);
        lemma_wrong_codes_grow(attempts);
        if pairs(init) {
            let i = choose|i: int| 0 <= i < init.len() && init[i] == Attempt::Paired;
            assert(attempts[i] == Attempt::Paired);
        }
        if !pairs(attempts) {
            assert(!pairs(init)) by {
                if pairs(init) {
                    let i = choose|i: int| 0 <= i < init.len() && init[i] == Attempt::Paired;
                    assert(attempts[i] == init[i]);
                }
            }
            assert(attempts.last() != Attempt::Paired);
        }
        if attempts.last() == Attempt::Paired {
            assert(pairs(attempts)) by {
                assert(attempts[attempts.len() - 1] == Attempt::Paired);
            }
        }
        let (wrong, next) = wait_of(init);
        if next == Next::Wait {
            assert(wrong < MAX_WRONG_CODES);
            if attempts.last() != Attempt::Paired {
                assert forall|i: int| 0 <= i < attempts.len() implies attempts[i] != Attempt::Paired by {
                    if i < attempts.len() - 1 {
                        assert(attempts[i] == init[i]);
                    }
                }
            }
            match attempts.last() {
                Attempt::WrongCode => {
                    assert(wrong_codes(attempts) == wrong_codes(init) + 1);
                    assert(wait_of(attempts) == ((wrong + 1) as u32, if wrong + 1 >= 3 {
                        Next::GiveUp
                    } else {
                        Next::Wait
                    }));
                },
                Attempt::Paired => {
                    assert(wait_of(attempts) == (wrong, Next::Play));
                },
                _ => {
                    assert(wrong_codes(attempts) == wrong_codes(init));
                    assert(wait_of(attempts) == (wrong, Next::Wait));
                },
            }
        } else {
            assert(wait_of(attempts) == (wrong, next));
            if next == Next::Play {
                let i = choose|i: int| 0 <= i < init.len() && init[i] == Attempt::Paired;
                assert(attempts[i] == Attempt::Paired);
            }
        }
    }
}

proof fn lemma_wrong_codes_grow(attempts: Seq<Attempt>)
    requires
        attempts.len() > 0,
    ensures
        wrong_codes(attempts) >= wrong_codes(attempts.drop_last()),
{
}

} // verus!
