//! What each side has taken from the other, and who is ahead on material,
//! worked out from the pieces still on the board.

use vstd::prelude::*;

use super::pieces::Role;

verus! {

/// How many times `r` occurs in `s`.
pub open spec fn count_role(s: Seq<Role>, r: Role) -> nat
    decreases s.len(),
{
    if s.len() == 0 {
        0
    } else {
        count_role(s.drop_last(), r) + if s.last() == r {
            1nat
        } else {
            0nat
        }
    }
}

/// What a piece is worth: a pawn one, a knight or a bishop three, a rook
/// five, a queen nine. The king is never taken, so it counts for nothing.
pub open spec fn value_of(r: Role) -> int {
    match r {
        Role::Pawn => 1,
        Role::Knight | Role::Bishop => 3,
        Role::Rook => 5,
        Role::Queen => 9,
        Role::King => 0,
    }
}

/// What a set of pieces is worth together.
pub open spec fn material_of(s: Seq<Role>) -> int
    decreases s.len(),
{
    if s.len() == 0 {
        0
    } else {
        material_of(s.drop_last()) + value_of(s.last())
    }
}

/// How many of a role each side starts with.
pub open spec fn start_count(r: Role) -> nat {
    match r {
        Role::Queen => 1,
        Role::Rook | Role::Bishop | Role::Knight => 2,
        Role::Pawn => 8,
        Role::King => 1,
    }
}

/// `r`, `k` times over.
pub open spec fn repeat(r: Role, k: nat) -> Seq<Role> {
    Seq::new(k, |_i: int| r)
}

/// How many of a role are gone from a side that still has `left` of them.
pub open spec fn missing_of(r: Role, left: Seq<Role>) -> nat {
    if count_role(left, r) < start_count(r) {
        (start_count(r) - count_role(left, r)) as nat
    } else {
        0
    }
}

/// The pieces taken from a side that still has `left` on the board: the
/// queens, then the rooks, bishops, knights and pawns, each as many times
/// as it is short of its starting number.
pub open spec fn taken_of(left: Seq<Role>) -> Seq<Role> {
    repeat(Role::Queen, missing_of(Role::Queen, left)) + repeat(Role::Rook, missing_of(Role::Rook, left))
        + repeat(Role::Bishop, missing_of(Role::Bishop, left)) + repeat(
        Role::Knight,
        missing_of(Role::Knight, left),
    ) + repeat(Role::Pawn, missing_of(Role::Pawn, left))
}

proof fn lemma_material_bounds(s: Seq<Role>)
    ensures
        0 <= material_of(s) <= 9 * s.len(),
    decreases s.len(),
{
    if s.len() > 0 {
        lemma_material_bounds(s.drop_last());
    }
}

proof fn lemma_count_bound(s: Seq<Role>, r: Role)
    ensures
        count_role(s, r) <= s.len(),
    decreases s.len(),
{
    if s.len() > 0 {
        lemma_count_bound(s.drop_last(), r);
    }
}

/// What a piece is worth.
pub fn piece_value(r: Role) -> (v: i64)
    ensures
        v == value_of(r),
{
    match r {
        Role::Pawn => 1,
        Role::Knight | Role::Bishop => 3,
        Role::Rook => 5,
        Role::Queen => 9,
        Role::King => 0,
    }
}

/// What the pieces one side has on the board are worth together. A board
/// holds at most 64 pieces.
pub fn material(pieces: &Vec<Role>) -> (m: i64)
    requires
        pieces.len() <= 64,
    ensures
        m == material_of(pieces@),
{
    let mut m: i64 = 0;
    let mut i: usize = 0;
    while i < pieces.len()
        invariant
            i <= pieces.len() <= 64,
            m == material_of(pieces@.take(i as int)),
        decreases pieces.len() - i,
    {
        proof {
            assert(pieces@.take(i + 1).drop_last() =~= pieces@.take(i as int));
            lemma_material_bounds(pieces@.take(i as int));
        }
        m = m + piece_value(pieces[i]);
        i += 1;
    }
    assert(pieces@.take(i as int) =~= pieces@);
    m
}

fn count_in(pieces: &Vec<Role>, r: Role) -> (n: usize)
    ensures
        n == count_role(pieces@, r),
{
    let mut n: usize = 0;
    let mut i: usize = 0;
    while i < pieces.len()
        invariant
            i <= pieces.len(),
            n == count_role(pieces@.take(i as int), r),
        decreases pieces.len() - i,
    {
        proof {
            assert(pieces@.take(i + 1).drop_last() =~= pieces@.take(i as int));
            lemma_count_bound(pieces@.take(i as int), r);
        }
        if pieces[i] == r {
            n += 1;
        }
        i += 1;
    }
    assert(pieces@.take(i as int) =~= pieces@);
    n
}

fn push_missing(out: &mut Vec<Role>, pieces: &Vec<Role>, r: Role, start: usize)
    requires
        start == start_count(r),
    ensures
        final(out)@ == old(out)@ + repeat(r, missing_of(r, pieces@)),
{
    let left = count_in(pieces, r);
    let mut k = left;
    while k < start
        invariant
            left == count_role(pieces@, r),
            start == start_count(r),
            left <= k <= start || start <= left == k,
            out@ == old(out)@ + repeat(r, (k - left) as nat),
        decreases start - k,
    {
        out.push(r);
        k += 1;
        assert(out@ =~= old(out)@ + repeat(r, (k - left) as nat));
    }
    if left >= start {
        assert(out@ =~= old(out)@ + repeat(r, 0));
    }
}

/// The pieces taken from a side that still has `left` on the board, in
/// the order a tray shows them.
pub fn taken(left: &Vec<Role>) -> (r: Vec<Role>)
    ensures
        r@ == taken_of(left@),
{
    let mut out: Vec<Role> = Vec::new();
    push_missing(&mut out, left, Role::Queen, 1);
    push_missing(&mut out, left, Role::Rook, 2);
    push_missing(&mut out, left, Role::Bishop, 2);
    push_missing(&mut out, left, Role::Knight, 2);
    push_missing(&mut out, left, Role::Pawn, 8);
    assert(out@ =~= taken_of(left@));
    out
}

} // verus!
