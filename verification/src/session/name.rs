//! Player names: what each side calls itself during pairing, and what the
//! other side is prepared to show.
//!
//! A name arrives from a peer we have no reason to trust, so it is cleaned
//! here, where it enters, rather than wherever it happens to be drawn.

use vstd::prelude::*;

use crate::text::{chars_of, string_of};

verus! {

/// The longest name either side keeps, in characters.
pub const NAME_MAX: usize = 24;

/// Unicode general category Cc: the C0 and C1 control codes and DEL.
pub open spec fn is_control_char(c: char) -> bool {
    (c as u32) <= 0x1f || (0x7f <= (c as u32) && (c as u32) <= 0x9f)
}

/// The Unicode White_Space property, as listed in PropList.txt.
pub open spec fn is_white_space(c: char) -> bool {
    let u = c as u32;
    ||| 0x09 <= u <= 0x0d
    ||| u == 0x20
    ||| u == 0x85
    ||| u == 0xa0
    ||| u == 0x1680
    ||| 0x2000 <= u <= 0x200a
    ||| u == 0x2028
    ||| u == 0x2029
    ||| u == 0x202f
    ||| u == 0x205f
    ||| u == 0x3000
}

/// Whether std counts `c` as alphanumeric (Unicode Alphabetic or Numeric).
pub uninterp spec fn is_alphanumeric_char(c: char) -> bool;

/// `char::is_control`: whether `c` is in general category Cc.
#[verifier::external_body]
pub fn is_control(c: char) -> (r: bool)
    ensures
        r == is_control_char(c),
{
    c.is_control()
}

/// `char::is_whitespace`: whether `c` has the Unicode White_Space property.
#[verifier::external_body]
pub fn is_whitespace(c: char) -> (r: bool)
    ensures
        r == is_white_space(c),
{
    c.is_whitespace()
}

/// `char::is_alphanumeric`: Unicode Alphabetic or Numeric. The tables are
/// std's, so the result is only named here, but for ASCII, where the
/// alphabetic characters are the letters and the numeric ones the digits.
#[verifier::external_body]
pub fn is_alphanumeric(c: char) -> (r: bool)
    ensures
        r == is_alphanumeric_char(c),
        (c as u32) < 128 ==> r == (('0' <= c <= '9') || ('a' <= c <= 'z') || ('A' <= c <= 'Z')),
{
    c.is_alphanumeric()
}

/// What breaks a name into words: a control code, which is blanked, or
/// white space.
pub open spec fn separates(c: char) -> bool {
    is_control_char(c) || is_white_space(c)
}

/// Reading `s` left to right, the words so far joined by single spaces,
/// and whether a space is owed before the next word.
pub open spec fn squash_state(s: Seq<char>) -> (Seq<char>, bool)
    decreases s.len(),
{
    if s.len() == 0 {
        (Seq::empty(), false)
    } else {
        let (out, owed) = squash_state(s.drop_last());
        let c = s.last();
        if separates(c) {
            (out, out.len() > 0)
        } else if owed {
            (out.push(' ').push(c), false)
        } else {
            (out.push(c), false)
        }
    }
}

/// The words of `s`, joined by single spaces.
pub open spec fn squash(s: Seq<char>) -> Seq<char> {
    squash_state(s).0
}

pub open spec fn trim_start_of(s: Seq<char>) -> Seq<char>
    decreases s.len(),
{
    if s.len() > 0 && is_white_space(s[0]) {
        trim_start_of(s.drop_first())
    } else {
        s
    }
}

pub open spec fn trim_end_of(s: Seq<char>) -> Seq<char>
    decreases s.len(),
{
    if s.len() > 0 && is_white_space(s.last()) {
        trim_end_of(s.drop_last())
    } else {
        s
    }
}

/// `str::trim`: white space taken off both ends.
pub open spec fn trim_of(s: Seq<char>) -> Seq<char> {
    trim_end_of(trim_start_of(s))
}

pub open spec fn min_nat(a: nat, b: nat) -> nat {
    if a <= b {
        a
    } else {
        b
    }
}

/// The first `NAME_MAX` characters of the name's words.
pub open spec fn shortened(name: Seq<char>) -> Seq<char> {
    squash(name).take(min_nat(squash(name).len(), NAME_MAX as nat) as int)
}

pub open spec fn has_alphanumeric(s: Seq<char>) -> bool {
    exists|i: int| 0 <= i < s.len() && is_alphanumeric_char(#[trigger] s[i])
}

/// A name as it will be shown: its words joined by single spaces, cut to
/// `NAME_MAX` characters and trimmed, or nothing if no letter or digit is
/// left in it.
pub open spec fn clean_of(name: Seq<char>) -> Option<Seq<char>> {
    if has_alphanumeric(shortened(name)) {
        Some(trim_of(shortened(name)))
    } else {
        None
    }
}

/// The shape every cleaned name has: one short line of words with single
/// spaces between them and none at either end.
pub open spec fn is_tidy(s: Seq<char>) -> bool {
    &&& forall|i: int| 0 <= i < s.len() ==> !separates(#[trigger] s[i]) || s[i] == ' '
    &&& s.len() > 0 ==> s[0] != ' ' && s.last() != ' '
    &&& forall|i: int| 0 <= i < s.len() - 1 ==> !(#[trigger] s[i] == ' ' && s[i + 1] == ' ')
}

proof fn lemma_squash_state(s: Seq<char>)
    ensures
        ({
            let (out, owed) = squash_state(s);
            &&& is_tidy(out)
            &&& owed ==> out.len() > 0
        }),
    decreases s.len(),
{
    if s.len() > 0 {
        lemma_squash_state(s.drop_last());
        let (out, owed) = squash_state(s.drop_last());
        let c = s.last();
        if !separates(c) && owed {
            let o2 = out.push(' ').push(c);
            assert forall|i: int| 0 <= i < o2.len() - 1 implies !(#[trigger] o2[i] == ' ' && o2[i + 1]
                == ' ') by {
                if i < out.len() - 1 {
                    assert(o2[i] == out[i] && o2[i + 1] == out[i + 1]);
                }
            }
        } else if !separates(c) {
            let o2 = out.push(c);
            assert forall|i: int| 0 <= i < o2.len() - 1 implies !(#[trigger] o2[i] == ' ' && o2[i + 1]
                == ' ') by {
                if i < out.len() - 1 {
                    assert(o2[i] == out[i] && o2[i + 1] == out[i + 1]);
                }
            }
        }
    }
}

/// Squashed text is tidy, and so is any start of it.
pub proof fn lemma_shortened_tidy(name: Seq<char>)
    ensures
        shortened(name).len() <= NAME_MAX,
        forall|i: int| 0 <= i < shortened(name).len() ==> !separates(#[trigger] shortened(name)[i])
            || shortened(name)[i] == ' ',
        shortened(name).len() > 0 ==> shortened(name)[0] != ' ',
        forall|i: int|
            0 <= i < shortened(name).len() - 1 ==> !(#[trigger] shortened(name)[i] == ' '
                && shortened(name)[i + 1] == ' '),
{
    lemma_squash_state(name);
    let s = squash(name);
    let t = shortened(name);
    assert forall|i: int| 0 <= i < t.len() implies !separates(#[trigger] t[i]) || t[i] == ' ' by {
        assert(t[i] == s[i]);
    }
    assert forall|i: int| 0 <= i < t.len() - 1 implies !(#[trigger] t[i] == ' ' && t[i + 1] == ' ') by {
        assert(t[i] == s[i] && t[i + 1] == s[i + 1]);
    }
}

proof fn lemma_trim_start_is_skip(s: Seq<char>, i: int)
    requires
        0 <= i <= s.len(),
        forall|j: int| 0 <= j < i ==> is_white_space(#[trigger] s[j]),
    ensures
        trim_start_of(s) == trim_start_of(s.skip(i)),
    decreases i,
{
    if i > 0 {
        assert(s.skip(1).skip(i - 1) =~= s.skip(i));
        lemma_trim_start_is_skip(s.drop_first(), i - 1);
    } else {
        assert(s.skip(0) =~= s);
    }
}

proof fn lemma_trim_end_is_take(s: Seq<char>, i: int)
    requires
        0 <= i <= s.len(),
        forall|j: int| i <= j < s.len() ==> is_white_space(#[trigger] s[j]),
    ensures
        trim_end_of(s) == trim_end_of(s.take(i)),
    decreases s.len() - i,
{
    if i < s.len() {
        assert(s.drop_last().take(i) =~= s.take(i));
        lemma_trim_end_is_take(s.drop_last(), i);
    } else {
        assert(s.take(i) =~= s);
    }
}

/// `str::trim` on characters.
pub fn trim_chars(s: &Vec<char>) -> (r: Vec<char>)
    ensures
        r@ == trim_of(s@),
{
    let mut a: usize = 0;
    while a < s.len() && is_whitespace(s[a])
        invariant
            a <= s.len(),
            forall|j: int| 0 <= j < a ==> is_white_space(#[trigger] s@[j]),
        decreases s.len() - a,
    {
        a += 1;
    }
    proof {
        lemma_trim_start_is_skip(s@, a as int);
    }
    let mut mid: Vec<char> = Vec::new();
    let mut k: usize = a;
    while k < s.len()
        invariant
            a <= k <= s.len(),
            mid@ == s@.subrange(a as int, k as int),
        decreases s.len() - k,
    {
        mid.push(s[k]);
        k += 1;
        assert(s@.subrange(a as int, k as int) =~= s@.subrange(a as int, k - 1).push(s@[k - 1]));
    }
    assert(mid@ =~= s@.skip(a as int));
    assert(trim_start_of(s@) == mid@);
    let mut b: usize = mid.len();
    while b > 0 && is_whitespace(mid[b - 1])
        invariant
            b <= mid.len(),
            forall|j: int| b <= j < mid.len() ==> is_white_space(#[trigger] mid@[j]),
        decreases b,
    {
        b -= 1;
    }
    proof {
        lemma_trim_end_is_take(mid@, b as int);
    }
    let mut out: Vec<char> = Vec::new();
    let mut j: usize = 0;
    while j < b
        invariant
            j <= b <= mid.len(),
            out@ == mid@.take(j as int),
        decreases b - j,
    {
        out.push(mid[j]);
        j += 1;
        assert(mid@.take(j as int) =~= mid@.take(j - 1).push(mid@[j - 1]));
    }
    assert(trim_end_of(mid@.take(b as int)) == mid@.take(b as int));
    out
}

/// A name as it will be shown to others: one line, no control characters,
/// and short enough to fit the sidebar. `None` if nothing readable is left.
pub fn clean_name(name: &str) -> (r: Option<String>)
    ensures
        r matches Some(s) ==> clean_of(name@) == Some(s@),
        r is None ==> clean_of(name@) is None,
        r matches Some(s) ==> s@.len() <= NAME_MAX && is_tidy(s@),
        r matches Some(s) ==> clean_of(s@) == Some(s@),
{
    let cs = chars_of(name);
    let mut out: Vec<char> = Vec::new();
    let mut owed = false;
    let mut i: usize = 0;
    while i < cs.len()
        invariant
            i <= cs.len(),
            cs@ == name@,
            (out@, owed) == squash_state(cs@.take(i as int)),
        decreases cs.len() - i,
    {
        let c = cs[i];
        assert(cs@.take(i + 1).drop_last() =~= cs@.take(i as int));
        if is_control(c) || is_whitespace(c) {
            owed = out.len() > 0;
        } else {
            if owed {
                out.push(' ');
            }
            out.push(c);
            owed = false;
        }
        i += 1;
    }
    assert(cs@.take(cs.len() as int) =~= name@);
    let n = if out.len() <= NAME_MAX {
        out.len()
    } else {
        NAME_MAX
    };
    let mut short: Vec<char> = Vec::new();
    let mut j: usize = 0;
    while j < n
        invariant
            j <= n <= out.len(),
            short@ == out@.take(j as int),
        decreases n - j,
    {
        short.push(out[j]);
        j += 1;
        assert(out@.take(j as int) =~= out@.take(j - 1).push(out@[j - 1]));
    }
    assert(short@ == shortened(name@));
    let mut any = false;
    let mut k: usize = 0;
    while k < short.len()
        invariant
            k <= short.len(),
            !any ==> forall|m: int| 0 <= m < k ==> !is_alphanumeric_char(#[trigger] short@[m]),
            any ==> has_alphanumeric(short@),
            forall|m: int|
                0 <= m < k && short@[m] == ' ' ==> !is_alphanumeric_char(#[trigger] short@[m]),
        decreases short.len() - k,
    {
        if is_alphanumeric(short[k]) {
            any = true;
        }
        k += 1;
    }
    if !any {
        return None;
    }
    let trimmed = trim_chars(&short);
    proof {
        lemma_shortened_tidy(name@);
        lemma_trim_keeps_tidy(short@);
        lemma_clean_name_idempotent(name@);
    }
    Some(string_of(&trimmed))
}

proof fn lemma_squash_tidy_prefix(s: Seq<char>, k: int)
    requires
        is_tidy(s),
        0 <= k <= s.len(),
    ensures
        squash_state(s.take(k)) == if k > 0 && s[k - 1] == ' ' {
            (s.take(k - 1), true)
        } else {
            (s.take(k), false)
        },
    decreases k,
{
    if k > 0 {
        lemma_squash_tidy_prefix(s, k - 1);
        assert(s.take(k).drop_last() =~= s.take(k - 1));
        let c = s[k - 1];
        if c == ' ' {
            assert(k - 1 > 0) by {
                if k - 1 == 0 {
                    assert(s[0] == ' ');
                }
            }
            assert(s[k - 2] != ' ');
            assert(separates(' '));
        } else {
            assert(!separates(c));
            if k - 1 > 0 && s[k - 2] == ' ' {
                assert(s.take(k - 2).push(' ').push(c) =~= s.take(k));
            } else {
                assert(s.take(k - 1).push(c) =~= s.take(k));
            }
        }
    }
}

/// The spaces of `t` are not letters or digits.
pub open spec fn spaces_not_alphanumeric(t: Seq<char>) -> bool {
    forall|j: int| 0 <= j < t.len() && t[j] == ' ' ==> !is_alphanumeric_char(#[trigger] t[j])
}

/// Cleaning a clean name leaves it as it is, given that a space is no
/// letter or digit.
proof fn lemma_clean_name_idempotent(name: Seq<char>)
    requires
        spaces_not_alphanumeric(shortened(name)),
    ensures
        clean_of(name) matches Some(s) ==> clean_of(s) == Some(s),
{
    if has_alphanumeric(shortened(name)) {
        let t = shortened(name);
        lemma_shortened_tidy(name);
        lemma_trim_keeps_tidy(t);
        let s = trim_of(t);
        // Squashing a tidy name changes nothing.
        lemma_squash_tidy_prefix(s, s.len() as int);
        assert(s.take(s.len() as int) =~= s);
        if s.len() > 0 {
            assert(s.last() != ' ');
        }
        assert(squash(s) == s);
        assert(shortened(s) =~= s);
        // Trimming only ever took white space, and no letter or digit is that.
        lemma_trim_end_facts(t);
        assert(trim_start_of(t) == t) by {
            if t.len() > 0 {
                assert(!is_white_space(t[0]));
            }
        }
        let i = choose|i: int| 0 <= i < t.len() && is_alphanumeric_char(#[trigger] t[i]);
        lemma_trimmed_keeps(t, i);
        assert(has_alphanumeric(s)) by {
            assert(s[i] == t[i]);
        }
        // Nothing at either end to trim.
        if s.len() > 0 {
            assert(!is_white_space(s[0]));
            assert(!is_white_space(s.last()));
        }
        assert(trim_start_of(s) == s);
        assert(trim_end_of(s) == s);
    }
}

/// A letter or digit of a tidy start of squashed text survives its trimming.
proof fn lemma_trimmed_keeps(t: Seq<char>, i: int)
    requires
        0 <= i < t.len(),
        is_alphanumeric_char(t[i]),
        forall|j: int| 0 <= j < t.len() ==> !separates(#[trigger] t[j]) || t[j] == ' ',
        spaces_not_alphanumeric(t),
    ensures
        i < trim_end_of(t).len(),
        trim_end_of(t)[i] == t[i],
    decreases t.len(),
{
    if t.len() > 0 && is_white_space(t.last()) {
        if i == t.len() - 1 {
            // White space in tidy text is a plain space, which is no letter.
            assert(separates(t.last()));
            assert(t[i] == ' ');
        } else {
            let u = t.drop_last();
            assert forall|j: int| 0 <= j < u.len() implies !separates(#[trigger] u[j]) || u[j] == ' ' by {
                assert(u[j] == t[j]);
            }
            assert forall|j: int| 0 <= j < u.len() && u[j] == ' ' implies !is_alphanumeric_char(
                #[trigger] u[j],
            ) by {
                assert(u[j] == t[j]);
            }
            lemma_trimmed_keeps(u, i);
        }
    }
}

/// Trimming a tidy start of squashed text leaves it tidy.
proof fn lemma_trim_keeps_tidy(t: Seq<char>)
    requires
        t.len() <= NAME_MAX,
        forall|i: int| 0 <= i < t.len() ==> !separates(#[trigger] t[i]) || t[i] == ' ',
        t.len() > 0 ==> t[0] != ' ',
        forall|i: int| 0 <= i < t.len() - 1 ==> !(#[trigger] t[i] == ' ' && t[i + 1] == ' '),
    ensures
        trim_of(t).len() <= NAME_MAX,
        is_tidy(trim_of(t)),
{
    // Nothing leads with white space, so only the end can go.
    if t.len() > 0 {
        assert(!is_white_space(t[0]));
    }
    assert(trim_start_of(t) == t);
    lemma_trim_end_facts(t);
}

proof fn lemma_trim_end_facts(t: Seq<char>)
    requires
        forall|i: int| 0 <= i < t.len() ==> !separates(#[trigger] t[i]) || t[i] == ' ',
        t.len() > 0 ==> t[0] != ' ',
        forall|i: int| 0 <= i < t.len() - 1 ==> !(#[trigger] t[i] == ' ' && t[i + 1] == ' '),
    ensures
        trim_end_of(t).len() <= t.len(),
        is_tidy(trim_end_of(t)),
        trim_end_of(t) == t.take(trim_end_of(t).len() as int),
    decreases t.len(),
{
    if t.len() > 0 && is_white_space(t.last()) {
        let u = t.drop_last();
        assert forall|i: int| 0 <= i < u.len() implies !separates(#[trigger] u[i]) || u[i] == ' ' by {
            assert(u[i] == t[i]);
        }
        assert forall|i: int| 0 <= i < u.len() - 1 implies !(#[trigger] u[i] == ' ' && u[i + 1]
            == ' ') by {
            assert(u[i] == t[i] && u[i + 1] == t[i + 1]);
        }
        lemma_trim_end_facts(u);
        let r = trim_end_of(u);
        assert(r =~= t.take(r.len() as int));
    } else {
        assert(t.take(t.len() as int) =~= t);
        if t.len() > 0 {
            // The last character is not white space, and a space would be.
            assert(t.last() != ' ');
        }
    }
}

} // verus!
