//! Small string helpers shared by every module: building text a character
//! at a time, and reading a `str` back as characters.

use vstd::prelude::*;

verus! {

broadcast use vstd::string::group_string_axioms;

/// `String::push`: the string with `c` added at the end.
#[verifier::external_body]
pub fn push_char(s: &mut String, c: char)
    ensures
        final(s)@ == old(s)@.push(c),
{
    s.push(c);
}

/// The characters of `s`, in order.
pub fn chars_of(s: &str) -> (r: Vec<char>)
    ensures
        r@ == s@,
{
    let mut out: Vec<char> = Vec::new();
    for c in it: s.chars()
        invariant
            it.seq() == s@,
            out@ == it.seq().take(it.index() as int),
    {
        out.push(c);
    }
    out
}

/// A string holding exactly the characters of `cs`.
pub fn string_of(cs: &Vec<char>) -> (r: String)
    ensures
        r@ == cs@,
{
    let mut out = String::new();
    let mut i: usize = 0;
    while i < cs.len()
        invariant
            i <= cs.len(),
            out@ == cs@.take(i as int),
        decreases cs.len() - i,
    {
        push_char(&mut out, cs[i]);
        i += 1;
        assert(cs@.take(i as int) == cs@.take(i - 1).push(cs@[i - 1]));
    }
    assert(cs@.take(cs.len() as int) == cs@);
    out
}

/// Whether two strings hold the same characters.
pub fn str_eq(a: &str, b: &str) -> (r: bool)
    ensures
        r == (a@ == b@),
{
    let x = chars_of(a);
    let y = chars_of(b);
    if x.len() != y.len() {
        return false;
    }
    let mut i: usize = 0;
    while i < x.len()
        invariant
            x.len() == y.len(),
            x@ == a@,
            y@ == b@,
            i <= x.len(),
            forall|j: int| 0 <= j < i ==> x@[j] == y@[j],
        decreases x.len() - i,
    {
        if x[i] != y[i] {
            return false;
        }
        i += 1;
    }
    assert(x@ =~= y@);
    true
}

/// `s` followed by `t`, as a new string.
pub fn joined(s: &str, t: &str) -> (r: String)
    ensures
        r@ == s@ + t@,
{
    let mut out = String::new();
    let cs = chars_of(s);
    let ts = chars_of(t);
    let mut i: usize = 0;
    while i < cs.len()
        invariant
            i <= cs.len(),
            cs@ == s@,
            out@ == s@.take(i as int),
        decreases cs.len() - i,
    {
        push_char(&mut out, cs[i]);
        i += 1;
        assert(s@.take(i as int) == s@.take(i - 1).push(s@[i - 1]));
    }
    assert(s@.take(cs.len() as int) == s@);
    let mut k: usize = 0;
    while k < ts.len()
        invariant
            k <= ts.len(),
            ts@ == t@,
            out@ == s@ + t@.take(k as int),
        decreases ts.len() - k,
    {
        push_char(&mut out, ts[k]);
        k += 1;
        assert(t@.take(k as int) == t@.take(k - 1).push(t@[k - 1]));
        assert(s@ + t@.take(k as int) == (s@ + t@.take(k - 1)).push(t@[k - 1]));
    }
    assert(t@.take(ts.len() as int) == t@);
    out
}

/// The decimal digits of `n`, most significant first, with no leading zeros.
pub open spec fn decimal(n: nat) -> Seq<char>
    decreases n,
{
    if n < 10 {
        seq![digit_char(n)]
    } else {
        decimal(n / 10).push(digit_char(n % 10))
    }
}

/// The character for a digit from 0 to 9.
pub open spec fn digit_char(d: nat) -> char {
    ((d + 48) as u32) as char
}

/// `n` written in decimal, as `format!("{n}")` would.
pub fn decimal_string(n: u64) -> (r: String)
    ensures
        r@ == decimal(n as nat),
{
    let mut digits: Vec<char> = Vec::new();
    let mut m: u64 = n;
    // digits holds the low-order digits of n, least significant first.
    while m >= 10
        invariant
            decimal(n as nat) == decimal(m as nat) + digits@.reverse(),
        decreases m,
    {
        let d = m % 10;
        let c = ((d + 48) as u8) as char;
        assert(c == digit_char(d as nat));
        proof {
            assert(decimal(m as nat) == decimal((m / 10) as nat).push(digit_char((m % 10) as nat)));
            assert(digits@.push(c).reverse() =~= seq![c] + digits@.reverse());
        }
        digits.push(c);
        m = m / 10;
    }
    let c = ((m + 48) as u8) as char;
    assert(c == digit_char(m as nat));
    digits.push(c);
    assert(digits@.reverse() =~= seq![c] + digits@.drop_last().reverse());
    let mut out = String::new();
    let mut i: usize = digits.len();
    while i > 0
        invariant
            i <= digits.len(),
            out@ == digits@.subrange(i as int, digits.len() as int).reverse(),
        decreases i,
    {
        i -= 1;
        push_char(&mut out, digits[i]);
        assert(digits@.subrange(i as int, digits.len() as int).reverse() =~= digits@.subrange(
            i + 1,
            digits.len() as int,
        ).reverse().push(digits@[i as int]));
    }
    assert(digits@.subrange(0, digits.len() as int) =~= digits@);
    out
}

/// ASCII upper case letters lowered; everything else as it was.
pub open spec fn ascii_lower(c: char) -> char {
    if 'A' <= c <= 'Z' {
        ((c as u32) + 32) as char
    } else {
        c
    }
}

pub open spec fn ascii_lowercase(s: Seq<char>) -> Seq<char> {
    s.map_values(|c: char| ascii_lower(c))
}

/// `str::to_lowercase`: Unicode lower case. Nothing is claimed of text with
/// letters beyond ASCII; ASCII text has its capitals lowered and nothing else
/// changed, as Unicode's case mapping does for that range.
#[verifier::external_body]
pub fn to_lowercase(s: &str) -> (r: String)
    ensures
        vstd::utf8::is_ascii_chars(s@) ==> r@ == ascii_lowercase(s@),
{
    s.to_lowercase()
}

/// `str::eq_ignore_ascii_case`: equal once ASCII letters are lowered.
pub fn eq_ignore_ascii_case(a: &str, b: &str) -> (r: bool)
    ensures
        r == (ascii_lowercase(a@) == ascii_lowercase(b@)),
{
    let x = chars_of(a);
    let y = chars_of(b);
    if x.len() != y.len() {
        assert(ascii_lowercase(a@).len() != ascii_lowercase(b@).len());
        return false;
    }
    let mut i: usize = 0;
    while i < x.len()
        invariant
            x.len() == y.len(),
            x@ == a@,
            y@ == b@,
            i <= x.len(),
            forall|j: int| 0 <= j < i ==> ascii_lower(x@[j]) == ascii_lower(y@[j]),
        decreases x.len() - i,
    {
        let p = lower_char(x[i]);
        let q = lower_char(y[i]);
        if p != q {
            assert(ascii_lowercase(a@)[i as int] != ascii_lowercase(b@)[i as int]);
            return false;
        }
        i += 1;
    }
    assert(ascii_lowercase(a@) =~= ascii_lowercase(b@));
    true
}

/// One character with an ASCII capital lowered.
pub fn lower_char(c: char) -> (r: char)
    ensures
        r == ascii_lower(c),
{
    if 'A' <= c && c <= 'Z' {
        ((c as u8) + 32) as char
    } else {
        c
    }
}

/// Where the first space in `s` is, or its length if there is none.
pub open spec fn first_space(s: Seq<char>) -> int
    decreases s.len(),
{
    if s.len() == 0 {
        0
    } else if s[0] == ' ' {
        0
    } else {
        1 + first_space(s.drop_first())
    }
}

pub proof fn lemma_first_space(s: Seq<char>)
    ensures
        0 <= first_space(s) <= s.len(),
        forall|j: int| 0 <= j < first_space(s) ==> s[j] != ' ',
        first_space(s) < s.len() ==> s[first_space(s)] == ' ',
    decreases s.len(),
{
    if s.len() > 0 && s[0] != ' ' {
        lemma_first_space(s.drop_first());
        assert forall|j: int| 0 <= j < first_space(s) implies s[j] != ' ' by {
            if j > 0 {
                assert(s[j] == s.drop_first()[j - 1]);
            }
        }
    }
}

pub proof fn lemma_first_space_at(s: Seq<char>, i: int)
    requires
        0 <= i <= s.len(),
        forall|j: int| 0 <= j < i ==> s[j] != ' ',
        i < s.len() ==> s[i] == ' ',
    ensures
        first_space(s) == i,
    decreases i,
{
    if i > 0 {
        lemma_first_space_at(s.drop_first(), i - 1);
    }
}

/// `str::split_once(' ')`: the text before the first space and after it.
pub open spec fn split_space_of(s: Seq<char>) -> Option<(Seq<char>, Seq<char>)> {
    if s.contains(' ') {
        let i = first_space(s);
        Some((s.take(i), s.skip(i + 1)))
    } else {
        None
    }
}

/// Splits at the first space, if there is one.
pub fn split_space(cs: &Vec<char>) -> (r: Option<(Vec<char>, Vec<char>)>)
    ensures
        match r {
            Some((a, b)) => split_space_of(cs@) == Some((a@, b@)),
            None => split_space_of(cs@) is None,
        },
{
    let n = cs.len();
    let mut i: usize = 0;
    while i < n && cs[i] != ' '
        invariant
            i <= n == cs.len(),
            forall|j: int| 0 <= j < i ==> cs@[j] != ' ',
        decreases n - i,
    {
        i += 1;
    }
    proof {
        lemma_first_space_at(cs@, i as int);
    }
    if i == n {
        assert(!cs@.contains(' ')) by {
            if cs@.contains(' ') {
                let j = choose|j: int| 0 <= j < cs@.len() && cs@[j] == ' ';
                assert(cs@[j] != ' ');
            }
        }
        return None;
    }
    assert(cs@.contains(' ')) by {
        assert(cs@[i as int] == ' ');
    }
    let mut a: Vec<char> = Vec::new();
    let mut k: usize = 0;
    while k < i
        invariant
            k <= i < n == cs.len(),
            a@ == cs@.take(k as int),
        decreases i - k,
    {
        a.push(cs[k]);
        k += 1;
        assert(cs@.take(k as int) =~= cs@.take(k - 1).push(cs@[k - 1]));
    }
    let mut b: Vec<char> = Vec::new();
    let mut m: usize = i + 1;
    while m < n
        invariant
            i < n == cs.len(),
            i + 1 <= m <= n,
            b@ == cs@.subrange(i + 1, m as int),
        decreases n - m,
    {
        b.push(cs[m]);
        m += 1;
        assert(cs@.subrange(i + 1, m as int) =~= cs@.subrange(i + 1, m - 1).push(cs@[m - 1]));
    }
    assert(b@ =~= cs@.skip(i + 1));
    Some((a, b))
}

/// Whether `cs` holds exactly the characters of `word`.
pub fn chars_eq(cs: &Vec<char>, word: &str) -> (r: bool)
    ensures
        r == (cs@ == word@),
{
    let w = chars_of(word);
    if cs.len() != w.len() {
        return false;
    }
    let mut i: usize = 0;
    while i < cs.len()
        invariant
            cs.len() == w.len(),
            w@ == word@,
            i <= cs.len(),
            forall|j: int| 0 <= j < i ==> cs@[j] == w@[j],
        decreases cs.len() - i,
    {
        if cs[i] != w[i] {
            return false;
        }
        i += 1;
    }
    assert(cs@ =~= w@);
    true
}

} // verus!
