//! What the two sides say before the game starts, one line at a time.

use vstd::prelude::*;
use vstd::utf8::encode_utf8;

use spake2::{Ed25519Group, Identity, Password, Spake2};

use super::Game;
use crate::text::{chars_eq, chars_of, decimal, decimal_string, joined, split_space, split_space_of, string_of};

verus! {

broadcast use vstd::string::group_string_axioms;

/// The peer used a different code. The host counts these; anything else going
/// wrong mid-handshake is just a dropped attempt.
#[derive(Clone, Copy, Debug, PartialEq, Eq, Structural)]
pub struct WrongCode;

impl WrongCode {
    pub fn message(&self) -> (r: &'static str)
        ensures
            r@ == "the code did not match \u{2014} check it with your opponent"@,
    {
        "the code did not match \u{2014} check it with your opponent"
    }
}

/// The joiner got in but cannot play the host's game.
#[derive(Clone, Copy, Debug, PartialEq, Eq, Structural)]
pub struct Declined;

impl Declined {
    pub fn message(&self) -> (r: &'static str)
        ensures
            r@ == "your opponent's build cannot play this game"@,
    {
        "your opponent's build cannot play this game"
    }
}

/// The lowercase hex digit for a value below 16.
pub open spec fn hex_digit(n: nat) -> char {
    if n < 10 {
        ((n + 48) as u32) as char
    } else {
        ((n + 87) as u32) as char
    }
}

/// Bytes in lowercase hex, two digits each, high nibble first.
pub open spec fn hex_of(bytes: Seq<u8>) -> Seq<char> {
    Seq::new(
        2 * bytes.len(),
        |i: int|
            if i % 2 == 0 {
                hex_digit((bytes[i / 2] / 16) as nat)
            } else {
                hex_digit((bytes[i / 2] % 16) as nat)
            },
    )
}

/// How an endpoint id is shown in short: its first five bytes in hex.
pub open spec fn short_id_of(id: Seq<u8>) -> Seq<char> {
    hex_of(id.take(5))
}

/// Lowercase hex of `bytes`.
pub fn hex(bytes: &[u8]) -> (r: String)
    ensures
        r@ == hex_of(bytes@),
{
    let mut out = String::new();
    let mut i: usize = 0;
    while i < bytes.len()
        invariant
            i <= bytes.len(),
            out@ == hex_of(bytes@.take(i as int)),
        decreases bytes.len() - i,
    {
        let b = bytes[i];
        let hi = nibble(b / 16);
        let lo = nibble(b % 16);
        crate::text::push_char(&mut out, hi);
        crate::text::push_char(&mut out, lo);
        i += 1;
        assert(hex_of(bytes@.take(i as int)) =~= hex_of(bytes@.take(i - 1)).push(hi).push(lo));
    }
    assert(bytes@.take(bytes.len() as int) =~= bytes@);
    out
}

fn nibble(n: u8) -> (c: char)
    requires
        n < 16,
    ensures
        c == hex_digit(n as nat),
{
    if n < 10 {
        (n + 48) as char
    } else {
        (n + 87) as char
    }
}

/// An endpoint id in short, for when the peer has not said its name.
pub fn short_id(id: &[u8; 32]) -> (r: String)
    ensures
        r@ == short_id_of(id@),
{
    let first: Vec<u8> = vec![id[0], id[1], id[2], id[3], id[4]];
    assert(first@ =~= id@.take(5));
    hex(first.as_slice())
}

/// The value of a hex digit in either case.
pub open spec fn hex_value(c: char) -> Option<nat> {
    if '0' <= c <= '9' {
        Some((c as u32 - 48) as nat)
    } else if 'a' <= c <= 'f' {
        Some((c as u32 - 87) as nat)
    } else if 'A' <= c <= 'F' {
        Some((c as u32 - 55) as nat)
    } else {
        None
    }
}

/// `u8::from_str_radix(_, 16)` on two characters: two hex digits, or a
/// plus sign and one.
pub open spec fn pair_value(a: char, b: char) -> Option<u8> {
    if a == '+' {
        match hex_value(b) {
            Some(y) => Some(y as u8),
            None => None,
        }
    } else {
        match (hex_value(a), hex_value(b)) {
            (Some(x), Some(y)) => Some((16 * x + y) as u8),
            _ => None,
        }
    }
}

/// The bytes a hex string from the peer stands for: ASCII, an even number
/// of characters, and every pair of them a byte.
pub open spec fn unhex_of(s: Seq<char>) -> Option<Seq<u8>> {
    if s.len() % 2 != 0 || !vstd::utf8::is_ascii_chars(s) {
        None
    } else if forall|i: int| 0 <= i < s.len() / 2 ==> (#[trigger] pair_value(s[2 * i], s[2 * i + 1])) is Some {
        Some(Seq::new((s.len() / 2) as nat, |i: int| pair_value(s[2 * i], s[2 * i + 1])->0))
    } else {
        None
    }
}

fn hex_digit_value(c: char) -> (r: Option<u8>)
    ensures
        match hex_value(c) {
            Some(v) => r == Some(v as u8),
            None => r is None,
        },
{
    if '0' <= c && c <= '9' {
        Some(((c as u32) - 48) as u8)
    } else if 'a' <= c && c <= 'f' {
        Some(((c as u32) - 87) as u8)
    } else if 'A' <= c && c <= 'F' {
        Some(((c as u32) - 55) as u8)
    } else {
        None
    }
}

/// What `u8::from_str_radix(pair, 16)` gives for two characters: a byte
/// from two hex digits, or from a plus sign and one.
fn byte_from_hex(pair: &str) -> (r: Option<u8>)
    requires
        pair@.len() == 2,
    ensures
        r == pair_value(pair@[0], pair@[1]),
{
    let cs = chars_of(pair);
    let (a, b) = (cs[0], cs[1]);
    if a == '+' {
        return hex_digit_value(b);
    }
    match (hex_digit_value(a), hex_digit_value(b)) {
        (Some(x), Some(y)) => Some(16 * x + y),
        _ => None,
    }
}

/// Hex from the peer wasn't: an odd length, something not ASCII, or a pair
/// that is not a byte.
#[derive(Clone, Copy, Debug, PartialEq, Eq, Structural)]
pub struct BadHex;

/// The bytes behind the peer's hex.
pub fn unhex(s: &str) -> (r: Result<Vec<u8>, BadHex>)
    ensures
        match r {
            Ok(v) => unhex_of(s@) == Some(v@),
            Err(_) => unhex_of(s@) is None,
        },
{
    // Checked up front so the slicing below cannot split a character.
    if !s.is_ascii() {
        return Err(BadHex);
    }
    let cs = chars_of(s);
    let n = cs.len();
    if n % 2 != 0 {
        return Err(BadHex);
    }
    let mut out: Vec<u8> = Vec::new();
    let mut i: usize = 0;
    while i < n
        invariant
            n == cs.len() == s@.len(),
            n % 2 == 0,
            i % 2 == 0,
            i <= n,
            cs@ == s@,
            s.is_ascii(),
            out@.len() == i / 2,
            forall|k: int| 0 <= k < i / 2 ==> (#[trigger] pair_value(s@[2 * k], s@[2 * k + 1])) == Some(
                out@[k],
            ),
        decreases n - i,
    {
        let pair = s.substring_ascii(i, i + 2);
        assert(pair@[0] == s@[i as int] && pair@[1] == s@[i + 1]);
        match byte_from_hex(pair) {
            Some(b) => {
                out.push(b);
            },
            None => {
                assert(!(pair_value(s@[2 * (i / 2) as int], s@[2 * (i / 2) as int + 1]) is Some));
                return Err(BadHex);
            },
        }
        i += 2;
    }
    assert(out@ =~= Seq::new((s@.len() / 2) as nat, |k: int| pair_value(s@[2 * k], s@[2 * k + 1])->0));
    Ok(out)
}

proof fn lemma_hex_digit_value(n: nat)
    requires
        n < 16,
    ensures
        hex_value(hex_digit(n)) == Some(n),
        hex_digit(n) != '+',
        (hex_digit(n) as u32) < 128,
{
}

/// Whatever bytes are sent as hex come back as the same bytes.
pub proof fn lemma_unhex_hex(bytes: Seq<u8>)
    ensures
        unhex_of(hex_of(bytes)) == Some(bytes),
{
    let h = hex_of(bytes);
    assert forall|i: int| 0 <= i < h.len() implies (h[i] as u32) < 128 by {
        if i % 2 == 0 {
            lemma_hex_digit_value((bytes[i / 2] / 16) as nat);
        } else {
            lemma_hex_digit_value((bytes[i / 2] % 16) as nat);
        }
    }
    assert(vstd::utf8::is_ascii_chars(h));
    assert forall|i: int| 0 <= i < h.len() / 2 implies (#[trigger] pair_value(h[2 * i], h[2 * i + 1]))
        == Some(bytes[i]) by {
        assert((2 * i) / 2 == i);
        assert((2 * i + 1) / 2 == i);
        lemma_hex_digit_value((bytes[i] / 16) as nat);
        lemma_hex_digit_value((bytes[i] % 16) as nat);
    }
    assert(Seq::new((h.len() / 2) as nat, |i: int| pair_value(h[2 * i], h[2 * i + 1])->0) =~= bytes);
}

/// Which side of the handshake a confirmation comes from.
#[derive(Clone, Copy, Debug, PartialEq, Eq, Structural)]
pub enum Role {
    Host,
    Joiner,
}

pub open spec fn role_byte(r: Role) -> u8 {
    match r {
        Role::Host => 0,
        Role::Joiner => 1,
    }
}

/// Who is in the handshake: the host's and the joiner's endpoint ids, which
/// iroh has already authenticated.
pub type Ids = ([u8; 32], [u8; 32]);

pub open spec fn word_confirm_bytes() -> Seq<u8> {
    seq![99u8, 111, 110, 102, 105, 114, 109]
}

/// What a confirmation is keyed over: the word, the side, and both ids.
pub open spec fn tag_input(role: Role, ids: Ids) -> Seq<u8> {
    word_confirm_bytes() + seq![role_byte(role)] + ids.0@ + ids.1@
}

/// BLAKE3 in keyed mode, as `blake3::keyed_hash` computes it.
pub uninterp spec fn keyed_hash_of(key: Seq<u8>, input: Seq<u8>) -> Seq<u8>;

/// `blake3::keyed_hash`: the 32-byte keyed BLAKE3 hash of `input`. The
/// result is only named; the hash itself is blake3's.
#[verifier::external_body]
fn keyed_hash(key: &[u8], input: &[u8]) -> (r: [u8; 32])
    requires
        key@.len() == 32,
    ensures
        r@ == keyed_hash_of(key@, input@),
{
    let key: &[u8; 32] = key.try_into().unwrap();
    *blake3::keyed_hash(key, input).as_bytes()
}

/// The confirmation one side sends to prove it reached the same key.
pub open spec fn tag_of(key: Seq<u8>, role: Role, ids: Ids) -> Seq<u8> {
    keyed_hash_of(key, tag_input(role, ids))
}

/// The proof that `role` reached `key`, bound to both endpoint ids.
pub fn tag(key: &Vec<u8>, role: Role, ids: &Ids) -> (r: [u8; 32])
    requires
        key@.len() == 32,
    ensures
        r@ == tag_of(key@, role, *ids),
{
    let mut input: Vec<u8> = vec![99u8, 111, 110, 102, 105, 114, 109];
    input.push(
        match role {
            Role::Host => 0u8,
            Role::Joiner => 1u8,
        },
    );
    let mut i: usize = 0;
    while i < 32
        invariant
            i <= 32,
            input@ == word_confirm_bytes() + seq![role_byte(role)] + ids.0@.take(i as int),
        decreases 32 - i,
    {
        input.push(ids.0[i]);
        i += 1;
        assert(ids.0@.take(i as int) =~= ids.0@.take(i - 1).push(ids.0@[i - 1]));
    }
    assert(ids.0@.take(32) =~= ids.0@);
    let mut j: usize = 0;
    while j < 32
        invariant
            j <= 32,
            input@ == word_confirm_bytes() + seq![role_byte(role)] + ids.0@ + ids.1@.take(j as int),
        decreases 32 - j,
    {
        input.push(ids.1[j]);
        j += 1;
        assert(ids.1@.take(j as int) =~= ids.1@.take(j - 1).push(ids.1@[j - 1]));
    }
    assert(ids.1@.take(32) =~= ids.1@);
    keyed_hash(key.as_slice(), input.as_slice())
}

/// `blake3::Hash::from_hex` on characters: exactly 64 hex digits, in
/// either case, read two to a byte.
pub open spec fn hash_hex_of(s: Seq<char>) -> Option<Seq<u8>> {
    if s.len() == 64 && forall|i: int| 0 <= i < 64 ==> (#[trigger] hex_value(s[i])) is Some {
        Some(Seq::new(32, |i: int| (16 * hex_value(s[2 * i])->0 + hex_value(s[2 * i + 1])->0) as u8))
    } else {
        None
    }
}

/// `blake3::Hash::from_hex`: as its documentation says, 64 characters, each
/// a hex digit in either case; anything else is an error.
#[verifier::external_body]
fn hash_from_hex(s: &str) -> (r: Option<[u8; 32]>)
    ensures
        match r {
            Some(h) => hash_hex_of(s@) == Some(h@),
            None => hash_hex_of(s@) is None,
        },
{
    match blake3::Hash::from_hex(s) {
        Ok(h) => Some(*h.as_bytes()),
        Err(_) => None,
    }
}

/// `blake3::Hash`'s `==`, which compares in constant time.
#[verifier::external_body]
fn hash_eq(a: &[u8; 32], b: &[u8; 32]) -> (r: bool)
    ensures
        r == (a@ == b@),
{
    blake3::Hash::from_bytes(*a) == blake3::Hash::from_bytes(*b)
}

/// Whether the peer's confirmation is the one we expect. Parsed and compared
/// as hashes, so the comparison takes the same time wherever they differ.
pub fn matches(claimed: &str, expected: &[u8; 32]) -> (r: bool)
    ensures
        r == (hash_hex_of(claimed@) == Some(expected@)),
{
    match hash_from_hex(claimed) {
        Some(h) => hash_eq(&h, expected),
        None => false,
    }
}

/// The identity both sides give SPAKE2.
pub open spec fn identity_bytes() -> Seq<u8> {
    // "chess-p2p/session/1"
    seq![99u8, 104, 101, 115, 115, 45, 112, 50, 112, 47, 115, 101, 115, 115, 105, 111, 110, 47, 49]
}

/// SPAKE2's own state for an exchange on the Ed25519 group: its secret
/// scalar and transcript. Nothing here reads inside it; only the two
/// wrappers below hand it to spake2.
#[verifier::external_body]
struct SpakeState {
    state: Spake2<Ed25519Group>,
}

/// A SPAKE2 exchange under way, and what it was started with: the password
/// it is keyed by and the identity both sides give.
pub struct KeyExchange {
    state: SpakeState,
    password: Ghost<Seq<u8>>,
    identity: Ghost<Seq<u8>>,
}

impl KeyExchange {
    /// The password the exchange is keyed by.
    pub closed spec fn password(&self) -> Seq<u8> {
        self.password@
    }

    /// The identity the exchange was started with.
    pub closed spec fn identity(&self) -> Seq<u8> {
        self.identity@
    }
}

/// `Spake2::<Ed25519Group>::start_symmetric`: a fresh exchange keyed by the
/// password, and the message to send. The message is random; what is stated
/// is its shape, from the source: the symmetric side byte `S` and a 32-byte
/// group element. The exchange is keyed by exactly the password and
/// identity handed in.
#[verifier::external_body]
fn spake_start(password: &[u8], identity: &[u8]) -> (r: (KeyExchange, Vec<u8>))
    ensures
        r.0.password() == password@,
        r.0.identity() == identity@,
        r.1@.len() == 33,
        r.1@[0] == 0x53,
{
    let (state, msg) = Spake2::<Ed25519Group>::start_symmetric(
        &Password::new(password),
        &Identity::new(identity),
    );
    (
        KeyExchange {
            state: SpakeState { state },
            password: Ghost(password@),
            identity: Ghost(identity@),
        },
        msg,
    )
}

/// Whether 32 bytes are the compressed form of a point on Ed25519, as
/// curve25519-dalek's `CompressedEdwardsY::decompress` decides it.
pub uninterp spec fn point_decodes(b: Seq<u8>) -> bool;

/// `Spake2::finish`: the shared key, from the peer's message. From the
/// source, for an exchange started symmetric: a message that is not 33
/// bytes starting with `S` is refused; a well-shaped one gives a key exactly
/// when its last 32 bytes decompress to a point; and a key is a SHA-256
/// digest of 32 bytes. The key's value is left unsaid.
#[verifier::external_body]
fn spake_finish(exchange: KeyExchange, theirs: &[u8]) -> (r: Option<Vec<u8>>)
    ensures
        (theirs@.len() != 33 || theirs@[0] != 0x53) ==> r is None,
        (theirs@.len() == 33 && theirs@[0] == 0x53) ==> (r is Some <==> point_decodes(
            theirs@.skip(1),
        )),
        r matches Some(k) ==> k@.len() == 32,
{
    exchange.state.state.finish(theirs).ok()
}

/// Starts the key exchange for a code, returning the state and our message.
/// The exchange is keyed by the code's bytes.
pub fn start(code: &str) -> (r: (KeyExchange, Vec<u8>))
    ensures
        r.0.password() == encode_utf8(code@),
        r.0.identity() == identity_bytes(),
        r.1@.len() == 33,
        r.1@[0] == 0x53,
{
    let id: Vec<u8> = vec![99u8, 104, 101, 115, 115, 45, 112, 50, 112, 47, 115, 101, 115, 115, 105, 111, 110, 47, 49];
    assert(id@ == identity_bytes());
    spake_start(code.as_bytes(), id.as_slice())
}

/// Why a handshake came to nothing.
#[derive(Clone, Debug, PartialEq, Eq)]
pub enum Failure {
    /// The peer used a different code.
    WrongCode,
    /// The peer cannot play the host's game.
    Declined,
    /// The peer backed out with `no <why>`.
    Refused(String),
    /// The peer said something other than the expected verb: the verb, and
    /// what it said instead.
    Unexpected(String, String),
    /// The peer's key exchange was not hex.
    BadHex,
    /// The peer's key exchange did not work.
    BadKeyExchange,
    /// The key exchange gave a key of the wrong size.
    WrongKeySize,
    /// The host plays a game this build does not have: what it offered.
    Unsupported(String),
    /// The peer hung up partway.
    HungUp,
}

/// What the player is told when a handshake comes to nothing. The verb and
/// word of an unexpected line are quoted as they came.
pub open spec fn failure_message(f: Failure) -> Seq<char> {
    match f {
        Failure::WrongCode => "the code did not match \u{2014} check it with your opponent"@,
        Failure::Declined => "your opponent's build cannot play this game"@,
        Failure::Refused(why) => "peer refused: "@ + why@,
        Failure::Unexpected(verb, word) => "expected \""@ + verb@ + "\" from peer, got \""@ + word@
            + "\""@,
        Failure::BadHex => "bad hex from peer"@,
        Failure::BadKeyExchange => "peer sent a bad key exchange"@,
        Failure::WrongKeySize => "key exchange gave a key of the wrong size"@,
        Failure::Unsupported(offer) => "your opponent is playing "@ + offer@
            + ", which this build does not have"@,
        Failure::HungUp => "peer hung up during the handshake"@,
    }
}

impl Failure {
    /// What to tell the player.
    pub fn message(&self) -> (r: String)
        ensures
            r@ == failure_message(*self),
    {
        match self {
            Failure::WrongCode => String::from_str("the code did not match \u{2014} check it with your opponent"),
            Failure::Declined => String::from_str("your opponent's build cannot play this game"),
            Failure::Refused(why) => joined("peer refused: ", why.as_str()),
            Failure::Unexpected(verb, word) => {
                let a = joined("expected \"", verb.as_str());
                let b = joined(a.as_str(), "\" from peer, got \"");
                let c = joined(b.as_str(), word.as_str());
                joined(c.as_str(), "\"")
            },
            Failure::BadHex => String::from_str("bad hex from peer"),
            Failure::BadKeyExchange => String::from_str("peer sent a bad key exchange"),
            Failure::WrongKeySize => String::from_str("key exchange gave a key of the wrong size"),
            Failure::Unsupported(offer) => {
                let a = joined("your opponent is playing ", offer.as_str());
                joined(a.as_str(), ", which this build does not have")
            },
            Failure::HungUp => String::from_str("peer hung up during the handshake"),
        }
    }
}

/// What the exchange's outcome comes to: no key means the peer's message
/// did not work; a key must be 32 bytes.
pub open spec fn key_of(outcome: Option<Seq<u8>>) -> Result<Seq<u8>, Failure> {
    match outcome {
        None => Err(Failure::BadKeyExchange),
        Some(k) => if k.len() == 32 {
            Ok(k)
        } else {
            Err(Failure::WrongKeySize)
        },
    }
}

pub open spec fn key_view(r: Result<Vec<u8>, Failure>) -> Result<Seq<u8>, Failure> {
    match r {
        Ok(k) => Ok(k@),
        Err(f) => Err(f),
    }
}

/// The key, or why there is none, from what the exchange handed back.
pub fn key_from(outcome: Option<Vec<u8>>) -> (r: Result<Vec<u8>, Failure>)
    ensures
        key_view(r) == key_of(
            match outcome {
                Some(k) => Some(k@),
                None => None,
            },
        ),
{
    match outcome {
        None => Err(Failure::BadKeyExchange),
        Some(key) => {
            if key.len() != 32 {
                Err(Failure::WrongKeySize)
            } else {
                Ok(key)
            }
        },
    }
}

/// A peer's half of the exchange that gives a key: 33 bytes, the symmetric
/// side byte `S`, and a point on the curve.
pub open spec fn message_decodes(theirs: Seq<u8>) -> bool {
    theirs.len() == 33 && theirs[0] == 0x53 && point_decodes(theirs.skip(1))
}

/// Finishes the key exchange with the peer's message: a key exactly when the
/// message decodes. The key's value is the exchange's; what its outcome
/// comes to is [`key_from`]'s.
pub fn finish(exchange: KeyExchange, theirs: &Vec<u8>) -> (r: Result<Vec<u8>, Failure>)
    ensures
        r matches Ok(k) ==> k@.len() == 32,
        r matches Err(e) ==> e is BadKeyExchange || e is WrongKeySize,
        (theirs@.len() != 33 || theirs@[0] != 0x53) ==> r == Err::<Vec<u8>, Failure>(
            Failure::BadKeyExchange,
        ),
        r is Ok <==> message_decodes(theirs@),
{
    key_from(spake_finish(exchange, theirs.as_slice()))
}

pub open spec fn word_no() -> Seq<char> {
    seq!['n', 'o']
}

pub open spec fn wrong_code_reason() -> Seq<char> {
    seq!['w', 'r', 'o', 'n', 'g', '-', 'c', 'o', 'd', 'e']
}

pub open spec fn unsupported_reason() -> Seq<char> {
    seq!['u', 'n', 's', 'u', 'p', 'p', 'o', 'r', 't', 'e', 'd', '-', 'g', 'a', 'm', 'e']
}

/// What one line from the peer amounts to, when `verb` is due.
pub enum Hearing {
    /// The verb, and whatever followed it.
    Said(Seq<char>),
    WrongCode,
    Declined,
    Refused(Seq<char>),
    Unexpected(Seq<char>),
}

/// The line's first word and the rest, or the whole line and nothing.
pub open spec fn word_and_rest(line: Seq<char>) -> (Seq<char>, Seq<char>) {
    match split_space_of(line) {
        Some(p) => p,
        None => (line, Seq::empty()),
    }
}

pub open spec fn hearing_of(line: Seq<char>, verb: Seq<char>) -> Hearing {
    let (word, rest) = word_and_rest(line);
    if word == verb {
        Hearing::Said(rest)
    } else if word == word_no() {
        if rest == wrong_code_reason() {
            Hearing::WrongCode
        } else if rest == unsupported_reason() {
            Hearing::Declined
        } else {
            Hearing::Refused(rest)
        }
    } else {
        Hearing::Unexpected(word)
    }
}

/// What a result of [`hear`] says of a line, for contracts.
pub open spec fn heard_as(r: Result<String, Failure>, line: Seq<char>, verb: Seq<char>) -> bool {
    match hearing_of(line, verb) {
        Hearing::Said(rest) => r matches Ok(s) && s@ == rest,
        Hearing::WrongCode => r == Err::<String, Failure>(Failure::WrongCode),
        Hearing::Declined => r == Err::<String, Failure>(Failure::Declined),
        Hearing::Refused(why) => r matches Err(Failure::Refused(w)) && w@ == why,
        Hearing::Unexpected(word) => r matches Err(Failure::Unexpected(v, w)) && v@ == verb && w@ == word,
    }
}

/// The next line, which has to be `verb`, returning whatever follows it. The
/// peer backing out with `no <why>` comes back as the error.
pub fn hear(line: &str, verb: &str) -> (r: Result<String, Failure>)
    ensures
        heard_as(r, line@, verb@),
{
    proof {
        reveal_strlit("no");
        reveal_strlit("wrong-code");
        reveal_strlit("unsupported-game");
        assert("no"@ =~= word_no());
        assert("wrong-code"@ =~= wrong_code_reason());
        assert("unsupported-game"@ =~= unsupported_reason());
    }
    let cs = chars_of(line);
    let (word, rest) = match split_space(&cs) {
        Some(p) => p,
        None => (cs, Vec::new()),
    };
    assert((word@, rest@) == word_and_rest(line@));
    if chars_eq(&word, verb) {
        return Ok(string_of(&rest));
    }
    if chars_eq(&word, "no") {
        if chars_eq(&rest, "wrong-code") {
            return Err(Failure::WrongCode);
        }
        if chars_eq(&rest, "unsupported-game") {
            return Err(Failure::Declined);
        }
        return Err(Failure::Refused(string_of(&rest)));
    }
    Err(Failure::Unexpected(String::from_str(verb), string_of(&word)))
}

pub open spec fn is_digit(c: char) -> bool {
    '0' <= c <= '9'
}

/// The number written by a string of decimal digits.
pub open spec fn digits_value(d: Seq<char>) -> nat
    decreases d.len(),
{
    if d.len() == 0 {
        0
    } else {
        digits_value(d.drop_last()) * 10 + (d.last() as u32 - 48) as nat
    }
}

/// `u32::from_str`: an optional plus sign, then at least one decimal digit,
/// naming a number that fits.
/// A number's text without the plus sign it may start with.
pub open spec fn unsigned_part(s: Seq<char>) -> Seq<char> {
    if s.len() > 0 && s[0] == '+' {
        s.drop_first()
    } else {
        s
    }
}

pub open spec fn u32_text_of(s: Seq<char>) -> Option<u32> {
    let d = unsigned_part(s);
    if d.len() > 0 && (forall|i: int| 0 <= i < d.len() ==> is_digit(#[trigger] d[i])) && digits_value(d)
        <= u32::MAX {
        Some(digits_value(d) as u32)
    } else {
        None
    }
}

/// What `str::parse::<u32>` gives: an optional `+`, then decimal digits,
/// for a value that fits in 32 bits.
fn parse_u32(s: &str) -> (r: Option<u32>)
    ensures
        r == u32_text_of(s@),
{
    let cs = chars_of(s);
    let start: usize = if cs.len() > 0 && cs[0] == '+' {
        1
    } else {
        0
    };
    let ghost d = unsigned_part(s@);
    assert(d =~= cs@.skip(start as int));
    if start == cs.len() {
        return None;
    }
    let mut v: u64 = 0;
    let mut i: usize = start;
    while i < cs.len()
        invariant
            start <= i <= cs.len(),
            cs@ == s@,
            d == unsigned_part(s@),
            d == cs@.skip(start as int),
            forall|j: int| 0 <= j < i - start ==> is_digit(#[trigger] d[j]),
            v == digits_value(d.take(i - start)),
            v <= u32::MAX,
        decreases cs.len() - i,
    {
        let c = cs[i];
        if !('0' <= c && c <= '9') {
            assert(!is_digit(d[i - start]));
            return None;
        }
        assert(d.take(i + 1 - start).drop_last() =~= d.take(i - start));
        v = v * 10 + ((c as u32) - 48) as u64;
        i += 1;
        if v > 4294967295 {
            proof {
                // Whatever follows, the number only grows, if it is one.
                if forall|j: int| 0 <= j < d.len() ==> is_digit(#[trigger] d[j]) {
                    lemma_digits_grow(d, (i - start) as int);
                }
            }
            return None;
        }
    }
    assert(d.take(i - start) =~= d);
    Some(v as u32)
}

/// More digits never make a smaller number.
proof fn lemma_digits_grow(d: Seq<char>, k: int)
    requires
        0 <= k <= d.len(),
        forall|j: int| 0 <= j < d.len() ==> is_digit(#[trigger] d[j]),
    ensures
        digits_value(d.take(k)) <= digits_value(d),
    decreases d.len() - k,
{
    if k < d.len() {
        lemma_digits_grow(d, k + 1);
        assert(d.take(k + 1).drop_last() =~= d.take(k));
        assert(is_digit(d.take(k + 1).last()));
    } else {
        assert(d.take(k) =~= d);
    }
}

/// Where `g` first appears among the games, or past the end.
pub open spec fn first_index(games: Seq<Game>, g: (Seq<char>, u32)) -> nat
    decreases games.len(),
{
    if games.len() == 0 {
        0
    } else if games[0]@ == g {
        0
    } else {
        1 + first_index(games.drop_first(), g)
    }
}

/// Which of `games` the host's offer, `<name> <version>`, names, if any.
pub open spec fn pick_of(offer: Seq<char>, games: Seq<Game>) -> Option<int> {
    match split_space_of(offer) {
        None => None,
        Some((name, v)) => match u32_text_of(v) {
            None => None,
            Some(version) => if first_index(games, (name, version)) < games.len() {
                Some(first_index(games, (name, version)) as int)
            } else {
                None
            },
        },
    }
}

proof fn lemma_first_index(games: Seq<Game>, g: (Seq<char>, u32), i: int)
    requires
        0 <= i <= games.len(),
        forall|j: int| 0 <= j < i ==> (#[trigger] games[j])@ != g,
        i < games.len() ==> games[i]@ == g,
    ensures
        first_index(games, g) == i,
    decreases i,
{
    if i > 0 {
        assert forall|j: int| 0 <= j < i - 1 implies (#[trigger] games.drop_first()[j])@ != g by {
            assert(games.drop_first()[j] == games[j + 1]);
        }
        lemma_first_index(games.drop_first(), g, i - 1);
    }
}

/// The game the host offered, if this build plays it.
pub fn pick_game(offer: &str, games: &[Game]) -> (r: Option<Game>)
    ensures
        match pick_of(offer@, games@) {
            Some(i) => r == Some(games@[i]),
            None => r is None,
        },
{
    let cs = chars_of(offer);
    let (name, v) = match split_space(&cs) {
        Some(p) => p,
        None => return None,
    };
    let vs = string_of(&v);
    let version = match parse_u32(vs.as_str()) {
        Some(n) => n,
        None => return None,
    };
    let name_s = string_of(&name);
    let mut i: usize = 0;
    while i < games.len()
        invariant
            i <= games@.len(),
            name_s@ == name@,
            split_space_of(offer@) == Some((name@, v@)),
            u32_text_of(v@) == Some(version),
            forall|j: int| 0 <= j < i ==> (#[trigger] games@[j])@ != (name@, version),
        decreases games.len() - i,
    {
        let g = games[i];
        if g.version == version && crate::text::str_eq(g.name, name_s.as_str()) {
            proof {
                lemma_first_index(games@, (name@, version), i as int);
            }
            return Some(g);
        }
        i += 1;
    }
    proof {
        lemma_first_index(games@, (name@, version), games@.len() as int);
    }
    None
}

/// `pake <our message in hex>`
pub open spec fn pake_line(ours: Seq<u8>) -> Seq<char> {
    seq!['p', 'a', 'k', 'e', ' '] + hex_of(ours)
}

/// `confirm <tag in hex>`
pub open spec fn confirm_line(tag: Seq<u8>) -> Seq<char> {
    seq!['c', 'o', 'n', 'f', 'i', 'r', 'm', ' '] + hex_of(tag)
}

/// `game <name> <version>`
pub open spec fn game_line(g: (Seq<char>, u32)) -> Seq<char> {
    seq!['g', 'a', 'm', 'e', ' '] + g.0 + seq![' '] + decimal(g.1 as nat)
}

pub open spec fn word_ok() -> Seq<char> {
    seq!['o', 'k']
}

pub open spec fn word_pake() -> Seq<char> {
    seq!['p', 'a', 'k', 'e']
}

pub open spec fn word_confirm() -> Seq<char> {
    seq!['c', 'o', 'n', 'f', 'i', 'r', 'm']
}

pub open spec fn word_game() -> Seq<char> {
    seq!['g', 'a', 'm', 'e']
}

/// The failure a refusing or unexpected line comes to.
pub open spec fn fails_as(e: Failure, h: Hearing, verb: Seq<char>) -> bool {
    match h {
        Hearing::Said(_) => false,
        Hearing::WrongCode => e == Failure::WrongCode,
        Hearing::Declined => e == Failure::Declined,
        Hearing::Refused(why) => e matches Failure::Refused(w) && w@ == why,
        Hearing::Unexpected(word) => e matches Failure::Unexpected(v, w) && v@ == verb && w@ == word,
    }
}

fn pake_text(ours: &Vec<u8>) -> (r: String)
    ensures
        r@ == pake_line(ours@),
{
    proof {
        reveal_strlit("pake ");
    }
    joined("pake ", hex(ours.as_slice()).as_str())
}

fn confirm_text(tag: &[u8; 32]) -> (r: String)
    ensures
        r@ == confirm_line(tag@),
{
    proof {
        reveal_strlit("confirm ");
    }
    let t: &[u8] = tag;
    joined("confirm ", hex(t).as_str())
}

fn game_text(g: Game) -> (r: String)
    ensures
        r@ == game_line(g@),
{
    proof {
        reveal_strlit("game ");
        reveal_strlit(" ");
    }
    let a = joined("game ", g.name);
    let b = joined(a.as_str(), " ");
    joined(b.as_str(), decimal_string(g.version as u64).as_str())
}

/// What one step of a handshake asks of the connection: lines to say, in
/// order; a refusal to send, `no <why>`, letting it land before hanging up;
/// and how the handshake ended, once it has.
pub struct Step<T> {
    pub say: Vec<String>,
    pub refuse: Option<String>,
    pub end: Option<Result<T, Failure>>,
}

#[derive(Clone, Copy, Debug, PartialEq, Eq, Structural)]
pub enum HostStage {
    /// Waiting for the joiner's half of the key exchange.
    Pake,
    /// Waiting for the joiner to prove it reached the same key.
    Confirm,
    /// Waiting for the joiner to accept the game.
    Accept,
    Done,
}

/// The host's side of the handshake:
///
/// ```text
/// joiner  pake <hex>        SPAKE2, keyed by the code
/// host    pake <hex>
/// joiner  confirm <hex>     proof we reached the same key
/// host    confirm <hex>     ...or `no wrong-code`
/// host    game chess 1      what the host is playing
/// joiner  ok                ...or `no <why>`
/// ```
pub struct HostHandshake {
    pub stage: HostStage,
    pub exchange: Option<KeyExchange>,
    /// Our half of the key exchange.
    pub ours: Vec<u8>,
    /// The key both sides reached, once there is one.
    pub key: Vec<u8>,
    pub game: Game,
    pub ids: Ids,
    /// The confirmation the joiner proved itself with, once accepted.
    pub accepted: Ghost<Option<Seq<char>>>,
}

impl HostHandshake {
    pub open spec fn well_formed(&self) -> bool {
        &&& self.ours@.len() == 33
        &&& self.stage == HostStage::Pake ==> self.exchange is Some && self.accepted@ is None
        &&& self.stage == HostStage::Confirm ==> self.key@.len() == 32 && self.accepted@ is None
        &&& self.stage == HostStage::Accept ==> self.key@.len() == 32 && (self.accepted@ matches Some(
            c,
        ) && hash_hex_of(c) == Some(tag_of(self.key@, Role::Joiner, self.ids)))
    }

    /// Ready for a joiner who knows `code`, to play `game`.
    pub fn new(code: &str, game: Game, ids: Ids) -> (h: HostHandshake)
        ensures
            h.well_formed(),
            h.stage == HostStage::Pake,
            h.game == game,
            h.ids == ids,
            h.exchange matches Some(e) && e.password() == encode_utf8(code@) && e.identity()
                == identity_bytes(),
    {
        let (exchange, ours) = start(code);
        HostHandshake {
            stage: HostStage::Pake,
            exchange: Some(exchange),
            ours,
            key: Vec::new(),
            game,
            ids,
            accepted: Ghost(None),
        }
    }

    /// What the key exchange came to, once the joiner's half is in: with a
    /// key, our half goes back and the joiner is asked to prove it reached
    /// the same key; without one, our half still goes back and the
    /// handshake ends with why.
    pub fn keyed(&mut self, key: Result<Vec<u8>, Failure>) -> (r: Step<()>)
        requires
            old(self).stage == HostStage::Pake,
            old(self).ours@.len() == 33,
            old(self).accepted@ is None,
            key matches Ok(k) ==> k@.len() == 32,
        ensures
            final(self).well_formed(),
            final(self).game == old(self).game,
            final(self).ids == old(self).ids,
            final(self).ours == old(self).ours,
            final(self).accepted == old(self).accepted,
            r.refuse is None,
            r.say@.len() == 1 && r.say@[0]@ == pake_line(old(self).ours@),
            match key {
                Ok(k) => {
                    &&& final(self).stage == HostStage::Confirm
                    &&& final(self).key@ == k@
                    &&& r.end is None
                },
                Err(f) => final(self).stage == HostStage::Done && r.end == Some(
                    Err::<(), Failure>(f),
                ),
            },
    {
        let mut say: Vec<String> = Vec::new();
        say.push(pake_text(&self.ours));
        match key {
            Ok(key) => {
                self.key = key;
                self.stage = HostStage::Confirm;
                Step { say, refuse: None, end: None }
            },
            Err(f) => {
                self.stage = HostStage::Done;
                Step { say, refuse: None, end: Some(Err(f)) }
            },
        }
    }

    /// The joiner's next line, or `None` if it hung up.
    pub fn on_line(&mut self, line: Option<&str>) -> (r: Step<()>)
        requires
            old(self).well_formed(),
            old(self).stage != HostStage::Done,
        ensures
            final(self).well_formed(),
            final(self).game == old(self).game,
            final(self).ids == old(self).ids,
            final(self).ours == old(self).ours,
            r.end is Some <==> final(self).stage == HostStage::Done,
            // The host lets in only a joiner that proved it holds the code.
            r.end == Some(Ok::<(), Failure>(())) ==> old(self).stage == HostStage::Accept && (old(
                self,
            ).accepted@ matches Some(c) && hash_hex_of(c) == Some(
                tag_of(old(self).key@, Role::Joiner, old(self).ids),
            )),
            line is None ==> r.end == Some(Err::<(), Failure>(Failure::HungUp)) && r.say@.len() == 0
                && r.refuse is None,
            line matches Some(l) ==> match old(self).stage {
                HostStage::Pake => match hearing_of(l@, word_pake()) {
                    Hearing::Said(rest) => match unhex_of(rest) {
                        None => r.end == Some(Err::<(), Failure>(Failure::BadHex)) && r.say@.len() == 0
                            && r.refuse is None,
                        Some(theirs) => {
                            &&& r.say@.len() == 1 && r.say@[0]@ == pake_line(old(self).ours@)
                            &&& r.refuse is None
                            &&& (r.end is None ==> final(self).stage == HostStage::Confirm)
                            &&& (r.end matches Some(e) ==> e matches Err(f) && (f is BadKeyExchange
                                || f is WrongKeySize))
                            &&& (theirs.len() != 33 || theirs[0] != 0x53) ==> r.end == Some(
                                Err::<(), Failure>(Failure::BadKeyExchange),
                            )
                            &&& (r.end is None <==> message_decodes(theirs))
                        },
                    },
                    h => r.end matches Some(Err(f)) && fails_as(f, h, word_pake()) && r.say@.len() == 0
                        && r.refuse is None,
                },
                HostStage::Confirm => match hearing_of(l@, word_confirm()) {
                    Hearing::Said(claimed) => if hash_hex_of(claimed) == Some(
                        tag_of(old(self).key@, Role::Joiner, old(self).ids),
                    ) {
                        &&& r.end is None
                        &&& final(self).stage == HostStage::Accept
                        &&& final(self).key == old(self).key
                        &&& r.refuse is None
                        &&& r.say@.len() == 2
                        &&& r.say@[0]@ == confirm_line(tag_of(old(self).key@, Role::Host, old(self).ids))
                        &&& r.say@[1]@ == game_line(old(self).game@)
                    } else {
                        &&& r.end == Some(Err::<(), Failure>(Failure::WrongCode))
                        &&& r.say@.len() == 0
                        &&& r.refuse matches Some(why) && why@ == wrong_code_reason()
                    },
                    h => r.end matches Some(Err(f)) && fails_as(f, h, word_confirm()) && r.say@.len()
                        == 0 && r.refuse is None,
                },
                HostStage::Accept => match hearing_of(l@, word_ok()) {
                    Hearing::Said(_) => r.end == Some(Ok::<(), Failure>(())) && r.say@.len() == 0
                        && r.refuse is None,
                    h => r.end matches Some(Err(f)) && fails_as(f, h, word_ok()) && r.say@.len() == 0
                        && r.refuse is None,
                },
                HostStage::Done => false,
            },
    {
        let l = match line {
            None => {
                self.stage = HostStage::Done;
                return Step { say: Vec::new(), refuse: None, end: Some(Err(Failure::HungUp)) };
            },
            Some(l) => l,
        };
        match self.stage {
            HostStage::Pake => {
                proof {
                    reveal_strlit("pake");
                    assert("pake"@ =~= word_pake());
                }
                let rest = match hear(l, "pake") {
                    Ok(rest) => rest,
                    Err(f) => {
                        self.stage = HostStage::Done;
                        return Step { say: Vec::new(), refuse: None, end: Some(Err(f)) };
                    },
                };
                let theirs = match unhex(rest.as_str()) {
                    Ok(t) => t,
                    Err(_) => {
                        self.stage = HostStage::Done;
                        return Step { say: Vec::new(), refuse: None, end: Some(Err(Failure::BadHex)) };
                    },
                };
                let exchange = self.exchange.take().unwrap();
                let key = finish(exchange, &theirs);
                self.keyed(key)
            },
            HostStage::Confirm => {
                proof {
                    reveal_strlit("confirm");
                    assert("confirm"@ =~= word_confirm());
                }
                let claimed = match hear(l, "confirm") {
                    Ok(c) => c,
                    Err(f) => {
                        self.stage = HostStage::Done;
                        return Step { say: Vec::new(), refuse: None, end: Some(Err(f)) };
                    },
                };
                let expected = tag(&self.key, Role::Joiner, &self.ids);
                if !matches(claimed.as_str(), &expected) {
                    self.stage = HostStage::Done;
                    proof {
                        reveal_strlit("wrong-code");
                    }
                    return Step {
                        say: Vec::new(),
                        refuse: Some(String::from_str("wrong-code")),
                        end: Some(Err(Failure::WrongCode)),
                    };
                }
                let ours = tag(&self.key, Role::Host, &self.ids);
                let mut say: Vec<String> = Vec::new();
                say.push(confirm_text(&ours));
                say.push(game_text(self.game));
                self.accepted = Ghost(Some(claimed@));
                self.stage = HostStage::Accept;
                Step { say, refuse: None, end: None }
            },
            HostStage::Accept => {
                proof {
                    reveal_strlit("ok");
                    assert("ok"@ =~= word_ok());
                }
                self.stage = HostStage::Done;
                match hear(l, "ok") {
                    Ok(_) => Step { say: Vec::new(), refuse: None, end: Some(Ok(())) },
                    Err(f) => Step { say: Vec::new(), refuse: None, end: Some(Err(f)) },
                }
            },
            HostStage::Done => {
                Step { say: Vec::new(), refuse: None, end: None }
            },
        }
    }
}

#[derive(Clone, Copy, Debug, PartialEq, Eq, Structural)]
pub enum JoinStage {
    /// Waiting for the host's half of the key exchange.
    Pake,
    /// Waiting for the host to prove it reached the same key.
    Confirm,
    /// Waiting to hear what the host is playing.
    Game,
    Done,
}

/// The joiner's side of the handshake: it speaks first, and settles on
/// whichever of its games the host turns out to be playing.
pub struct JoinHandshake {
    pub stage: JoinStage,
    pub exchange: Option<KeyExchange>,
    pub ours: Vec<u8>,
    pub key: Vec<u8>,
    /// The games this build can play.
    pub games: Vec<Game>,
    pub ids: Ids,
    /// The host's confirmation, once accepted.
    pub accepted: Ghost<Option<Seq<char>>>,
}

impl JoinHandshake {
    pub open spec fn well_formed(&self) -> bool {
        &&& self.ours@.len() == 33
        &&& self.stage == JoinStage::Pake ==> self.exchange is Some && self.accepted@ is None
        &&& self.stage == JoinStage::Confirm ==> self.key@.len() == 32 && self.accepted@ is None
        &&& self.stage == JoinStage::Game ==> self.key@.len() == 32 && (self.accepted@ matches Some(c)
            && hash_hex_of(c) == Some(tag_of(self.key@, Role::Host, self.ids)))
    }

    /// Ready to pair with a host who knows `code`, accepting any of `games`.
    /// Also returns the opening line, our half of the key exchange.
    pub fn new(code: &str, games: Vec<Game>, ids: Ids) -> (r: (JoinHandshake, String))
        ensures
            r.0.well_formed(),
            r.0.stage == JoinStage::Pake,
            r.0.games == games,
            r.0.ids == ids,
            r.0.exchange matches Some(e) && e.password() == encode_utf8(code@) && e.identity()
                == identity_bytes(),
            r.1@ == pake_line(r.0.ours@),
    {
        let (exchange, ours) = start(code);
        let opening = pake_text(&ours);
        (
            JoinHandshake {
                stage: JoinStage::Pake,
                exchange: Some(exchange),
                ours,
                key: Vec::new(),
                games,
                ids,
                accepted: Ghost(None),
            },
            opening,
        )
    }

    /// What the key exchange came to, once the host's half is in: with a
    /// key, we prove we reached it; without one, the handshake ends with
    /// why.
    pub fn keyed(&mut self, key: Result<Vec<u8>, Failure>) -> (r: Step<Game>)
        requires
            old(self).stage == JoinStage::Pake,
            old(self).ours@.len() == 33,
            old(self).accepted@ is None,
            key matches Ok(k) ==> k@.len() == 32,
        ensures
            final(self).well_formed(),
            final(self).games == old(self).games,
            final(self).ids == old(self).ids,
            final(self).ours == old(self).ours,
            final(self).accepted == old(self).accepted,
            r.refuse is None,
            match key {
                Ok(k) => {
                    &&& final(self).stage == JoinStage::Confirm
                    &&& final(self).key@ == k@
                    &&& r.end is None
                    &&& r.say@.len() == 1
                    &&& r.say@[0]@ == confirm_line(tag_of(k@, Role::Joiner, old(self).ids))
                },
                Err(f) => {
                    &&& final(self).stage == JoinStage::Done
                    &&& r.end == Some(Err::<Game, Failure>(f))
                    &&& r.say@.len() == 0
                },
            },
    {
        match key {
            Ok(key) => {
                let mine = tag(&key, Role::Joiner, &self.ids);
                let mut say: Vec<String> = Vec::new();
                say.push(confirm_text(&mine));
                self.key = key;
                self.stage = JoinStage::Confirm;
                Step { say, refuse: None, end: None }
            },
            Err(f) => {
                self.stage = JoinStage::Done;
                Step { say: Vec::new(), refuse: None, end: Some(Err(f)) }
            },
        }
    }

    /// The host's next line, or `None` if it hung up.
    pub fn on_line(&mut self, line: Option<&str>) -> (r: Step<Game>)
        requires
            old(self).well_formed(),
            old(self).stage != JoinStage::Done,
        ensures
            final(self).well_formed(),
            final(self).games == old(self).games,
            final(self).ids == old(self).ids,
            final(self).ours == old(self).ours,
            r.end is Some <==> final(self).stage == JoinStage::Done,
            // A game is settled only with a host that proved it holds the
            // code, and only one this build plays.
            r.end matches Some(Ok(g)) ==> {
                &&& old(self).stage == JoinStage::Game
                &&& old(self).accepted@ matches Some(c) && hash_hex_of(c) == Some(
                    tag_of(old(self).key@, Role::Host, old(self).ids),
                )
                &&& old(self).games@.contains(g)
            },
            line is None ==> r.end == Some(Err::<Game, Failure>(Failure::HungUp)) && r.say@.len() == 0
                && r.refuse is None,
            line matches Some(l) ==> match old(self).stage {
                JoinStage::Pake => match hearing_of(l@, word_pake()) {
                    Hearing::Said(rest) => match unhex_of(rest) {
                        None => r.end == Some(Err::<Game, Failure>(Failure::BadHex)) && r.say@.len() == 0
                            && r.refuse is None,
                        Some(theirs) => {
                            &&& r.refuse is None
                            &&& (r.end is None ==> {
                                &&& final(self).stage == JoinStage::Confirm
                                &&& r.say@.len() == 1
                                &&& r.say@[0]@ == confirm_line(
                                    tag_of(final(self).key@, Role::Joiner, old(self).ids),
                                )
                            })
                            &&& (r.end matches Some(e) ==> r.say@.len() == 0)
                            &&& (r.end matches Some(e) ==> (e matches Err(f) && (f is BadKeyExchange
                                || f is WrongKeySize)))
                            &&& (theirs.len() != 33 || theirs[0] != 0x53) ==> r.end == Some(
                                Err::<Game, Failure>(Failure::BadKeyExchange),
                            )
                            &&& (r.end is None <==> message_decodes(theirs))
                        },
                    },
                    h => r.end matches Some(Err(f)) && fails_as(f, h, word_pake()) && r.say@.len() == 0
                        && r.refuse is None,
                },
                JoinStage::Confirm => match hearing_of(l@, word_confirm()) {
                    Hearing::Said(claimed) => if hash_hex_of(claimed) == Some(
                        tag_of(old(self).key@, Role::Host, old(self).ids),
                    ) {
                        &&& r.end is None
                        &&& final(self).stage == JoinStage::Game
                        &&& final(self).key == old(self).key
                        &&& r.say@.len() == 0
                        &&& r.refuse is None
                    } else {
                        &&& r.end == Some(Err::<Game, Failure>(Failure::WrongCode))
                        &&& r.say@.len() == 0
                        &&& r.refuse is None
                    },
                    h => r.end matches Some(Err(f)) && fails_as(f, h, word_confirm()) && r.say@.len()
                        == 0 && r.refuse is None,
                },
                JoinStage::Game => match hearing_of(l@, word_game()) {
                    Hearing::Said(offer) => match pick_of(offer, old(self).games@) {
                        Some(i) => {
                            &&& r.end == Some(Ok::<Game, Failure>(old(self).games@[i]))
                            &&& r.say@.len() == 1
                            &&& r.say@[0]@ == word_ok()
                            &&& r.refuse is None
                        },
                        None => {
                            &&& r.end matches Some(Err(Failure::Unsupported(o))) && o@ == offer
                            &&& r.say@.len() == 0
                            &&& r.refuse matches Some(why) && why@ == unsupported_reason()
                        },
                    },
                    h => r.end matches Some(Err(f)) && fails_as(f, h, word_game()) && r.say@.len() == 0
                        && r.refuse is None,
                },
                JoinStage::Done => false,
            },
    {
        let l = match line {
            None => {
                self.stage = JoinStage::Done;
                return Step { say: Vec::new(), refuse: None, end: Some(Err(Failure::HungUp)) };
            },
            Some(l) => l,
        };
        match self.stage {
            JoinStage::Pake => {
                proof {
                    reveal_strlit("pake");
                    assert("pake"@ =~= word_pake());
                }
                let rest = match hear(l, "pake") {
                    Ok(rest) => rest,
                    Err(f) => {
                        self.stage = JoinStage::Done;
                        return Step { say: Vec::new(), refuse: None, end: Some(Err(f)) };
                    },
                };
                let theirs = match unhex(rest.as_str()) {
                    Ok(t) => t,
                    Err(_) => {
                        self.stage = JoinStage::Done;
                        return Step { say: Vec::new(), refuse: None, end: Some(Err(Failure::BadHex)) };
                    },
                };
                let exchange = self.exchange.take().unwrap();
                let key = finish(exchange, &theirs);
                self.keyed(key)
            },
            JoinStage::Confirm => {
                proof {
                    reveal_strlit("confirm");
                    assert("confirm"@ =~= word_confirm());
                }
                let claimed = match hear(l, "confirm") {
                    Ok(c) => c,
                    Err(f) => {
                        self.stage = JoinStage::Done;
                        return Step { say: Vec::new(), refuse: None, end: Some(Err(f)) };
                    },
                };
                let expected = tag(&self.key, Role::Host, &self.ids);
                if !matches(claimed.as_str(), &expected) {
                    self.stage = JoinStage::Done;
                    return Step { say: Vec::new(), refuse: None, end: Some(Err(Failure::WrongCode)) };
                }
                self.accepted = Ghost(Some(claimed@));
                self.stage = JoinStage::Game;
                Step { say: Vec::new(), refuse: None, end: None }
            },
            JoinStage::Game => {
                proof {
                    reveal_strlit("game");
                    assert("game"@ =~= word_game());
                }
                self.stage = JoinStage::Done;
                let offer = match hear(l, "game") {
                    Ok(o) => o,
                    Err(f) => {
                        return Step { say: Vec::new(), refuse: None, end: Some(Err(f)) };
                    },
                };
                match pick_game(offer.as_str(), self.games.as_slice()) {
                    Some(g) => {
                        proof {
                            reveal_strlit("ok");
                            assert("ok"@ =~= word_ok());
                            let i = pick_of(offer@, self.games@)->0;
                            assert(self.games@[i] == g);
                        }
                        let mut say: Vec<String> = Vec::new();
                        say.push(String::from_str("ok"));
                        Step { say, refuse: None, end: Some(Ok(g)) }
                    },
                    None => {
                        proof {
                            reveal_strlit("unsupported-game");
                            assert("unsupported-game"@ =~= unsupported_reason());
                        }
                        Step {
                            say: Vec::new(),
                            refuse: Some(String::from_str("unsupported-game")),
                            end: Some(Err(Failure::Unsupported(offer))),
                        }
                    },
                }
            },
            JoinStage::Done => {
                Step { say: Vec::new(), refuse: None, end: None }
            },
        }
    }
}

} // verus!
