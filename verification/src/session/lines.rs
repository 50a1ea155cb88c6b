//! Reading a peer's lines without letting the peer decide how much memory we
//! spend on them.
//!
//! Anyone who can dial us could send one endless line and grow our memory
//! until the process dies. The reader takes at most [`MAX_LINE`] bytes, plus
//! one for the newline, looking for the end of a line, and this decides what
//! those bytes amount to.

use vstd::prelude::*;

use vstd::utf8::{decode_utf8, encode_utf8, valid_utf8};

verus! {

broadcast use vstd::utf8::group_utf8_lib;

/// The longest line either side ever has reason to send. The handshake's
/// longest is a SPAKE2 message in hex, well under 200 bytes, and a game's
/// messages are shorter still. This leaves plenty of room for new games
/// without leaving room for abuse.
pub const MAX_LINE: usize = 4096;

/// How much one read may take: one byte over the limit, so a line of exactly
/// `MAX_LINE` bytes still has room for its newline.
pub const READ_LIMIT: usize = MAX_LINE + 1;

/// Why a line was refused.
#[derive(Clone, Copy, Debug, PartialEq, Eq, Structural)]
pub enum LineError {
    /// The peer sent a line over `MAX_LINE` bytes.
    TooLong,
    /// The peer sent a line that is not UTF-8.
    NotText,
}

/// The bytes of a line without its `\n` or `\r\n`.
pub open spec fn strip_ending(buf: Seq<u8>) -> Seq<u8> {
    if buf.len() > 0 && buf.last() == 10 {
        let b = buf.drop_last();
        if b.len() > 0 && b.last() == 13 {
            b.drop_last()
        } else {
            b
        }
    } else {
        buf
    }
}

/// `String::from_utf8`: the text, if the bytes are UTF-8.
#[verifier::external_body]
fn text_from_utf8(bytes: Vec<u8>) -> (r: Option<String>)
    ensures
        r is Some <==> valid_utf8(bytes@),
        r matches Some(s) ==> s@ == decode_utf8(bytes@),
{
    String::from_utf8(bytes).ok()
}

/// What one read of up to `READ_LIMIT` bytes, stopping after the first
/// newline, amounts to: `None` once the stream has ended, the line without
/// its ending, or why it cannot be had. A stream that ends partway through
/// a line hands back what there was.
pub fn finish_line(buf: Vec<u8>) -> (r: Result<Option<String>, LineError>)
    requires
        buf@.len() <= READ_LIMIT,
    ensures
        buf@.len() == 0 ==> r == Ok::<Option<String>, LineError>(None),
        buf@.len() > 0 && buf@.last() != 10 && buf@.len() == READ_LIMIT ==> r == Err::<
            Option<String>,
            LineError,
        >(LineError::TooLong),
        buf@.len() > 0 && !(buf@.last() != 10 && buf@.len() == READ_LIMIT) ==> match r {
            Ok(Some(s)) => valid_utf8(strip_ending(buf@)) && s@ == decode_utf8(strip_ending(buf@)),
            Err(e) => e == LineError::NotText && !valid_utf8(strip_ending(buf@)),
            Ok(None) => false,
        },
        // Whatever comes back fits in the limit.
        r matches Ok(Some(s)) ==> encode_utf8(s@).len() <= MAX_LINE,
{
    let n = buf.len();
    if n == 0 {
        return Ok(None);
    }
    let mut buf = buf;
    let ghost all = buf@;
    if buf[n - 1] == 10u8 {
        buf.pop();
        let m = buf.len();
        if m > 0 && buf[m - 1] == 13u8 {
            buf.pop();
        }
    } else if n == READ_LIMIT {
        return Err(LineError::TooLong);
    }
    assert(buf@ == strip_ending(all));
    let ghost body = buf@;
    match text_from_utf8(buf) {
        Some(s) => {
            proof {
                vstd::utf8::decode_utf8_encode_utf8(body);
            }
            Ok(Some(s))
        },
        None => Err(LineError::NotText),
    }
}

} // verus!
