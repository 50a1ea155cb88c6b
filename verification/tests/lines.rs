//! Reading a peer's lines, a bounded read at a time.

use tui_tui::session::lines::{finish_line, LineError, MAX_LINE, READ_LIMIT};

/// Splits `input` as the reader does: at most `READ_LIMIT` bytes at a time,
/// stopping after a newline, until the stream runs dry.
fn all(input: &[u8]) -> Vec<Result<Option<String>, LineError>> {
    let mut out = Vec::new();
    let mut at = 0;
    loop {
        let mut buf = Vec::new();
        while at < input.len() && buf.len() < READ_LIMIT {
            buf.push(input[at]);
            at += 1;
            if buf[buf.len() - 1] == b'\n' {
                break;
            }
        }
        let next = finish_line(buf);
        let done = !matches!(next, Ok(Some(_)));
        out.push(next);
        if done {
            return out;
        }
    }
}

fn texts(results: Vec<Result<Option<String>, LineError>>) -> Vec<String> {
    results
        .into_iter()
        .filter_map(|r| r.ok().flatten())
        .collect()
}

#[test]
fn reads_lines_and_strips_their_endings() {
    let got = texts(all(b"move e2e4\r\nresign\nlast without newline"));
    assert_eq!(got, ["move e2e4", "resign", "last without newline"]);
}

#[test]
fn a_line_of_exactly_the_limit_is_fine() {
    let mut input = vec![b'x'; MAX_LINE];
    input.push(b'\n');
    let got = texts(all(&input));
    assert_eq!(got.len(), 1);
    assert_eq!(got[0].len(), MAX_LINE);
}

#[test]
fn an_endless_line_is_refused_rather_than_buffered() {
    // Ten megabytes and no newline: only one read's worth is ever held.
    let input = vec![b'x'; 10 * 1024 * 1024];
    let got = all(&input);
    assert_eq!(got.len(), 1);
    assert_eq!(got[0], Err(LineError::TooLong));
}

#[test]
fn bytes_that_are_not_text_are_refused() {
    assert_eq!(finish_line(b"\xff\xfe\n".to_vec()), Err(LineError::NotText));
}

#[test]
fn the_end_of_the_stream_is_no_line() {
    assert_eq!(finish_line(Vec::new()), Ok(None));
    assert_eq!(finish_line(b"\n".to_vec()), Ok(Some(String::new())));
    assert_eq!(finish_line(b"\r\n".to_vec()), Ok(Some(String::new())));
    assert_eq!(finish_line(b"a\r".to_vec()), Ok(Some("a\r".to_string())));
    assert_eq!(
        finish_line("caf\u{e9}\n".as_bytes().to_vec()),
        Ok(Some("caf\u{e9}".to_string()))
    );
}
