//! Deciding whether input holds a JSON request or plain text.
use vstd::prelude::*;
use vstd::utf8::{decode_utf8, valid_utf8};

verus! {

/// The detected input mode based on stdin content.
#[derive(Debug, Clone, PartialEq, Eq)]
pub enum InputMode {
    /// Valid JSON request detected.
    Json(String),
    /// Plain text (pipe mode).
    Pipe(Vec<u8>),
}

/// Whether `serde_json` parses a text into a value that has the given key
/// (an object holding that key).
pub uninterp spec fn json_text_has_key(text: Seq<char>, key: Seq<char>) -> bool;

/// Parses the text with `serde_json::from_str` into a `serde_json::Value`
/// and asks `Value::get` for the key; a text that does not parse has no key.
/// Which texts parse, and to what, is named, not stated.
#[verifier::external_body]
fn json_has_key(text: &str, key: &str) -> (r: bool)
    ensures
        r == json_text_has_key(text@, key@),
{
    match serde_json::from_str::<serde_json::Value>(text) {
        Ok(value) => value.get(key).is_some(),
        Err(_) => false,
    }
}

/// Calls `std::str::from_utf8` and copies the text out: it succeeds exactly
/// on well-formed UTF-8, and the text is the decoding of the bytes.
#[verifier::external_body]
fn utf8_text(bytes: &[u8]) -> (r: Option<String>)
    ensures
        r is Some <==> valid_utf8(bytes@),
        r matches Some(s) ==> s@ == decode_utf8(bytes@),
{
    match std::str::from_utf8(bytes) {
        Ok(s) => Some(s.to_string()),
        Err(_) => None,
    }
}

/// ASCII whitespace as `u8::is_ascii_whitespace` defines it.
pub open spec fn is_ascii_ws(b: u8) -> bool {
    b == 0x20u8 || b == 0x09u8 || b == 0x0Au8 || b == 0x0Cu8 || b == 0x0Du8
}

/// The first byte that is not ASCII whitespace is an opening brace.
pub open spec fn starts_with_brace(bytes: Seq<u8>) -> bool {
    exists|i: int|
        0 <= i < bytes.len() && bytes[i] == 0x7Bu8 && forall|j: int|
            0 <= j < i ==> is_ascii_ws(#[trigger] bytes[j])
}

/// The request text carried by the input, when it is one: input whose first
/// non-whitespace byte is `{`, that is UTF-8, and whose JSON has an
/// `operations` key.
pub open spec fn spec_json_request(bytes: Seq<u8>) -> Option<Seq<char>> {
    if starts_with_brace(bytes) && valid_utf8(bytes) && json_text_has_key(
        decode_utf8(bytes),
        "operations"@,
    ) {
        Some(decode_utf8(bytes))
    } else {
        None
    }
}

/// Whether the first non-whitespace byte is `{`.
fn first_nonws_is_brace(bytes: &[u8]) -> (r: bool)
    ensures
        r == starts_with_brace(bytes@),
{
    let mut i: usize = 0;
    while i < bytes.len()
        invariant
            i <= bytes@.len(),
            forall|j: int| 0 <= j < i ==> is_ascii_ws(#[trigger] bytes@[j]),
        decreases bytes.len() - i,
    {
        let b = bytes[i];
        if !(b == 0x20u8 || b == 0x09u8 || b == 0x0Au8 || b == 0x0Cu8 || b == 0x0Du8) {
            if b == 0x7Bu8 {
                return true;
            }
            assert forall|k: int|
                0 <= k < bytes@.len() && bytes@[k] == 0x7Bu8 implies !(forall|j: int|
                0 <= j < k ==> is_ascii_ws(#[trigger] bytes@[j])) by {
                if k > i {
                    assert(!is_ascii_ws(bytes@[i as int]));
                }
            }
            return false;
        }
        i += 1;
    }
    false
}

/// Whether a text looks like a request: its JSON has an `operations` key.
fn is_request_json(text: &str) -> (r: bool)
    ensures
        r == json_text_has_key(text@, "operations"@),
{
    json_has_key(text, "operations")
}

/// Classify input that has been read in full: a JSON request when its
/// first non-whitespace byte is `{`, it is UTF-8 and its JSON has an
/// `operations` key; plain text (the bytes unchanged) otherwise.
pub fn detect_stdin(buffer: Vec<u8>) -> (r: InputMode)
    ensures
        spec_json_request(buffer@) matches Some(t) ==> (r matches InputMode::Json(s) && s@ == t),
        spec_json_request(buffer@) is None ==> (r matches InputMode::Pipe(b) && b@ == buffer@),
{
    if buffer.len() == 0 {
        return InputMode::Pipe(buffer);
    }
    if first_nonws_is_brace(buffer.as_slice()) {
        if let Some(text) = utf8_text(buffer.as_slice()) {
            if is_request_json(text.as_str()) {
                return InputMode::Json(text);
            }
        }
    }
    InputMode::Pipe(buffer)
}

/// Classify buffered input: `peek` is the first chunk the reader held and
/// `full` all of the input. The chunk only says whether there is any input
/// at all; the whole input decides, exactly as `detect_stdin` decides it, so
/// the answer does not depend on how the input was chunked.
pub fn detect_buffered(peek: &[u8], full: Vec<u8>) -> (r: InputMode)
    ensures
        spec_json_request(full@) matches Some(t) ==> (r matches InputMode::Json(s) && s@ == t),
        spec_json_request(full@) is None ==> (r matches InputMode::Pipe(b) && b@ == full@),
{
    if peek.len() == 0 && full.len() == 0 {
        return InputMode::Pipe(Vec::new());
    }
    detect_stdin(full)
}

} // verus!
