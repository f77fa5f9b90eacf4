//! The frame codec: classifies inbound transport text into typed frame
//! events and encodes outbound protocol commands into transport frames.
//!
//! One inbound frame is one text unit whose first character selects the
//! kind: `o` open, `h` heartbeat, `c` close (body `[code, reason]`), `m` one
//! message (body a JSON string), `a` a batch (body a JSON array of strings).
//! Outbound frames are always the command wrapped as a single-element JSON
//! array.

use vstd::prelude::*;

use crate::error::Error;

verus! {

/// One application payload string extracted from a frame, not further
/// interpreted by this crate.
#[derive(Debug, Clone, PartialEq, Eq)]
pub struct ParsedMessage {
    text: String,
}

impl View for ParsedMessage {
    type V = Seq<char>;

    closed spec fn view(&self) -> Seq<char> {
        self.text@
    }
}

impl DeepView for ParsedMessage {
    type V = Seq<char>;

    open spec fn deep_view(&self) -> Seq<char> {
        self.view()
    }
}

impl ParsedMessage {
    /// Wraps one payload string.
    pub fn new(text: String) -> (r: ParsedMessage)
        ensures
            r@ == text@,
    {
        ParsedMessage { text }
    }

    /// The payload as a string slice.
    pub fn as_str(&self) -> (r: &str)
        ensures
            r@ == self@,
    {
        self.text.as_str()
    }

    /// The payload string itself.
    pub fn into_string(self) -> (r: String)
        ensures
            r@ == self@,
    {
        self.text
    }
}

/// Classification of one inbound frame; produced once per frame and consumed
/// immediately by the session handler.
#[derive(Debug, Clone, PartialEq, Eq)]
pub enum ParsedResult {
    /// The transport-level open frame.
    Open,
    /// The transport-level close frame.
    Close {
        /// The close code sent by the server.
        code: i64,
        /// The close reason sent by the server.
        reason: String,
    },
    /// A keepalive frame, to be answered with an empty frame.
    Heartbeat,
    /// A single application message.
    Message(ParsedMessage),
    /// A batch of application messages, in delivery order.
    Messages(Vec<ParsedMessage>),
}

/// The value of `body` as serde_json reads a lone JSON string, if it is one.
pub uninterp spec fn json_string_of(body: Seq<char>) -> Option<Seq<char>>;

/// The values of `body` as serde_json reads a JSON array of strings, if it
/// is one.
pub uninterp spec fn json_string_array_of(body: Seq<char>) -> Option<Seq<Seq<char>>>;

/// The values of `body` as serde_json reads a JSON pair of an integer and a
/// string, if it is one.
pub uninterp spec fn json_close_body_of(body: Seq<char>) -> Option<(int, Seq<char>)>;

/// Relies on serde_json::from_str::<String>: whether a text is one JSON
/// string literal, and which string, depend on the text alone.
#[verifier::external_body]
fn parse_string_body(body: &str) -> (r: Option<String>)
    ensures
        match r {
            Some(v) => json_string_of(body@) == Some(v@),
            None => json_string_of(body@) is None,
        },
{
    serde_json::from_str(body).ok()
}

/// Relies on serde_json::from_str::<Vec<String>>: whether a text is a JSON
/// array of strings, and which strings, depend on the text alone.
#[verifier::external_body]
fn parse_string_array_body(body: &str) -> (r: Option<Vec<String>>)
    ensures
        match r {
            Some(v) => json_string_array_of(body@) == Some(v.deep_view()),
            None => json_string_array_of(body@) is None,
        },
{
    serde_json::from_str(body).ok()
}

/// Relies on serde_json::from_str::<(i64, String)>: whether a text is a JSON
/// array of an integer followed by a string, and their values, depend on the
/// text alone.
#[verifier::external_body]
fn parse_close_body(body: &str) -> (r: Option<(i64, String)>)
    ensures
        match r {
            Some(cr) => json_close_body_of(body@) == Some((cr.0 as int, cr.1@)),
            None => json_close_body_of(body@) is None,
        },
{
    serde_json::from_str(body).ok()
}

/// The body of a frame: everything after the one-character kind prefix.
pub open spec fn frame_body(t: Seq<char>) -> Seq<char> {
    t.subrange(1, t.len() as int)
}

/// Whether `r` reports `t` as a malformed frame, carrying the raw text.
pub open spec fn is_frame_error(t: Seq<char>, r: Result<ParsedResult, Error>) -> bool {
    r matches Err(Error::FrameParse { raw }) && raw@ == t
}

/// Whether `t` is the open frame: the single character `o`.
pub open spec fn frame_is_open(t: Seq<char>) -> bool {
    t.len() == 1 && t[0] == 'o'
}

/// Whether `t` is the heartbeat frame: the single character `h`.
pub open spec fn frame_is_heartbeat(t: Seq<char>) -> bool {
    t.len() == 1 && t[0] == 'h'
}

/// Whether `t` is a frame that `parse` rejects: its prefix is not one of
/// `o`, `h`, `c`, `m`, `a`, or its body does not have the JSON shape its
/// prefix requires.
pub open spec fn frame_is_malformed(t: Seq<char>) -> bool {
    &&& !frame_is_open(t)
    &&& !frame_is_heartbeat(t)
    &&& !(t.len() >= 1 && t[0] == 'c' && json_close_body_of(frame_body(t)) is Some)
    &&& !(t.len() >= 1 && t[0] == 'm' && json_string_of(frame_body(t)) is Some)
    &&& !(t.len() >= 1 && t[0] == 'a' && json_string_array_of(frame_body(t)) is Some)
}

/// What `parse` returns for the frame text `t`: the full classification
/// described in the module documentation, with every unknown prefix and
/// every malformed body reported as a frame error.
pub open spec fn parse_result_is(t: Seq<char>, r: Result<ParsedResult, Error>) -> bool {
    if t.len() == 1 && t[0] == 'o' {
        r == Ok::<ParsedResult, Error>(ParsedResult::Open)
    } else if t.len() == 1 && t[0] == 'h' {
        r == Ok::<ParsedResult, Error>(ParsedResult::Heartbeat)
    } else if t.len() >= 1 && t[0] == 'c' {
        match json_close_body_of(frame_body(t)) {
            Some(cr) => r matches Ok(ParsedResult::Close { code, reason }) && code as int == cr.0
                && reason@ == cr.1,
            None => is_frame_error(t, r),
        }
    } else if t.len() >= 1 && t[0] == 'm' {
        match json_string_of(frame_body(t)) {
            Some(v) => r matches Ok(ParsedResult::Message(m)) && m@ == v,
            None => is_frame_error(t, r),
        }
    } else if t.len() >= 1 && t[0] == 'a' {
        match json_string_array_of(frame_body(t)) {
            Some(vs) => r matches Ok(ParsedResult::Messages(ms)) && ms.deep_view() == vs,
            None => is_frame_error(t, r),
        }
    } else {
        is_frame_error(t, r)
    }
}

impl ParsedResult {
    /// Parses one inbound transport frame into its classification.
    ///
    /// Any prefix outside `o`, `h`, `c`, `m`, `a`, and any body that does not
    /// have the JSON shape its prefix requires, yields a frame error carrying
    /// the raw text; no input panics.
    pub fn parse(text: &str) -> (r: Result<ParsedResult, Error>)
        ensures
            parse_result_is(text@, r),
    {
        let len = text.unicode_len();
        if len == 1 {
            let c = text.get_char(0);
            if c == 'o' {
                return Ok(ParsedResult::Open);
            }
            if c == 'h' {
                return Ok(ParsedResult::Heartbeat);
            }
        }
        if len >= 1 {
            let c = text.get_char(0);
            let body = text.substring_char(1, len);
            if c == 'c' {
                match parse_close_body(body) {
                    Some((code, reason)) => {
                        return Ok(ParsedResult::Close { code, reason });
                    },
                    None => {
                        return Err(Error::FrameParse { raw: String::from_str(text) });
                    },
                }
            }
            if c == 'm' {
                match parse_string_body(body) {
                    Some(v) => {
                        return Ok(ParsedResult::Message(ParsedMessage::new(v)));
                    },
                    None => {
                        return Err(Error::FrameParse { raw: String::from_str(text) });
                    },
                }
            }
            if c == 'a' {
                match parse_string_array_body(body) {
                    Some(strings) => {
                        let mut messages: Vec<ParsedMessage> = Vec::new();
                        let mut i: usize = 0;
                        while i < strings.len()
                            invariant
                                i <= strings.len(),
                                messages@.len() == i,
                                forall|j: int|
                                    0 <= j < i ==> #[trigger] messages@[j]@ == strings@[j]@,
                            decreases strings.len() - i,
                        {
                            let m = ParsedMessage::new(strings[i].clone());
                            messages.push(m);
                            i = i + 1;
                        }
                        proof {
                            assert forall|j: int|
                                0 <= j < strings@.len() implies #[trigger] messages.deep_view()[j]
                                == strings.deep_view()[j] by {
                                assert(messages@[j]@ == strings@[j]@);
                            }
                            assert(messages.deep_view() =~= strings.deep_view());
                        }
                        return Ok(ParsedResult::Messages(messages));
                    },
                    None => {
                        return Err(Error::FrameParse { raw: String::from_str(text) });
                    },
                }
            }
        }
        Err(Error::FrameParse { raw: String::from_str(text) })
    }
}

/// A lowercase hexadecimal digit, as serde_json writes control-character
/// escapes.
pub open spec fn hex_digit(d: u32) -> char {
    if d == 0 {
        '0'
    } else if d == 1 {
        '1'
    } else if d == 2 {
        '2'
    } else if d == 3 {
        '3'
    } else if d == 4 {
        '4'
    } else if d == 5 {
        '5'
    } else if d == 6 {
        '6'
    } else if d == 7 {
        '7'
    } else if d == 8 {
        '8'
    } else if d == 9 {
        '9'
    } else if d == 10 {
        'a'
    } else if d == 11 {
        'b'
    } else if d == 12 {
        'c'
    } else if d == 13 {
        'd'
    } else if d == 14 {
        'e'
    } else {
        'f'
    }
}

/// One character of a JSON string literal as serde_json writes it: quote and
/// backslash get two-character escapes, the control characters with a short
/// form get theirs, any other control character becomes a lowercase `\u00..`
/// escape, and every other character stands unchanged.
pub open spec fn json_escape_char(c: char) -> Seq<char> {
    if c == '"' {
        seq!['\\', '"']
    } else if c == '\\' {
        seq!['\\', '\\']
    } else if c == '\u{8}' {
        seq!['\\', 'b']
    } else if c == '\t' {
        seq!['\\', 't']
    } else if c == '\n' {
        seq!['\\', 'n']
    } else if c == '\u{c}' {
        seq!['\\', 'f']
    } else if c == '\r' {
        seq!['\\', 'r']
    } else if (c as u32) < 0x20 {
        seq!['\\', 'u', '0', '0', hex_digit((c as u32) / 16), hex_digit((c as u32) % 16)]
    } else {
        seq![c]
    }
}

/// A whole string escaped for a JSON string literal, character by character.
pub open spec fn json_escaped(s: Seq<char>) -> Seq<char>
    decreases s.len(),
{
    if s.len() == 0 {
        Seq::empty()
    } else {
        json_escape_char(s[0]) + json_escaped(s.drop_first())
    }
}

/// The transport frame that carries `command`: a single-element JSON array
/// holding the command as a JSON string literal.
pub open spec fn frame_encoding(command: Seq<char>) -> Seq<char> {
    seq!['[', '"'] + json_escaped(command) + seq!['"', ']']
}

/// Relies on serde_json::to_string on a one-element tuple holding a string:
/// it writes `[`, then the string as a JSON literal escaped with serde_json's
/// escape table (quote, backslash and control characters only, lowercase
/// hex), then `]`.  Serializing a tuple of one string cannot fail.
#[verifier::external_body]
fn json_frame(message: &str) -> (r: String)
    ensures
        r@ == frame_encoding(message@),
{
    serde_json::to_string(&(message,)).expect("serializing a single-string tuple cannot fail")
}

/// Encodes one outbound protocol command as a transport frame, wrapping it
/// as a single-element JSON array; this is the only outbound frame shape the
/// engine produces, the literal heartbeat reply `[]` excepted.
pub fn encode(command: &str) -> (r: String)
    ensures
        r@ == frame_encoding(command@),
{
    json_frame(command)
}

/// Law: every encoded frame is one JSON array cell — an opening bracket, the
/// command as a quoted JSON string literal, a closing bracket — whatever the
/// command was.
pub proof fn lemma_encode_wraps_single_element(command: Seq<char>)
    ensures
        frame_encoding(command).len() == json_escaped(command).len() + 4,
        frame_encoding(command)[0] == '[',
        frame_encoding(command)[1] == '"',
        frame_encoding(command)[frame_encoding(command).len() - 2] == '"',
        frame_encoding(command)[frame_encoding(command).len() - 1] == ']',
        frame_encoding(command).subrange(2, frame_encoding(command).len() - 2) == json_escaped(
            command,
        ),
{
    assert(frame_encoding(command).subrange(2, frame_encoding(command).len() - 2) =~= json_escaped(
        command,
    ));
}

} // verus!
