//! Frame codec behavior: classification of each inbound frame kind,
//! rejection of malformed bodies, and the outbound framing shape.

use screeps_api::{Error, ParsedMessage, ParsedResult};
use screeps_api::parsing::encode;

#[test]
fn parse_open_frame() {
    assert_eq!(ParsedResult::parse("o"), Ok(ParsedResult::Open));
}

#[test]
fn parse_heartbeat_frame() {
    assert_eq!(ParsedResult::parse("h"), Ok(ParsedResult::Heartbeat));
}

#[test]
fn parse_close_frame() {
    let parsed = ParsedResult::parse(r#"c[1000,"going away"]"#).unwrap();
    assert_eq!(
        parsed,
        ParsedResult::Close {
            code: 1000,
            reason: "going away".to_string(),
        }
    );
}

#[test]
fn parse_single_message_frame() {
    let parsed = ParsedResult::parse(r#"m"hello world""#).unwrap();
    assert_eq!(
        parsed,
        ParsedResult::Message(ParsedMessage::new("hello world".to_string()))
    );
}

#[test]
fn parse_message_unescapes_payload() {
    // The payload must be the decoded string, not the raw JSON body.
    let parsed = ParsedResult::parse(r#"m"say \"hi\"\n""#).unwrap();
    assert_eq!(
        parsed,
        ParsedResult::Message(ParsedMessage::new("say \"hi\"\n".to_string()))
    );
}

#[test]
fn parse_batch_frame_keeps_order() {
    let parsed = ParsedResult::parse(r#"a["first","second","third"]"#).unwrap();
    assert_eq!(
        parsed,
        ParsedResult::Messages(vec![
            ParsedMessage::new("first".to_string()),
            ParsedMessage::new("second".to_string()),
            ParsedMessage::new("third".to_string()),
        ])
    );
}

#[test]
fn parse_empty_batch_frame() {
    assert_eq!(
        ParsedResult::parse("a[]"),
        Ok(ParsedResult::Messages(Vec::new()))
    );
}

#[test]
fn parse_rejects_unknown_prefix() {
    let raw = "zunknown";
    assert_eq!(
        ParsedResult::parse(raw),
        Err(Error::FrameParse { raw: raw.to_string() })
    );
}

#[test]
fn parse_rejects_empty_text() {
    assert_eq!(
        ParsedResult::parse(""),
        Err(Error::FrameParse { raw: String::new() })
    );
}

#[test]
fn parse_rejects_malformed_close_body() {
    for raw in [r#"c"#, r#"c[]"#, r#"c["no-code"]"#, r#"c[1.5,"x"]"#, r#"c{"#] {
        assert_eq!(
            ParsedResult::parse(raw),
            Err(Error::FrameParse { raw: raw.to_string() }),
            "close frame {raw:?} must be rejected"
        );
    }
}

#[test]
fn parse_rejects_malformed_message_body() {
    for raw in [r#"m"#, r#"m[1]"#, r#"m{"a":1}"#, r#"munquoted"#] {
        assert_eq!(
            ParsedResult::parse(raw),
            Err(Error::FrameParse { raw: raw.to_string() }),
            "message frame {raw:?} must be rejected"
        );
    }
}

#[test]
fn parse_rejects_malformed_batch_body() {
    for raw in [r#"a"#, r#"a"x""#, r#"a[1,2]"#, r#"a["ok",3]"#, r#"a["#] {
        assert_eq!(
            ParsedResult::parse(raw),
            Err(Error::FrameParse { raw: raw.to_string() }),
            "batch frame {raw:?} must be rejected"
        );
    }
}

#[test]
fn parse_rejects_open_or_heartbeat_with_body() {
    for raw in ["open", "hx"] {
        assert_eq!(
            ParsedResult::parse(raw),
            Err(Error::FrameParse { raw: raw.to_string() })
        );
    }
}

#[test]
fn encode_wraps_single_element_array() {
    assert_eq!(encode("hello"), r#"["hello"]"#);
    assert_eq!(encode(""), r#"[""]"#);
    assert_eq!(encode("subscribe room:E5N39"), r#"["subscribe room:E5N39"]"#);
}

#[test]
fn encode_escapes_like_json() {
    assert_eq!(encode("a\"b"), r#"["a\"b"]"#);
    assert_eq!(encode("a\\b"), r#"["a\\b"]"#);
    assert_eq!(encode("line\nbreak\t!"), r#"["line\nbreak\t!"]"#);
    assert_eq!(encode("\u{1}"), r#"["\u0001"]"#);
}

#[test]
fn encoded_single_string_unwraps_losslessly() {
    // An encoded frame is a one-element JSON array; reading it back as a
    // batch body must yield exactly the original string.
    let original = "payload with \"quotes\", a \\ backslash,\nand a newline";
    let framed = encode(original);
    let parsed = ParsedResult::parse(&format!("a{framed}")).unwrap();
    assert_eq!(
        parsed,
        ParsedResult::Messages(vec![ParsedMessage::new(original.to_string())])
    );
    // Reading the bare inner literal as a single-message body agrees.
    let single = format!("m{}", &framed[1..framed.len() - 1]);
    assert_eq!(
        ParsedResult::parse(&single).unwrap(),
        ParsedResult::Message(ParsedMessage::new(original.to_string()))
    );
}

#[test]
fn parse_whole_encoded_frame_as_batch() {
    // parse(encode(x)) is not x itself — the framing is asymmetric — but an
    // encoded frame is a well-formed one-string batch.
    let framed = encode("auth tok123");
    let parsed = ParsedResult::parse(&format!("a{framed}")).unwrap();
    assert_eq!(
        parsed,
        ParsedResult::Messages(vec![ParsedMessage::new("auth tok123".to_string())])
    );
}
