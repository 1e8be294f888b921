use sfox::text::{chars_of, chars_start_with, join, same_chars, same_text};
use sfox::websocket::message::parse_frame;
use sfox::websocket::WebsocketClientError;
use sfox::wire::{unsigned_from_text, Member, WireValue};

fn number(text: &str) -> WireValue {
    WireValue::Number(text.to_string())
}

fn text(s: &str) -> WireValue {
    WireValue::String(s.to_string())
}

#[test]
fn a_document_is_read_variant_by_variant() {
    let frame = parse_frame(
        r#"{"z": null, "a": true, "n": [1, -2, 3.5, 1e-8, 18446744073709551615], "s": "x\ny",
            "o": {"k": "v"}}"#,
    )
    .unwrap();
    assert_eq!(
        frame,
        WireValue::Object(vec![
            Member { key: "a".to_string(), value: WireValue::Bool(true) },
            Member {
                key: "n".to_string(),
                value: WireValue::Array(vec![
                    number("1"),
                    number("-2"),
                    number("3.5"),
                    number("1e-8"),
                    number("18446744073709551615"),
                ]),
            },
            Member {
                key: "o".to_string(),
                value: WireValue::Object(vec![Member { key: "k".to_string(), value: text("v") }]),
            },
            Member { key: "s".to_string(), value: text("x\ny") },
            Member { key: "z".to_string(), value: WireValue::Null },
        ])
    );
}

#[test]
fn a_text_that_is_no_document_is_a_parse_error() {
    for bad in ["", "{", "[1,]", "{\"a\":}", "nul", "1 2", "{'a': 1}"] {
        match parse_frame(bad) {
            Err(WebsocketClientError::ParseError(m)) => {
                assert!(m.starts_with("could not parse json: "), "{}", m)
            }
            other => panic!("unexpected outcome for {:?}: {:?}", bad, other),
        }
    }
    assert_eq!(
        parse_frame(""),
        Err(WebsocketClientError::ParseError(
            "could not parse json: EOF while parsing a value at line 1 column 0".to_string()
        ))
    );
}

#[test]
fn members_are_looked_up_from_the_front() {
    let record = WireValue::Object(vec![
        Member { key: "a".to_string(), value: number("1") },
        Member { key: "b".to_string(), value: number("2") },
        Member { key: "a".to_string(), value: number("3") },
    ]);
    assert_eq!(record.get("a"), Some(&number("1")));
    assert_eq!(record.get("b"), Some(&number("2")));
    assert_eq!(record.get("c"), None);
    assert_eq!(record.get(""), None);
    assert_eq!(number("1").get("a"), None);
    assert_eq!(WireValue::Array(vec![record.clone()]).get("a"), None);
    assert!(record.is_object());
    assert!(!number("1").is_object());
}

#[test]
fn accessors_answer_for_their_own_variant_only() {
    let values = [
        WireValue::Null,
        WireValue::Bool(false),
        number("7"),
        text("7"),
        WireValue::Array(vec![number("7")]),
        WireValue::Object(vec![]),
    ];
    let flags: Vec<_> = values.iter().map(|v| v.as_bool()).collect();
    assert_eq!(flags, [None, Some(false), None, None, None, None]);
    let counts: Vec<_> = values.iter().map(|v| v.as_u64()).collect();
    assert_eq!(counts, [None, None, Some(7), None, None, None]);
    let texts: Vec<_> = values.iter().map(|v| v.as_str()).collect();
    assert_eq!(texts, [None, None, None, Some("7"), None, None]);
    let numbers: Vec<_> = values.iter().map(|v| v.as_number_text()).collect();
    assert_eq!(numbers, [None, None, Some("7"), None, None, None]);
    let lists: Vec<_> = values.iter().map(|v| v.as_array().map(|a| a.len())).collect();
    assert_eq!(lists, [None, None, None, None, Some(1), None]);
}

#[test]
fn unsigned_integers_are_plain_digits_that_fit() {
    assert_eq!(unsigned_from_text("0"), Some(0));
    assert_eq!(unsigned_from_text("123"), Some(123));
    assert_eq!(unsigned_from_text("007"), Some(7));
    assert_eq!(unsigned_from_text("18446744073709551615"), Some(u64::MAX));
    assert_eq!(unsigned_from_text("18446744073709551616"), None);
    assert_eq!(unsigned_from_text("99999999999999999999999"), None);
    for bad in ["", "-1", "+1", "1.0", "1e3", " 1", "1 ", "one", "١"] {
        assert_eq!(unsigned_from_text(bad), None, "{:?}", bad);
    }
}

#[test]
fn a_copy_is_equal_to_what_it_was_made_from() {
    let frame = parse_frame(r#"{"a": [1, {"b": [null, "x", true]}], "c": {"d": {}}}"#).unwrap();
    assert_eq!(frame.clone(), frame);
}

#[test]
fn text_helpers() {
    assert_eq!(chars_of("aé€😀"), vec!['a', 'é', '€', '😀']);
    assert_eq!(chars_of(""), Vec::<char>::new());
    assert_eq!(join("ticker", ".sfox"), "ticker.sfox");
    assert_eq!(join("", ""), "");
    assert!(same_text("abc", "abc"));
    assert!(!same_text("abc", "abd"));
    assert!(!same_text("abc", "ab"));
    assert!(same_text("", ""));
    let starts = |text: &str, prefix: &str| chars_start_with(&chars_of(text), &chars_of(prefix));
    assert!(starts("ticker.sfox.btcusd", "ticker"));
    assert!(starts("ticker", "ticker"));
    assert!(starts("ticker", ""));
    assert!(!starts("tick", "ticker"));
    assert!(!starts("sticker", "ticker"));
    assert!(!starts("", "t"));
    assert!(same_chars(&chars_of("aé"), &vec!['a', 'é']));
    assert!(!same_chars(&chars_of("a"), &vec!['a', 'é']));
}
