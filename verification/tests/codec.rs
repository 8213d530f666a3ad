use shaco::model::ws::LcuSubscriptionType;
use shaco::text::{escape_letter, hex_digit, push_escaped_char, push_json_string};
use shaco::ws::{write_control_frame, SUBSCRIBE, UNSUBSCRIBE};

fn json_api(path: &str) -> LcuSubscriptionType {
    LcuSubscriptionType::JsonApiEvent(path.to_string())
}

fn lcds(path: &str) -> LcuSubscriptionType {
    LcuSubscriptionType::LcdsEvent(path.to_string())
}

#[test]
fn keys_without_path_share_one_wire_string() {
    assert_eq!(LcuSubscriptionType::AllJsonApiEvents.to_wire(), "OnJsonApiEvent");
    assert_eq!(LcuSubscriptionType::AllLcdsEvents.to_wire(), "OnJsonApiEvent");
}

#[test]
fn path_is_sanitized_on_the_wire() {
    assert_eq!(
        json_api("/lol-gameflow/v1/gameflow-phase").to_wire(),
        "OnJsonApiEvent_lol-gameflow_v1_gameflow-phase"
    );
    assert_eq!(lcds("/a/b").to_wire(), "OnLcdsEvent_a_b");
    assert_eq!(json_api("///a//b/").to_wire(), "OnJsonApiEvent_a__b_");
    assert_eq!(json_api("a/b").to_wire(), "OnJsonApiEvent_a_b");
    assert_eq!(json_api("").to_wire(), "OnJsonApiEvent_");
    assert_eq!(json_api("/").to_wire(), "OnJsonApiEvent_");
    assert_eq!(lcds("no_slash").to_wire(), "OnLcdsEvent_no_slash");
}

#[test]
fn wire_string_is_read_back() {
    assert_eq!(
        LcuSubscriptionType::from_wire("OnJsonApiEvent"),
        Some(LcuSubscriptionType::AllJsonApiEvents)
    );
    assert_eq!(
        LcuSubscriptionType::from_wire("OnLcdsEvent"),
        Some(LcuSubscriptionType::AllLcdsEvents)
    );
    assert_eq!(
        LcuSubscriptionType::from_wire("OnJsonApiEvent_lol-gameflow_v1_session"),
        Some(json_api("lol-gameflow_v1_session"))
    );
    assert_eq!(LcuSubscriptionType::from_wire("OnLcdsEvent_x_y"), Some(lcds("x_y")));
}

#[test]
fn character_behind_the_marker_is_the_separator() {
    assert_eq!(LcuSubscriptionType::from_wire("OnJsonApiEvent_"), Some(json_api("")));
    assert_eq!(LcuSubscriptionType::from_wire("OnJsonApiEventXabc"), Some(json_api("abc")));
    assert_eq!(LcuSubscriptionType::from_wire("OnLcdsEvent-é"), Some(lcds("é")));
}

#[test]
fn unknown_marker_is_refused() {
    assert_eq!(LcuSubscriptionType::from_wire(""), None);
    assert_eq!(LcuSubscriptionType::from_wire("OnJsonApiEven"), None);
    assert_eq!(LcuSubscriptionType::from_wire("onjsonapievent"), None);
    assert_eq!(LcuSubscriptionType::from_wire("OnLcdsApiEvent_x"), None);
    assert_eq!(LcuSubscriptionType::from_wire("OnLog"), None);
}

#[test]
fn round_trip_keeps_the_subscription() {
    let keys = vec![
        LcuSubscriptionType::AllJsonApiEvents,
        LcuSubscriptionType::AllLcdsEvents,
        json_api("/lol-gameflow/v1/session"),
        lcds("/riot/messaging"),
        json_api(""),
        lcds("//x"),
    ];
    for key in keys {
        let wire = key.to_wire();
        let back = LcuSubscriptionType::from_wire(&wire).unwrap();
        assert_eq!(back.to_wire(), wire);
    }
}

#[test]
fn round_trip_is_exact_for_a_sanitized_path() {
    for key in [json_api("lol-gameflow_v1_session"), lcds("a_b"), json_api("")] {
        assert_eq!(LcuSubscriptionType::from_wire(&key.to_wire()), Some(key));
    }
    assert_eq!(
        LcuSubscriptionType::from_wire(&json_api("/a/b").to_wire()),
        Some(json_api("a_b"))
    );
    assert_eq!(
        LcuSubscriptionType::from_wire(&LcuSubscriptionType::AllLcdsEvents.to_wire()),
        Some(LcuSubscriptionType::AllJsonApiEvents)
    );
}

#[test]
fn control_frames_are_two_item_arrays() {
    assert_eq!(SUBSCRIBE, 5);
    assert_eq!(UNSUBSCRIBE, 6);
    assert_eq!(
        write_control_frame(SUBSCRIBE, &json_api("/lol-gameflow/v1/session")),
        "[5, \"OnJsonApiEvent_lol-gameflow_v1_session\"]"
    );
    assert_eq!(
        write_control_frame(UNSUBSCRIBE, &LcuSubscriptionType::AllJsonApiEvents),
        "[6, \"OnJsonApiEvent\"]"
    );
    assert_eq!(write_control_frame(255, &lcds("x")), "[255, \"OnLcdsEvent_x\"]");
    assert_eq!(write_control_frame(0, &lcds("x")), "[0, \"OnLcdsEvent_x\"]");
    let frame: serde_json::Value =
        serde_json::from_str(&write_control_frame(SUBSCRIBE, &lcds("/a/b"))).unwrap();
    assert_eq!(frame.as_array().unwrap().len(), 2);
    assert_eq!(frame[0].as_u64(), Some(5));
    assert_eq!(frame[1].as_str(), Some("OnLcdsEvent_a_b"));
}

#[test]
fn control_frames_escape_what_json_escapes() {
    assert_eq!(
        write_control_frame(SUBSCRIBE, &json_api("a\"b")),
        "[5, \"OnJsonApiEvent_a\\\"b\"]"
    );
    assert_eq!(
        write_control_frame(UNSUBSCRIBE, &lcds("a\\b")),
        "[6, \"OnLcdsEvent_a\\\\b\"]"
    );
    assert_eq!(
        write_control_frame(SUBSCRIBE, &lcds("\u{8}\t\n\u{c}\r")),
        "[5, \"OnLcdsEvent_\\b\\t\\n\\f\\r\"]"
    );
    assert_eq!(
        write_control_frame(SUBSCRIBE, &lcds("\u{0}\u{b}\u{1f}\u{7f}")),
        "[5, \"OnLcdsEvent_\\u0000\\u000b\\u001f\u{7f}\"]"
    );
}

#[test]
fn json_strings_are_what_the_json_library_writes() {
    let mut all = String::new();
    for code in 0..0x250u32 {
        let c = char::from_u32(code).unwrap();
        let text = c.to_string();
        let mut out = String::from("x");
        push_json_string(&mut out, &text);
        assert_eq!(out[1..], serde_json::to_string(&text).unwrap());
        assert_eq!(serde_json::from_str::<String>(&out[1..]).unwrap(), text);
        all.push(c);
    }
    all.push('\u{1f600}');
    let mut out = String::new();
    push_json_string(&mut out, &all);
    assert_eq!(out, serde_json::to_string(&all).unwrap());
    let mut out = String::new();
    push_json_string(&mut out, "");
    assert_eq!(out, "\"\"");
    let mut out = String::new();
    push_escaped_char(&mut out, '"');
    push_escaped_char(&mut out, 'a');
    push_escaped_char(&mut out, '\u{1}');
    assert_eq!(out, "\\\"a\\u0001");
    assert_eq!(escape_letter(0x22), Some('"'));
    assert_eq!(escape_letter(0x5c), Some('\\'));
    assert_eq!(escape_letter(0x0a), Some('n'));
    assert_eq!(escape_letter(0x2f), None);
    assert_eq!(escape_letter(0x00), None);
    assert_eq!(hex_digit(0), '0');
    assert_eq!(hex_digit(9), '9');
    assert_eq!(hex_digit(10), 'a');
    assert_eq!(hex_digit(15), 'f');
    assert_eq!(hex_digit(16), 'f');
}
