use ui_events::ApplicationInfo;
use ui_events::ElementDetails;
use ui_events::EventType;
use ui_events::JsonValue;
use ui_events::Position;
use ui_events::Size;
use ui_events::UiEvent;
use ui_events::WindowInfo;
use ui_events::deserialize;
use ui_events::serialize;

fn full_event() -> UiEvent {
    UiEvent {
        event_type: EventType::WindowFocused,
        timestamp: 1712345678901,
        application: Some(ApplicationInfo {
            name: Some(String::from("Finder")),
            pid: Some(123),
        }),
        window: Some(WindowInfo {
            title: Some(String::from("Desktop")),
            id: None,
        }),
        element: Some(ElementDetails {
            role: Some(String::from("AXWindow")),
            identifier: None,
            value: Some(JsonValue::Int(-5)),
            position: Some(Position { x: 10, y: -20 }),
            size: Some(Size {
                width: 800,
                height: 600,
            }),
        }),
        event_specific_data: Some(JsonValue::Bool(true)),
    }
}

fn minimal_event() -> UiEvent {
    UiEvent {
        event_type: EventType::MenuOpened,
        timestamp: 0,
        application: None,
        window: None,
        element: None,
        event_specific_data: None,
    }
}

#[test]
fn serialize_full_event_exact() {
    let expected = "{\"event_type\":\"WindowFocused\",\"timestamp\":1712345678901,\
                    \"application\":{\"name\":\"Finder\",\"pid\":123},\
                    \"window\":{\"title\":\"Desktop\",\"id\":null},\
                    \"element\":{\"role\":\"AXWindow\",\"identifier\":null,\"value\":-5,\
                    \"position\":{\"x\":10,\"y\":-20},\"size\":{\"width\":800,\"height\":600}},\
                    \"event_specific_data\":true}";
    assert_eq!(serialize(&full_event()), expected);
}

#[test]
fn serialize_minimal_event_absent_fields_are_null() {
    let expected = "{\"event_type\":\"MenuOpened\",\"timestamp\":0,\"application\":null,\
                    \"window\":null,\"element\":null,\"event_specific_data\":null}";
    assert_eq!(serialize(&minimal_event()), expected);
}

#[test]
fn serialize_escapes_quote_backslash_and_controls() {
    let mut e = minimal_event();
    e.window = Some(WindowInfo {
        title: Some(String::from("a\"b\\c\nd")),
        id: None,
    });
    let out = serialize(&e);
    assert!(out.contains("\"title\":\"a\\\"b\\\\c\\u000ad\""));
}

#[test]
fn round_trip_full_event() {
    let e = full_event();
    let text = serialize(&e);
    let parsed = deserialize(&text).expect("canonical frame must parse");
    assert_eq!(parsed, e);
    assert_eq!(serialize(&parsed), text);
}

#[test]
fn round_trip_minimal_event() {
    let e = minimal_event();
    let text = serialize(&e);
    let parsed = deserialize(&text).expect("canonical frame must parse");
    assert_eq!(parsed, e);
    assert_eq!(serialize(&parsed), text);
}

#[test]
fn round_trip_escaped_strings() {
    let mut e = minimal_event();
    e.application = Some(ApplicationInfo {
        name: Some(String::from("tab\there \"quoted\" back\\slash")),
        pid: None,
    });
    e.element = Some(ElementDetails {
        role: None,
        identifier: Some(String::from("line\r\nbreak")),
        value: Some(JsonValue::Str(String::from("\u{1}\u{1f}plain"))),
        position: None,
        size: None,
    });
    let text = serialize(&e);
    let parsed = deserialize(&text).expect("canonical frame must parse");
    assert_eq!(parsed, e);
    assert_eq!(serialize(&parsed), text);
}

#[test]
fn round_trip_extreme_timestamps() {
    for ts in [i64::MIN, -1, 1, i64::MAX] {
        let mut e = minimal_event();
        e.timestamp = ts;
        let text = serialize(&e);
        let parsed = deserialize(&text).expect("canonical frame must parse");
        assert_eq!(parsed, e);
        assert_eq!(serialize(&parsed), text);
    }
}

#[test]
fn round_trip_stability_with_present_null_scalar() {
    let mut e = minimal_event();
    e.event_specific_data = Some(JsonValue::Null);
    let text = serialize(&e);
    let parsed = deserialize(&text).expect("canonical frame must parse");
    // A present `null` scalar and an absent field are the same thing on the
    // wire: the re-encoded text is identical even though the parsed event
    // holds the canonical (absent) form.
    assert_eq!(parsed.event_specific_data, None);
    assert_eq!(serialize(&parsed), text);
}

#[test]
fn every_event_type_name_round_trips() {
    let kinds = [
        EventType::ApplicationActivated,
        EventType::ApplicationDeactivated,
        EventType::WindowFocused,
        EventType::WindowCreated,
        EventType::WindowMoved,
        EventType::WindowResized,
        EventType::ElementFocused,
        EventType::ValueChanged,
        EventType::ElementDestroyed,
        EventType::MenuOpened,
        EventType::MenuClosed,
        EventType::MenuItemSelected,
        EventType::SelectionChanged,
        EventType::SelectedTextChanged,
        EventType::TitleChanged,
    ];
    for kind in kinds {
        let mut e = minimal_event();
        e.event_type = kind;
        let parsed = deserialize(&serialize(&e)).expect("canonical frame must parse");
        assert_eq!(parsed.event_type, kind);
    }
}

#[test]
fn serialized_frame_is_valid_json() {
    let text = serialize(&full_event());
    let v: serde_json::Value = serde_json::from_str(&text).expect("frame must be valid JSON");
    assert_eq!(v["event_type"], serde_json::Value::String(String::from("WindowFocused")));
    assert_eq!(v["timestamp"], serde_json::Value::from(1712345678901i64));
    assert_eq!(v["application"]["name"], serde_json::Value::String(String::from("Finder")));
    assert_eq!(v["application"]["pid"], serde_json::Value::from(123));
    assert_eq!(v["window"]["id"], serde_json::Value::Null);
    assert_eq!(v["element"]["value"], serde_json::Value::from(-5));
    assert_eq!(v["event_specific_data"], serde_json::Value::Bool(true));
}

#[test]
fn deserialize_rejects_non_canonical_text() {
    assert_eq!(deserialize(""), None);
    assert_eq!(deserialize("{}"), None);
    assert_eq!(deserialize("not json"), None);
    assert_eq!(deserialize("{\"event_type\":\"NoSuchKind\",\"timestamp\":0}"), None);
    let good = serialize(&minimal_event());
    let mut truncated = good.clone();
    truncated.pop();
    assert_eq!(deserialize(&truncated), None);
    let trailing = format!("{} ", good);
    assert_eq!(deserialize(&trailing), None);
}
