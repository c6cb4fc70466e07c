use ui_events::AncestorFacts;
use ui_events::ElementSnapshot;
use ui_events::EventType;
use ui_events::JsonValue;
use ui_events::Normalizer;
use ui_events::Position;
use ui_events::RawValue;
use ui_events::Size;
use ui_events::activation_event;
use ui_events::event_type_for_notification;
use ui_events::extract_details;
use ui_events::nonempty;
use ui_events::normalize;
use ui_events::raw_value_to_json;
use ui_events::resolve_window;

fn empty_snapshot() -> ElementSnapshot {
    ElementSnapshot {
        pid: None,
        app_name: None,
        role: None,
        title: None,
        description: None,
        help: None,
        value: None,
        position: None,
        size: None,
        ancestors: Vec::new(),
        focused_window_title: None,
    }
}

#[test]
fn recognized_notifications_map_to_their_kinds() {
    assert_eq!(
        event_type_for_notification("AXFocusedWindowChanged"),
        Some(EventType::WindowFocused)
    );
    assert_eq!(
        event_type_for_notification("AXFocusedUIElementChanged"),
        Some(EventType::ElementFocused)
    );
    assert_eq!(event_type_for_notification("AXValueChanged"), Some(EventType::ValueChanged));
    assert_eq!(event_type_for_notification("AXWindowCreated"), Some(EventType::WindowCreated));
    assert_eq!(event_type_for_notification("AXWindowMoved"), Some(EventType::WindowMoved));
    assert_eq!(event_type_for_notification("AXWindowResized"), Some(EventType::WindowResized));
    assert_eq!(
        event_type_for_notification("AXUIElementDestroyed"),
        Some(EventType::ElementDestroyed)
    );
    assert_eq!(event_type_for_notification("AXMenuOpened"), Some(EventType::MenuOpened));
    assert_eq!(event_type_for_notification("AXMenuClosed"), Some(EventType::MenuClosed));
    assert_eq!(
        event_type_for_notification("AXMenuItemSelected"),
        Some(EventType::MenuItemSelected)
    );
    assert_eq!(
        event_type_for_notification("AXSelectedTextChanged"),
        Some(EventType::SelectedTextChanged)
    );
    assert_eq!(event_type_for_notification("AXTitleChanged"), Some(EventType::TitleChanged));
}

#[test]
fn unrecognized_notification_is_ignored() {
    assert_eq!(event_type_for_notification("AXAnnouncementRequested"), None);
    assert_eq!(event_type_for_notification(""), None);
    let mut n = Normalizer::new();
    assert_eq!(n.observe("AXAnnouncementRequested", &empty_snapshot()), None);
}

#[test]
fn failed_pid_lookup_still_yields_element_facts() {
    // The process-id query failed but the role query succeeded: the event
    // keeps going with the application facts absent.
    let mut snap = empty_snapshot();
    snap.role = Some(String::from("AXTextField"));
    let e = normalize(EventType::ValueChanged, 42, &snap);
    assert_eq!(e.event_type, EventType::ValueChanged);
    assert_eq!(e.application, None);
    let details = e.element.expect("element details are always present");
    assert_eq!(details.role, Some(String::from("AXTextField")));
}

#[test]
fn application_present_exactly_when_pid_known() {
    let mut snap = empty_snapshot();
    snap.pid = Some(321);
    snap.app_name = Some(String::from("TextEdit"));
    let e = normalize(EventType::ElementFocused, 7, &snap);
    let app = e.application.expect("pid was known");
    assert_eq!(app.pid, Some(321));
    assert_eq!(app.name, Some(String::from("TextEdit")));
}

#[test]
fn identifier_fallback_prefers_title_then_description_then_help() {
    let mut snap = empty_snapshot();
    snap.title = Some(String::from(""));
    snap.description = Some(String::from("Save document"));
    snap.help = Some(String::from("help text"));
    let d = extract_details(&snap);
    assert_eq!(d.identifier, Some(String::from("Save document")));

    snap.title = Some(String::from("Save"));
    let d2 = extract_details(&snap);
    assert_eq!(d2.identifier, Some(String::from("Save")));

    snap.title = None;
    snap.description = None;
    let d3 = extract_details(&snap);
    assert_eq!(d3.identifier, Some(String::from("help text")));
}

#[test]
fn empty_attribute_counts_as_absent() {
    assert_eq!(nonempty(&Some(String::from(""))), None);
    assert_eq!(nonempty(&Some(String::from("x"))), Some(String::from("x")));
    assert_eq!(nonempty(&None), None);
}

#[test]
fn window_resolution_prefers_the_element_itself() {
    let mut snap = empty_snapshot();
    snap.role = Some(String::from("AXWindow"));
    snap.title = Some(String::from("Main"));
    snap.ancestors = vec![AncestorFacts {
        role: Some(String::from("AXWindow")),
        title: Some(String::from("Other")),
    }];
    let w = resolve_window(&snap).expect("the element is a window");
    assert_eq!(w.title, Some(String::from("Main")));
    assert_eq!(w.id, None);
}

#[test]
fn window_resolution_walks_ancestors() {
    let mut snap = empty_snapshot();
    snap.role = Some(String::from("AXButton"));
    snap.ancestors = vec![
        AncestorFacts {
            role: Some(String::from("AXGroup")),
            title: None,
        },
        AncestorFacts {
            role: Some(String::from("AXWindow")),
            title: Some(String::from("Document")),
        },
    ];
    let w = resolve_window(&snap).expect("an ancestor is a window");
    assert_eq!(w.title, Some(String::from("Document")));
}

#[test]
fn window_resolution_falls_back_to_focused_window() {
    let mut snap = empty_snapshot();
    snap.role = Some(String::from("AXButton"));
    snap.focused_window_title = Some(Some(String::from("Untitled")));
    let w = resolve_window(&snap).expect("the focused-window fallback answered");
    assert_eq!(w.title, Some(String::from("Untitled")));
}

#[test]
fn window_resolution_can_fail_entirely() {
    let mut snap = empty_snapshot();
    snap.role = Some(String::from("AXButton"));
    assert_eq!(resolve_window(&snap), None);
    let e = normalize(EventType::ValueChanged, 1, &snap);
    assert_eq!(e.window, None);
}

#[test]
fn raw_values_decode_to_json_scalars() {
    assert_eq!(
        raw_value_to_json(&RawValue::Str(String::from("hello"))),
        Some(JsonValue::Str(String::from("hello")))
    );
    assert_eq!(raw_value_to_json(&RawValue::Int(-3)), Some(JsonValue::Int(-3)));
    assert_eq!(raw_value_to_json(&RawValue::Bool(false)), Some(JsonValue::Bool(false)));
    assert_eq!(raw_value_to_json(&RawValue::Unrecognized), None);
}

#[test]
fn date_value_renders_in_rfc3339_form() {
    let r = raw_value_to_json(&RawValue::Date { secs: 0, nanos: 0 });
    assert_eq!(r, Some(JsonValue::Str(String::from("1970-01-01T00:00:00+00:00"))));
    let r2 = raw_value_to_json(&RawValue::Date {
        secs: 947638923,
        nanos: 4000000,
    });
    assert_eq!(r2, Some(JsonValue::Str(String::from("2000-01-12T01:02:03.004+00:00"))));
}

#[test]
fn position_and_size_pass_through() {
    let mut snap = empty_snapshot();
    snap.position = Some(Position { x: 5, y: -7 });
    snap.size = Some(Size {
        width: 1024,
        height: 768,
    });
    let d = extract_details(&snap);
    assert_eq!(d.position, Some(Position { x: 5, y: -7 }));
    assert_eq!(
        d.size,
        Some(Size {
            width: 1024,
            height: 768,
        })
    );
}

#[test]
fn stamps_never_go_backwards() {
    let mut n = Normalizer::new();
    assert_eq!(n.stamp(50), 50);
    assert_eq!(n.stamp(30), 50);
    assert_eq!(n.stamp(51), 51);
    assert_eq!(n.stamp(51), 51);
}

#[test]
fn observed_timestamps_are_monotone() {
    let mut n = Normalizer::new();
    let snap = empty_snapshot();
    let e1 = n.observe("AXValueChanged", &snap).expect("recognized");
    let e2 = n.observe("AXTitleChanged", &snap).expect("recognized");
    assert!(e2.timestamp >= e1.timestamp);
    assert_eq!(e1.event_type, EventType::ValueChanged);
    assert_eq!(e2.event_type, EventType::TitleChanged);
}

#[test]
fn activation_event_shape() {
    let e = activation_event(99, 4242, Some(String::from("Mail")));
    assert_eq!(e.event_type, EventType::ApplicationActivated);
    assert_eq!(e.timestamp, 99);
    let app = e.application.expect("activation names the application");
    assert_eq!(app.pid, Some(4242));
    assert_eq!(app.name, Some(String::from("Mail")));
    assert_eq!(e.window, None);
    assert_eq!(e.element, None);
    assert_eq!(e.event_specific_data, None);
}
