use swtchr::sway::subscribe::{
    classify_step, filter_event, ListenerStep, StreamError, SwayEvent, SwayWindowId, WindowChange,
    WindowEvent, WindowNode,
};

fn node(id: i64, urgent: bool) -> WindowNode {
    WindowNode {
        id: SwayWindowId(id),
        urgent,
        name: Some("Editor".to_owned()),
        app_id: Some("editor".to_owned()),
        x_window_class: None,
        x_window_instance: None,
    }
}

#[test]
fn focus_change_yields_focus_event() {
    let result = filter_event(SwayEvent::Window(WindowChange::Focus, node(3, false)), true);
    match result {
        Some(WindowEvent::Focus(window)) => {
            assert_eq!(window.id.0, 3);
            assert_eq!(window.title, "Editor");
            assert_eq!(window.icon_locator.app_id.as_deref(), Some("editor"));
            assert_eq!(window.icon_locator.window_title.as_deref(), Some("Editor"));
        }
        _ => panic!("expected a focus event"),
    }
}

#[test]
fn new_change_yields_focus_event() {
    let result = filter_event(SwayEvent::Window(WindowChange::New, node(4, false)), false);
    assert!(matches!(result, Some(WindowEvent::Focus(_))));
}

#[test]
fn close_change_yields_close_event() {
    let result = filter_event(SwayEvent::Window(WindowChange::Close, node(5, false)), true);
    match result {
        Some(WindowEvent::Close(id)) => assert_eq!(id.0, 5),
        _ => panic!("expected a close event"),
    }
}

#[test]
fn close_works_even_without_identifying_fields() {
    let bare = WindowNode {
        id: SwayWindowId(9),
        urgent: false,
        name: None,
        app_id: None,
        x_window_class: None,
        x_window_instance: None,
    };
    let result = filter_event(SwayEvent::Window(WindowChange::Close, bare), true);
    assert!(matches!(result, Some(WindowEvent::Close(SwayWindowId(9)))));
}

#[test]
fn urgent_ignored_when_policy_is_off() {
    let result = filter_event(SwayEvent::Window(WindowChange::Urgent, node(1, true)), false);
    assert!(result.is_none());
}

#[test]
fn not_urgent_anymore_ignored_even_with_policy_on() {
    let result = filter_event(SwayEvent::Window(WindowChange::Urgent, node(1, false)), true);
    assert!(result.is_none());
}

#[test]
fn urgent_window_floats_to_front_with_policy_on() {
    let result = filter_event(SwayEvent::Window(WindowChange::Urgent, node(1, true)), true);
    assert!(matches!(result, Some(WindowEvent::Focus(_))));
}

#[test]
fn other_window_changes_yield_nothing() {
    let result = filter_event(SwayEvent::Window(WindowChange::Other, node(1, false)), true);
    assert!(result.is_none());
}

#[test]
fn non_window_events_yield_nothing() {
    assert!(filter_event(SwayEvent::Other, true).is_none());
}

#[test]
fn window_without_title_is_not_schedulable() {
    let mut untitled = node(2, false);
    untitled.name = None;
    let result = filter_event(SwayEvent::Window(WindowChange::Focus, untitled), true);
    assert!(result.is_none());
}

#[test]
fn window_without_app_identity_is_not_schedulable() {
    let mut anonymous = node(2, false);
    anonymous.app_id = None;
    let result = filter_event(SwayEvent::Window(WindowChange::Focus, anonymous), true);
    assert!(result.is_none());
}

#[test]
fn x_window_class_counts_as_app_identity() {
    let mut xwindow = node(2, false);
    xwindow.app_id = None;
    xwindow.x_window_class = Some("Editor".to_owned());
    let result = filter_event(SwayEvent::Window(WindowChange::Focus, xwindow), true);
    assert!(matches!(result, Some(WindowEvent::Focus(_))));
}

#[test]
fn listener_applies_classified_events() {
    let item = Ok(SwayEvent::Window(WindowChange::Focus, node(3, false)));
    match classify_step(item, true) {
        ListenerStep::Apply(WindowEvent::Focus(window)) => assert_eq!(window.id.0, 3),
        other => panic!("expected an apply step, got {other:?}"),
    }
}

#[test]
fn listener_skips_non_events() {
    let item = Ok(SwayEvent::Other);
    assert!(matches!(classify_step(item, true), ListenerStep::Skip));
}

#[test]
fn listener_reports_stream_failures() {
    let failure = StreamError { message: "connection dropped".to_owned() };
    match classify_step(Err(failure.clone()), true) {
        ListenerStep::Report(reported) => assert_eq!(reported, failure),
        other => panic!("expected a report step, got {other:?}"),
    }
}

#[test]
fn null_window_id_is_null() {
    assert!(SwayWindowId(0).is_null());
    assert!(!SwayWindowId(12).is_null());
}
