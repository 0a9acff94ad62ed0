use notify_rust::message::{Message, MessageKind};
use notify_rust::signals::{is_closed, ConnectionItem, Correlator, POLL_SLICE_MS};
use notify_rust::wire::WireValue;

fn signal(member: &str, items: Vec<WireValue>) -> Message {
    Message {
        kind: MessageKind::Signal,
        destination: None,
        path: Some("/org/freedesktop/Notifications".to_owned()),
        interface: Some("org.freedesktop.Notifications".to_owned()),
        member: Some(member.to_owned()),
        items,
    }
}

fn action_invoked(id: u32, action: &str) -> ConnectionItem {
    ConnectionItem::Signal(signal("ActionInvoked", vec![WireValue::UInt32(id), WireValue::Str(action.to_owned())]))
}

fn closed(id: u32, reason: u32) -> ConnectionItem {
    ConnectionItem::Signal(signal("NotificationClosed", vec![WireValue::UInt32(id), WireValue::UInt32(reason)]))
}

#[test]
fn the_callback_fires_once_for_the_first_signal_about_the_notification() {
    let mut wait = Correlator::new(7);
    let mut calls: Vec<String> = Vec::new();
    let items = vec![
        action_invoked(3, "ignore"),
        action_invoked(7, "open"),
        action_invoked(7, "again"),
        closed(7, 2),
    ];
    assert_eq!(wait.step(&items[0]), None);
    assert!(!wait.is_done());
    for item in &items {
        if let Some(action) = wait.step(item) {
            calls.push(action);
        }
    }
    assert_eq!(calls, vec!["open"]);
    assert!(wait.is_done());
    assert_eq!(wait.step(&action_invoked(7, "late")), None);
    assert!(wait.is_done());
}

#[test]
fn a_closed_notification_calls_back_with_the_closed_text() {
    let mut wait = Correlator::new(7);
    assert_eq!(wait.step(&closed(8, 1)), None);
    assert!(!wait.is_done());
    assert_eq!(wait.step(&closed(7, 1)), Some("__closed".to_owned()));
    assert!(wait.is_done());
    assert!(is_closed("__closed"));
    assert!(!is_closed("open"));
    assert!(!is_closed(""));
}

#[test]
fn what_is_no_signal_about_the_notification_is_dropped() {
    let mut wait = Correlator::new(7);
    let mut other_path = signal("ActionInvoked", vec![WireValue::UInt32(7), WireValue::Str("a".to_owned())]);
    other_path.path = Some("/de/hoodie/Notifications".to_owned());
    let mut other_interface = signal("ActionInvoked", vec![WireValue::UInt32(7), WireValue::Str("a".to_owned())]);
    other_interface.interface = Some("org.freedesktop.DBus".to_owned());
    let mut no_member = signal("ActionInvoked", vec![WireValue::UInt32(7), WireValue::Str("a".to_owned())]);
    no_member.member = None;
    let dropped = vec![
        ConnectionItem::Nothing,
        ConnectionItem::MethodCall(signal("ActionInvoked", vec![WireValue::UInt32(7), WireValue::Str("a".to_owned())])),
        ConnectionItem::MethodReturn(signal("ActionInvoked", vec![WireValue::UInt32(7), WireValue::Str("a".to_owned())])),
        ConnectionItem::Signal(other_path),
        ConnectionItem::Signal(other_interface),
        ConnectionItem::Signal(no_member),
        ConnectionItem::Signal(signal("NameAcquired", vec![WireValue::UInt32(7), WireValue::Str("a".to_owned())])),
        ConnectionItem::Signal(signal("ActionInvoked", vec![])),
        ConnectionItem::Signal(signal("ActionInvoked", vec![WireValue::UInt32(7)])),
        ConnectionItem::Signal(signal("ActionInvoked", vec![WireValue::Int32(7), WireValue::Str("a".to_owned())])),
        ConnectionItem::Signal(signal("ActionInvoked", vec![WireValue::UInt32(7), WireValue::UInt32(1)])),
        ConnectionItem::Signal(signal("NotificationClosed", vec![WireValue::UInt32(7), WireValue::Str("a".to_owned())])),
        ConnectionItem::Signal(signal("NotificationClosed", vec![WireValue::UInt32(7)])),
    ];
    for item in &dropped {
        assert_eq!(wait.step(item), None);
        assert!(!wait.is_done());
    }
    assert_eq!(wait.step(&action_invoked(7, "open")), Some("open".to_owned()));
}

#[test]
fn a_wait_for_the_closing_calls_back_only_for_the_closing() {
    let mut wait = Correlator::for_close(7);
    assert_eq!(wait.step(&action_invoked(3, "ignore")), None);
    assert!(!wait.is_done());
    assert_eq!(wait.step(&closed(7, 2)), Some("__closed".to_owned()));
    assert!(wait.is_done());

    let mut wait = Correlator::for_close(7);
    assert_eq!(wait.step(&action_invoked(7, "open")), None);
    assert!(wait.is_done());
    assert_eq!(wait.step(&closed(7, 2)), None);
}

#[test]
fn the_match_rules_name_both_signals() {
    assert_eq!(
        Correlator::match_rules(),
        vec![
            "interface='org.freedesktop.Notifications',member='ActionInvoked'",
            "interface='org.freedesktop.Notifications',member='NotificationClosed'",
        ]
    );
    assert_eq!(POLL_SLICE_MS, 1000);
}

#[test]
fn a_cancelled_wait_calls_nothing() {
    let mut wait = Correlator::new(7);
    wait.cancel();
    assert!(wait.is_done());
    assert_eq!(wait.step(&action_invoked(7, "open")), None);
    assert_eq!(wait.step(&closed(7, 1)), None);
    assert_eq!(wait.id(), 7);
}
