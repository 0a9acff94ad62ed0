use notify_rust::hints::Hint;
use notify_rust::message::{Message, MessageKind};
use notify_rust::notification::Notification;
use notify_rust::server::{
    actions_from_wire, hints_from_wire, notify_reply, CloseReason, Endpoint, Served, STOP_GRACE_MS,
};
use notify_rust::signals::{ConnectionItem, Correlator};
use notify_rust::timeout::Timeout;
use notify_rust::urgency::Urgency;
use notify_rust::wire::WireValue;
use notify_rust::xdg::{notify_reply_id, Namespace};

fn text(s: &str) -> WireValue {
    WireValue::Str(s.to_owned())
}

fn variant(v: WireValue) -> WireValue {
    WireValue::Variant(Box::new(v))
}

fn dict(entries: Vec<(WireValue, WireValue)>) -> WireValue {
    WireValue::Dict("s".to_owned(), "v".to_owned(), entries)
}

fn method_call(member: &str, items: Vec<WireValue>) -> ConnectionItem {
    ConnectionItem::MethodCall(Message {
        kind: MessageKind::MethodCall,
        destination: Some("org.freedesktop.Notifications".to_owned()),
        path: Some("/org/freedesktop/Notifications".to_owned()),
        interface: Some("org.freedesktop.Notifications".to_owned()),
        member: Some(member.to_owned()),
        items,
    })
}

fn notify(id: u32) -> ConnectionItem {
    method_call(
        "Notify",
        vec![
            text("app"),
            WireValue::UInt32(id),
            text("icon"),
            text("S"),
            text("B"),
            WireValue::Array("s".to_owned(), vec![text("a1"), text("L1")]),
            dict(vec![(text("urgency"), variant(WireValue::Byte(2)))]),
            WireValue::Int32(-1),
        ],
    )
}

fn dispatched(served: Served) -> (u32, Notification) {
    match served {
        Served::Dispatch { id, notification, action, close } => {
            assert_eq!(action.id(), id);
            assert_eq!(close.id(), id);
            (id, notification)
        }
        other => panic!("not dispatched: {:?}", other),
    }
}

#[test]
fn a_notify_call_is_read_into_a_notification_and_gets_a_fresh_id() {
    let mut endpoint = Endpoint::new(Namespace::Production);
    let (id, notification) = dispatched(endpoint.serve(&notify(0)));
    assert_eq!(id, 1);
    assert_eq!(notification.appname, "app");
    assert_eq!(notification.icon, "icon");
    assert_eq!(notification.summary, "S");
    assert_eq!(notification.body, "B");
    assert_eq!(notification.subtitle, None);
    assert_eq!(notification.actions, vec!["a1".to_owned(), "L1".to_owned()]);
    assert_eq!(notification.hints.entries(), &vec![Hint::Urgency(Urgency::Critical)]);
    assert_eq!(notification.timeout, Timeout::Default);
    assert_eq!(notification.id, Some(1));
    assert_eq!(notify_reply(id), vec![WireValue::UInt32(1)]);
    assert_eq!(notify_reply_id(&notify_reply(id)), id);
}

#[test]
fn no_two_calls_get_the_same_fresh_id() {
    let mut endpoint = Endpoint::new(Namespace::Production);
    let mut ids: Vec<u32> = Vec::new();
    for _ in 0..50 {
        let (id, _) = dispatched(endpoint.serve(&notify(0)));
        assert_ne!(id, 0);
        assert!(!ids.contains(&id));
        if let Some(last) = ids.last() {
            assert!(*last < id);
        }
        ids.push(id);
    }
    assert_eq!(ids[0], 1);
    assert_eq!(ids[49], 50);
}

#[test]
fn a_call_that_replaces_a_notification_keeps_its_id() {
    let mut endpoint = Endpoint::new(Namespace::Production);
    let (id, notification) = dispatched(endpoint.serve(&notify(42)));
    assert_eq!(id, 42);
    assert_eq!(notification.id, Some(42));
    let (id, _) = dispatched(endpoint.serve(&notify(0)));
    assert_eq!(id, 1);
}

#[test]
fn what_a_client_sends_is_what_the_endpoint_reads() {
    let mut sent = Notification::new("thunderbird");
    sent.summary("Category:email")
        .body("body")
        .icon("thunderbird")
        .hint(Hint::Category("email".to_owned()))
        .hint(Hint::Resident(true))
        .hint(Hint::X(-3))
        .hint(Hint::Custom("vendor-x".to_owned(), "v".to_owned()))
        .action("default", "Open")
        .timeout(Timeout::Milliseconds(5000));
    let mut endpoint = Endpoint::new(Namespace::Production);
    let (id, got) = dispatched(endpoint.serve(&ConnectionItem::MethodCall(sent.show_call())));
    assert_eq!(id, 1);
    sent.id(1);
    assert_eq!(got, sent);
}

#[test]
fn missing_and_malformed_arguments_are_left_empty() {
    let mut endpoint = Endpoint::new(Namespace::Production);
    let (id, n) = dispatched(endpoint.serve(&method_call("Notify", vec![])));
    assert_eq!(id, 1);
    let mut empty = Notification::new("");
    empty.id(1);
    assert_eq!(n, empty);

    let malformed = method_call(
        "Notify",
        vec![
            WireValue::Int32(1),
            text("7"),
            WireValue::Bool(true),
            text("S"),
            WireValue::UInt32(3),
            text("actions"),
            WireValue::Array("s".to_owned(), vec![]),
            text("soon"),
        ],
    );
    let (id, n) = dispatched(endpoint.serve(&malformed));
    assert_eq!(id, 2);
    let mut expected = Notification::new("");
    expected.summary("S").id(2);
    assert_eq!(n, expected);
}

#[test]
fn a_timeout_is_read_from_its_wire_integer() {
    let items = |timeout: WireValue| {
        vec![
            text("app"),
            WireValue::UInt32(0),
            text(""),
            text(""),
            text(""),
            WireValue::Array("s".to_owned(), vec![]),
            dict(vec![]),
            timeout,
        ]
    };
    assert_eq!(Notification::from_notify_call(&items(WireValue::Int32(5000))).timeout, Timeout::Milliseconds(5000));
    assert_eq!(Notification::from_notify_call(&items(WireValue::Int32(0))).timeout, Timeout::Never);
    assert_eq!(Notification::from_notify_call(&items(WireValue::Int32(-1))).timeout, Timeout::Default);
    assert_eq!(Notification::from_notify_call(&items(WireValue::Int32(-7))).timeout, Timeout::Default);
    assert_eq!(Notification::from_notify_call(&items(WireValue::UInt32(5000))).timeout, Timeout::Default);
    assert_eq!(Notification::from_notify_call(&items(WireValue::Int32(5000))).id, None);
}

#[test]
fn an_unknown_hint_is_kept_and_a_malformed_one_drops_no_other() {
    let hints = hints_from_wire(&dict(vec![
        (text("urgency"), variant(WireValue::Byte(1))),
        (text("vendor-x"), variant(text("value"))),
        (text("resident"), variant(text("not a boolean"))),
        (WireValue::Int32(3), variant(text("no string key"))),
        (text("transient"), variant(WireValue::Bool(true))),
        (text("urgency"), variant(WireValue::Byte(9))),
        (text("vendor-y"), variant(WireValue::Int32(12))),
    ]));
    assert_eq!(
        hints.entries(),
        &vec![
            Hint::Urgency(Urgency::Normal),
            Hint::Custom("vendor-x".to_owned(), "value".to_owned()),
            Hint::Transient(true),
            Hint::Custom("vendor-y".to_owned(), "12".to_owned()),
        ]
    );
    assert!(hints_from_wire(&text("no dictionary")).is_empty());
}

#[test]
fn a_later_entry_of_one_key_wins() {
    let hints = hints_from_wire(&dict(vec![
        (text("x"), variant(WireValue::Int32(1))),
        (text("y"), variant(WireValue::Int32(2))),
        (text("x"), variant(WireValue::Int32(3))),
    ]));
    assert_eq!(hints.entries(), &vec![Hint::X(3), Hint::Y(2)]);
}

#[test]
fn actions_are_read_from_an_array_of_pairs() {
    let array = |items: Vec<WireValue>| WireValue::Array("s".to_owned(), items);
    assert_eq!(actions_from_wire(&array(vec![text("a1"), text("L1")])), vec!["a1", "L1"]);
    assert_eq!(actions_from_wire(&array(vec![])), Vec::<String>::new());
    assert_eq!(actions_from_wire(&array(vec![text("a1"), text("L1"), text("a2")])), Vec::<String>::new());
    assert_eq!(actions_from_wire(&array(vec![text("a1"), WireValue::Int32(1)])), Vec::<String>::new());
    assert_eq!(actions_from_wire(&text("a1")), Vec::<String>::new());
}

#[test]
fn a_stop_call_stops_the_endpoint() {
    let mut endpoint = Endpoint::new(Namespace::Production);
    assert!(!endpoint.is_stopped());
    assert_eq!(endpoint.serve(&method_call("Stop", vec![])), Served::Stop);
    assert!(endpoint.is_stopped());
    assert_eq!(endpoint.serve(&notify(0)), Served::Ignore);
    assert_eq!(endpoint.serve(&method_call("Stop", vec![])), Served::Ignore);
    assert_eq!(STOP_GRACE_MS, 200);
}

#[test]
fn what_the_service_does_not_answer_is_passed_over() {
    let mut endpoint = Endpoint::new(Namespace::Production);
    assert_eq!(endpoint.serve(&ConnectionItem::Nothing), Served::Ignore);
    assert_eq!(endpoint.serve(&method_call("GetCapabilities", vec![])), Served::Ignore);
    let signal = match notify(0) {
        ConnectionItem::MethodCall(m) => ConnectionItem::Signal(m),
        other => other,
    };
    assert_eq!(endpoint.serve(&signal), Served::Ignore);
    let mut debug = Endpoint::new(Namespace::Debug);
    assert_eq!(debug.serve(&notify(0)), Served::Ignore);
    let (id, _) = dispatched(endpoint.serve(&notify(0)));
    assert_eq!(id, 1);
}

#[test]
fn an_endpoint_of_the_test_namespace_answers_calls_to_it() {
    let mut endpoint = Endpoint::new(Namespace::Debug);
    let call = ConnectionItem::MethodCall(Message {
        kind: MessageKind::MethodCall,
        destination: Some("de.hoodie.Notifications".to_owned()),
        path: Some("/de/hoodie/Notifications".to_owned()),
        interface: Some("de.hoodie.Notifications".to_owned()),
        member: Some("Notify".to_owned()),
        items: vec![text("app")],
    });
    let (id, n) = dispatched(endpoint.serve(&call));
    assert_eq!(id, 1);
    assert_eq!(n.appname, "app");
}

#[test]
fn the_senders_emit_the_signals_that_a_waiting_client_looks_for() {
    let mut endpoint = Endpoint::new(Namespace::Production);
    let (action, close) = match endpoint.serve(&notify(0)) {
        Served::Dispatch { action, close, .. } => (action, close),
        other => panic!("not dispatched: {:?}", other),
    };
    let invoked = action.send("open");
    assert_eq!(
        invoked,
        Message {
            kind: MessageKind::Signal,
            destination: None,
            path: Some("/org/freedesktop/Notifications".to_owned()),
            interface: Some("org.freedesktop.Notifications".to_owned()),
            member: Some("ActionInvoked".to_owned()),
            items: vec![WireValue::UInt32(1), text("open")],
        }
    );
    let closed = close.send(CloseReason::Dismissed);
    assert_eq!(closed.member, Some("NotificationClosed".to_owned()));
    assert_eq!(closed.items, vec![WireValue::UInt32(1), WireValue::UInt32(2)]);

    let mut other = Correlator::new(2);
    assert_eq!(other.step(&ConnectionItem::Signal(invoked.clone())), None);
    let mut wait = Correlator::new(1);
    assert_eq!(wait.step(&ConnectionItem::Signal(invoked)), Some("open".to_owned()));
    let mut wait = Correlator::for_close(1);
    assert_eq!(wait.step(&ConnectionItem::Signal(closed)), Some("__closed".to_owned()));
}

#[test]
fn close_reasons_and_their_codes() {
    assert_eq!(CloseReason::Expired.code(), 1);
    assert_eq!(CloseReason::Dismissed.code(), 2);
    assert_eq!(CloseReason::CloseAction.code(), 3);
    assert_eq!(CloseReason::Undefined.code(), 4);
    assert_eq!(CloseReason::from_code(1), CloseReason::Expired);
    assert_eq!(CloseReason::from_code(2), CloseReason::Dismissed);
    assert_eq!(CloseReason::from_code(3), CloseReason::CloseAction);
    assert_eq!(CloseReason::from_code(4), CloseReason::Undefined);
    assert_eq!(CloseReason::from_code(0), CloseReason::Undefined);
    assert_eq!(CloseReason::from_code(77), CloseReason::Undefined);
}

#[test]
fn of_two_entries_of_one_reserved_key_the_one_that_decodes_is_read() {
    let mut sent = Notification::new("app");
    sent.urgency(Urgency::Low).hint(Hint::Custom("urgency".to_owned(), "x".to_owned()));
    let hints = hints_from_wire(&sent.pack_hints());
    assert_eq!(hints.entries(), &vec![Hint::Urgency(Urgency::Low)]);
}
