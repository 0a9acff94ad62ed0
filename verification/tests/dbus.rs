use dbus::arg::messageitem::{MessageItem, MessageItemArray, MessageItemDict};
use dbus::strings::{Member, Path, Signature};
use notify_rust::hints::Hint;
use notify_rust::image::Image;
use notify_rust::message::{is_member_name, Message};
use notify_rust::notification::Notification;
use notify_rust::server::{notify_reply, Endpoint, Served};
use notify_rust::signals::ConnectionItem;
use notify_rust::timeout::Timeout;
use notify_rust::urgency::Urgency;
use notify_rust::wire::{array_element_signature, dict_entry_signatures, WireValue};
use notify_rust::xdg::{build_message, notify_reply_id, Namespace};

fn to_item(value: &WireValue) -> Option<MessageItem> {
    Some(match value {
        WireValue::Bool(b) => MessageItem::Bool(*b),
        WireValue::Byte(i) => MessageItem::Byte(*i),
        WireValue::Int16(i) => MessageItem::Int16(*i),
        WireValue::UInt16(i) => MessageItem::UInt16(*i),
        WireValue::Int32(i) => MessageItem::Int32(*i),
        WireValue::UInt32(i) => MessageItem::UInt32(*i),
        WireValue::Int64(i) => MessageItem::Int64(*i),
        WireValue::UInt64(i) => MessageItem::UInt64(*i),
        WireValue::Double(bits) => MessageItem::Double(f64::from_bits(*bits)),
        WireValue::Str(s) => MessageItem::Str(s.clone()),
        WireValue::ObjectPath(s) => MessageItem::ObjectPath(Path::new(s.clone()).ok()?),
        WireValue::Signature(s) => MessageItem::Signature(Signature::new(s.clone()).ok()?),
        WireValue::UnixFd => return None,
        WireValue::Variant(inner) => MessageItem::Variant(Box::new(to_item(inner)?)),
        WireValue::Array(_, items) => {
            let signature = Signature::new(value.signature()).ok()?;
            MessageItem::Array(MessageItemArray::new(to_items(items)?, signature).ok()?)
        }
        WireValue::Struct(items) => MessageItem::Struct(to_items(items)?),
        WireValue::Dict(key, value, entries) => {
            let key = Signature::new(key.clone()).ok()?;
            let value = Signature::new(value.clone()).ok()?;
            let mut pairs = Vec::new();
            for (k, v) in entries {
                pairs.push((to_item(k)?, to_item(v)?));
            }
            MessageItem::Dict(MessageItemDict::new(pairs, key, value).ok()?)
        }
    })
}

fn to_items(values: &[WireValue]) -> Option<Vec<MessageItem>> {
    values.iter().map(to_item).collect()
}

fn from_item(item: &MessageItem) -> WireValue {
    match item {
        MessageItem::Bool(b) => WireValue::Bool(*b),
        MessageItem::Byte(i) => WireValue::Byte(*i),
        MessageItem::Int16(i) => WireValue::Int16(*i),
        MessageItem::UInt16(i) => WireValue::UInt16(*i),
        MessageItem::Int32(i) => WireValue::Int32(*i),
        MessageItem::UInt32(i) => WireValue::UInt32(*i),
        MessageItem::Int64(i) => WireValue::Int64(*i),
        MessageItem::UInt64(i) => WireValue::UInt64(*i),
        MessageItem::Double(f) => WireValue::Double(f.to_bits()),
        MessageItem::Str(s) => WireValue::Str(s.clone()),
        MessageItem::ObjectPath(p) => WireValue::ObjectPath(p.to_string()),
        MessageItem::Signature(s) => WireValue::Signature(s.to_string()),
        MessageItem::UnixFd(_) => WireValue::UnixFd,
        MessageItem::Variant(inner) => WireValue::Variant(Box::new(from_item(inner))),
        MessageItem::Array(array) => {
            WireValue::Array(array_element_signature(array.signature()).unwrap(), from_items(array))
        }
        MessageItem::Struct(items) => WireValue::Struct(from_items(items)),
        MessageItem::Dict(dict) => {
            let (key, value) = dict_entry_signatures(dict.signature()).unwrap();
            WireValue::Dict(key, value, dict.iter().map(|(k, v)| (from_item(k), from_item(v))).collect())
        }
    }
}

fn from_items(items: &[MessageItem]) -> Vec<WireValue> {
    items.iter().map(from_item).collect()
}

fn to_message(message: &Message) -> dbus::Message {
    let mut built = dbus::Message::new_method_call(
        message.destination.clone().unwrap(),
        message.path.clone().unwrap(),
        message.interface.clone().unwrap(),
        message.member.clone().unwrap(),
    )
    .unwrap();
    built.append_items(&to_items(&message.items).unwrap());
    built
}

fn text(s: &str) -> WireValue {
    WireValue::Str(s.to_owned())
}

fn samples() -> Vec<WireValue> {
    let image = Image::from_rgba(1, 2, vec![1, 2, 3, 4, 5, 6, 7, 8]).unwrap().to_wire();
    let dict = WireValue::Dict(
        "s".to_owned(),
        "v".to_owned(),
        vec![
            (text("urgency"), WireValue::Variant(Box::new(WireValue::Byte(2)))),
            (text("image-data"), WireValue::Variant(Box::new(image.clone()))),
        ],
    );
    vec![
        WireValue::Bool(true),
        WireValue::Byte(7),
        WireValue::Int16(-7),
        WireValue::UInt16(7),
        WireValue::Int32(-70000),
        WireValue::UInt32(70000),
        WireValue::Int64(i64::MIN),
        WireValue::UInt64(u64::MAX),
        WireValue::Double(0x4009_21fb_5444_2d18),
        text("text"),
        WireValue::ObjectPath("/org/freedesktop/Notifications".to_owned()),
        WireValue::Signature("a{sv}".to_owned()),
        WireValue::Variant(Box::new(text("inside"))),
        WireValue::Array("s".to_owned(), vec![]),
        WireValue::Array("s".to_owned(), vec![text("a"), text("b")]),
        WireValue::Array("as".to_owned(), vec![WireValue::Array("s".to_owned(), vec![text("a")])]),
        WireValue::Struct(vec![WireValue::Int32(1), text("two"), WireValue::Bool(false)]),
        image,
        dict.clone(),
        WireValue::Struct(vec![dict, WireValue::Array("(is)".to_owned(), vec![])]),
    ]
}

#[test]
fn signatures_agree_with_the_bus_library() {
    for value in samples() {
        let item = to_item(&value).unwrap();
        assert_eq!(value.signature(), item.signature().to_string());
    }
}

#[test]
fn values_survive_the_conversion_to_bus_items_and_back() {
    for value in samples() {
        assert!(value.is_well_typed());
        assert_eq!(from_item(&to_item(&value).unwrap()), value);
    }
}

#[test]
fn the_bus_library_refuses_what_is_not_well_typed() {
    let ill_typed = vec![
        WireValue::Array("s".to_owned(), vec![WireValue::Int32(1)]),
        WireValue::Array("s".to_owned(), vec![text("a"), WireValue::Byte(1)]),
        WireValue::Array("as".to_owned(), vec![WireValue::Array("y".to_owned(), vec![])]),
        WireValue::Dict("s".to_owned(), "v".to_owned(), vec![(text("k"), text("no variant"))]),
        WireValue::Dict(
            "s".to_owned(),
            "v".to_owned(),
            vec![(WireValue::Int32(1), WireValue::Variant(Box::new(text("v"))))],
        ),
        WireValue::Struct(vec![WireValue::Array("i".to_owned(), vec![WireValue::UInt32(1)])]),
    ];
    for value in ill_typed {
        assert!(!value.is_well_typed());
        assert!(to_item(&value).is_none());
    }
}

#[test]
fn packed_actions_are_the_array_that_the_bus_library_makes_of_the_strings() {
    let mut n = Notification::new("app");
    assert_eq!(
        to_item(&n.pack_actions()).unwrap(),
        MessageItem::Array(MessageItemArray::new(vec![], "as".into()).unwrap())
    );
    n.action("a1", "L1").action("a2", "L2");
    let strings: Vec<MessageItem> = n.actions.iter().map(|action| action.to_owned().into()).collect();
    assert_eq!(to_item(&n.pack_actions()).unwrap(), MessageItem::new_array(strings).unwrap());
}

#[test]
fn packed_hints_are_the_dictionary_that_the_bus_library_makes_of_the_pairs() {
    let mut n = Notification::new("app");
    assert_eq!(
        to_item(&n.pack_hints()).unwrap(),
        MessageItem::Dict(MessageItemDict::new(vec![], "s".into(), "v".into()).unwrap())
    );
    assert_eq!(n.pack_hints().signature(), "a{sv}");
    n.urgency(Urgency::Critical).hint(Hint::Category("email".to_owned())).hint(Hint::X(3));
    let pairs: Vec<(MessageItem, MessageItem)> = vec![
        (MessageItem::Str("urgency".to_owned()), MessageItem::Variant(Box::new(MessageItem::Byte(2)))),
        (
            MessageItem::Str("category".to_owned()),
            MessageItem::Variant(Box::new(MessageItem::Str("email".to_owned()))),
        ),
        (MessageItem::Str("x".to_owned()), MessageItem::Variant(Box::new(MessageItem::Int32(3)))),
    ];
    assert_eq!(to_item(&n.pack_hints()).unwrap(), MessageItem::new_dict(pairs).unwrap());
}

#[test]
fn the_bus_library_accepts_the_calls_and_carries_their_arguments() {
    let mut n = Notification::new("app");
    n.summary("S")
        .body("B")
        .icon("icon")
        .action("a1", "L1")
        .urgency(Urgency::Critical)
        .hint(Hint::ImageData(Image::from_rgb(1, 1, vec![1, 2, 3]).unwrap()))
        .timeout(Timeout::Milliseconds(5000));
    let call = n.show_call();
    let sent = to_message(&call);
    assert_eq!(&*sent.destination().unwrap(), "org.freedesktop.Notifications");
    assert_eq!(&*sent.path().unwrap(), "/org/freedesktop/Notifications");
    assert_eq!(&*sent.interface().unwrap(), "org.freedesktop.Notifications");
    assert_eq!(&*sent.member().unwrap(), "Notify");
    let carried = from_items(&sent.get_items());
    assert_eq!(&carried, call.get_items());

    let mut endpoint = Endpoint::new(Namespace::Production);
    let mut arrived = call.clone();
    arrived.items = carried;
    match endpoint.serve(&ConnectionItem::MethodCall(arrived)) {
        Served::Dispatch { id, notification, .. } => {
            n.id(id);
            assert_eq!(notification, n);
            let reply = from_items(&to_items(&notify_reply(id)).unwrap());
            assert_eq!(notify_reply_id(&reply), id);
        }
        other => panic!("not dispatched: {:?}", other),
    }
}

#[test]
fn the_bus_library_accepts_the_names_of_the_methods() {
    for member in ["Notify", "CloseNotification", "GetCapabilities", "GetServerInformation", "Stop"] {
        let sent = to_message(&build_message(member));
        assert_eq!(&*sent.member().unwrap(), member);
        assert_eq!(sent.get_items().len(), 0);
    }
}

#[test]
fn member_names_are_judged_as_the_bus_library_judges_them() {
    let long = "a".repeat(255);
    let too_long = "a".repeat(256);
    let names = [
        "Notify",
        "CloseNotification",
        "GetCapabilities",
        "GetServerInformation",
        "Stop",
        "ActionInvoked",
        "NotificationClosed",
        "",
        "a",
        "_",
        "9",
        "a9",
        "9a",
        "_9",
        "a b",
        "a.b",
        "a-b",
        "a/b",
        "a:b",
        "a!",
        "gr\u{fc}\u{df}e",
        "@",
        "[",
        "`",
        "{",
        "/",
        ":",
        long.as_str(),
        too_long.as_str(),
    ];
    for name in names {
        assert_eq!(is_member_name(name), Member::new(name).is_ok(), "{:?}", name);
    }
}
