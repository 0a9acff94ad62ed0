//! The provider side of the notification interface: a service endpoint that
//! takes `Notify` calls from clients, reads them back into notifications,
//! gives each new notification an id of its own and hands it on.
//!
//! The endpoint holds no connection. The caller owns the bus name, polls the
//! connection and hands each item to [`Endpoint::serve`], which says what to
//! do: answer and dispatch, stop, or pass over.

use vstd::prelude::*;
use crate::hint_set::{
    all_decodable, distinct_tags, has_tag, hint_of_tag, index_of_tag, inserted,
    lemma_inserted_keeps_distinct, lemma_inserted_keeps_others, HintSet,
};
use crate::hints::{
    decoded, lemma_hint_round_trip, lemma_unknown_key_decodes, reserved_key, Hint, HintTagView,
    HintView,
};
use crate::message::{Message, MessageView};
use crate::notification::{Notification, NotificationView};
use crate::signals::{addressed, callback_argument, ConnectionItem, ConnectionItemView};
use crate::text::{holds, string_views};
use crate::timeout::{lemma_timeout_round_trip, Timeout};
use crate::wire::{
    entry_models, lemma_container_models, wire_models, wire_text, WireValue, ValueView,
};
use crate::xdg::{assigned_id, string_at, unwrap_message_string, Namespace};

verus! {

/// Why a notification was closed.
#[derive(Clone, Copy, Debug, PartialEq, Eq, Structural)]
pub enum CloseReason {
    /// The notification expired. Code 1.
    Expired,
    /// The user dismissed the notification. Code 2.
    Dismissed,
    /// A call of `CloseNotification` closed the notification. Code 3.
    CloseAction,
    /// Another reason, or none that is known. Code 4.
    Undefined,
}

impl CloseReason {
    /// The code of the reason in the `NotificationClosed` signal.
    pub open spec fn code_spec(self) -> u32 {
        match self {
            CloseReason::Expired => 1,
            CloseReason::Dismissed => 2,
            CloseReason::CloseAction => 3,
            CloseReason::Undefined => 4,
        }
    }

    /// The reason that a code stands for; a code that stands for none is
    /// read as [`CloseReason::Undefined`].
    pub open spec fn of_code(code: u32) -> CloseReason {
        if code == 1 {
            CloseReason::Expired
        } else if code == 2 {
            CloseReason::Dismissed
        } else if code == 3 {
            CloseReason::CloseAction
        } else {
            CloseReason::Undefined
        }
    }

    /// The code of the reason in the `NotificationClosed` signal.
    pub fn code(self) -> (code: u32)
        ensures
            code == self.code_spec(),
            1 <= code <= 4,
    {
        match self {
            CloseReason::Expired => 1,
            CloseReason::Dismissed => 2,
            CloseReason::CloseAction => 3,
            CloseReason::Undefined => 4,
        }
    }

    /// Reads a reason code.
    pub fn from_code(code: u32) -> (reason: CloseReason)
        ensures
            reason == CloseReason::of_code(code),
    {
        if code == 1 {
            CloseReason::Expired
        } else if code == 2 {
            CloseReason::Dismissed
        } else if code == 3 {
            CloseReason::CloseAction
        } else {
            CloseReason::Undefined
        }
    }
}

/// Whether every item is a string.
pub open spec fn all_strings(items: Seq<ValueView>) -> bool {
    forall|i: int| 0 <= i < items.len() ==> items[i] is Str
}

/// The strings that a sequence of string items holds.
pub open spec fn item_strings(items: Seq<ValueView>) -> Seq<Seq<char>> {
    Seq::new(items.len(), |i: int| items[i]->Str_0)
}

/// The actions that the actions argument of a `Notify` call holds: the
/// strings of an array of strings of even length. Anything else is no list
/// of actions and is read as the empty list.
pub open spec fn actions_of(v: ValueView) -> Seq<Seq<char>> {
    match v {
        ValueView::Array(_, items) => if items.len() % 2 == 0 && all_strings(items) {
            item_strings(items)
        } else {
            Seq::empty()
        },
        _ => Seq::empty(),
    }
}

/// The hints that the entries of a dictionary hold, entry by entry: an
/// entry with a string key that decodes is inserted. An entry with another
/// key, or one that does not decode, is passed over and leaves the others
/// untouched.
pub open spec fn hints_of_entries(entries: Seq<(ValueView, ValueView)>) -> Seq<HintView>
    decreases entries.len(),
{
    if entries.len() == 0 {
        Seq::empty()
    } else {
        let before = hints_of_entries(entries.drop_last());
        match entries.last().0 {
            ValueView::Str(key) => match decoded(key, entries.last().1) {
                Ok(hint) => inserted(before, hint),
                Err(_) => before,
            },
            _ => before,
        }
    }
}

/// The hints that the hints argument of a `Notify` call holds; none where
/// it is no dictionary.
pub open spec fn hints_of(v: ValueView) -> Seq<HintView> {
    match v {
        ValueView::Dict(_, _, entries) => hints_of_entries(entries),
        _ => Seq::empty(),
    }
}

/// The notification that the arguments of a `Notify` call describe. Each
/// field is read from its place; a field that is missing or of another kind
/// is left empty, and the timeout is then left to the server. The id is the
/// one that the call asks to replace, where it is not 0.
pub open spec fn received(items: Seq<ValueView>) -> NotificationView {
    NotificationView {
        appname: string_at(items, 0),
        summary: string_at(items, 3),
        subtitle: None,
        body: string_at(items, 4),
        icon: string_at(items, 2),
        hints: if items.len() > 6 {
            hints_of(items[6])
        } else {
            Seq::empty()
        },
        actions: if items.len() > 5 {
            actions_of(items[5])
        } else {
            Seq::empty()
        },
        timeout: if items.len() > 7 && items[7] is Int32 {
            Timeout::of_wire(items[7]->Int32_0)
        } else {
            Timeout::Default
        },
        id: if items.len() > 1 && items[1] is UInt32 && items[1]->UInt32_0 != 0 {
            Some(items[1]->UInt32_0)
        } else {
            None
        },
    }
}

/// Reads the actions argument of a `Notify` call.
pub fn actions_from_wire(value: &WireValue) -> (actions: Vec<String>)
    ensures
        string_views(actions@) == actions_of(value@),
{
    let mut actions: Vec<String> = Vec::new();
    assert(string_views(actions@) =~= Seq::<Seq<char>>::empty());
    proof {
        lemma_container_models(*value);
    }
    let items = match value {
        WireValue::Array(_, items) => items,
        _ => {
            return actions;
        },
    };
    if items.len() % 2 != 0 {
        return actions;
    }
    let mut i: usize = 0;
    while i < items.len()
        invariant
            i <= items.len(),
            actions@.len() == i,
            forall|j: int| 0 <= j < i ==> items@[j]@ == ValueView::Str(actions@[j]@),
            value@ == ValueView::Array(value@->Array_0, wire_models(items@)),
            items@.len() % 2 == 0,
        decreases items.len() - i,
    {
        match &items[i] {
            WireValue::Str(action) => {
                actions.push(action.clone());
            },
            _ => {
                assert(!(wire_models(items@)[i as int] is Str));
                let none: Vec<String> = Vec::new();
                assert(string_views(none@) =~= Seq::<Seq<char>>::empty());
                return none;
            },
        }
        i += 1;
    }
    assert(all_strings(wire_models(items@)));
    assert(string_views(actions@) =~= item_strings(wire_models(items@)));
    actions
}

/// Reads the hints argument of a `Notify` call.
pub fn hints_from_wire(value: &WireValue) -> (hints: HintSet)
    ensures
        hints@ == hints_of(value@),
{
    let mut hints = HintSet::new();
    proof {
        lemma_container_models(*value);
    }
    let entries = match value {
        WireValue::Dict(_, _, entries) => entries,
        _ => {
            return hints;
        },
    };
    let ghost all = entry_models(entries@);
    assert(all.take(0) =~= Seq::<(ValueView, ValueView)>::empty());
    let mut i: usize = 0;
    while i < entries.len()
        invariant
            i <= entries.len(),
            all == entry_models(entries@),
            hints@ == hints_of_entries(all.take(i as int)),
        decreases entries.len() - i,
    {
        proof {
            assert(all.take(i + 1).drop_last() =~= all.take(i as int));
            assert(all.take(i + 1).last() == (entries@[i as int].0@, entries@[i as int].1@));
        }
        if let WireValue::Str(key) = &entries[i].0 {
            if let Ok(hint) = Hint::decode(key.as_str(), &entries[i].1) {
                hints.insert(hint);
            }
        }
        i += 1;
    }
    assert(all.take(entries.len() as int) =~= all);
    hints
}

impl Notification {
    /// Reads the arguments of a `Notify` call back into a notification.
    pub fn from_notify_call(items: &Vec<WireValue>) -> (notification: Notification)
        ensures
            notification@ == received(wire_models(items@)),
    {
        let n = items.len();
        let appname = unwrap_message_string(if n > 0 { Some(&items[0]) } else { None });
        let icon = unwrap_message_string(if n > 2 { Some(&items[2]) } else { None });
        let summary = unwrap_message_string(if n > 3 { Some(&items[3]) } else { None });
        let body = unwrap_message_string(if n > 4 { Some(&items[4]) } else { None });
        let mut notification = Notification::new(appname.as_str());
        notification.icon(icon.as_str()).summary(summary.as_str()).body(body.as_str());
        if n > 1 {
            if let WireValue::UInt32(id) = &items[1] {
                if *id != 0 {
                    notification.id = Some(*id);
                }
            }
        }
        if n > 5 {
            notification.actions = actions_from_wire(&items[5]);
        }
        if n > 6 {
            notification.hints = hints_from_wire(&items[6]);
        }
        if n > 7 {
            if let WireValue::Int32(wire) = &items[7] {
                notification.timeout = Timeout::from_wire(*wire);
            }
        }
        notification
    }
}

/// The arguments of the reply to a `Notify` call: the id of the
/// notification.
pub fn notify_reply(id: u32) -> (reply: Vec<WireValue>)
    ensures
        wire_models(reply@) == seq![ValueView::UInt32(id)],
{
    let mut reply: Vec<WireValue> = Vec::new();
    reply.push(WireValue::UInt32(id));
    assert(wire_models(reply@) =~= seq![ValueView::UInt32(id)]);
    reply
}

/// The right to tell the clients, once, that an action of a notification
/// was invoked. Sending uses the right up.
#[derive(Debug, PartialEq, Eq)]
pub struct ActionSender {
    namespace: Namespace,
    id: u32,
}

/// The right to tell the clients, once, that a notification was closed.
/// Sending uses the right up.
#[derive(Debug, PartialEq, Eq)]
pub struct CloseSender {
    namespace: Namespace,
    id: u32,
}

/// The signal that tells of an invoked action.
pub open spec fn action_invoked(namespace: Namespace, id: u32, action: Seq<char>) -> MessageView {
    MessageView::signal(
        namespace.object_path_spec(),
        namespace.name_spec(),
        "ActionInvoked"@,
        seq![ValueView::UInt32(id), ValueView::Str(action)],
    )
}

/// The signal that tells of a closed notification.
pub open spec fn notification_closed(namespace: Namespace, id: u32, reason: CloseReason) -> MessageView {
    MessageView::signal(
        namespace.object_path_spec(),
        namespace.name_spec(),
        "NotificationClosed"@,
        seq![ValueView::UInt32(id), ValueView::UInt32(reason.code_spec())],
    )
}

impl ActionSender {
    /// The namespace of the service that emits.
    pub closed spec fn namespace_spec(&self) -> Namespace {
        self.namespace
    }

    /// The id of the notification.
    pub closed spec fn id_spec(&self) -> u32 {
        self.id
    }

    /// The id of the notification.
    pub fn id(&self) -> (id: u32)
        ensures
            id == self.id_spec(),
    {
        self.id
    }

    /// The `ActionInvoked` signal for the action, to be emitted.
    pub fn send(self, action: &str) -> (signal: Message)
        ensures
            signal@ == action_invoked(self.namespace_spec(), self.id_spec(), action@),
    {
        let mut signal = Message::new_signal(
            self.namespace.object_path(),
            self.namespace.name(),
            "ActionInvoked",
        );
        signal.append(WireValue::UInt32(self.id));
        signal.append(WireValue::Str(action.to_owned()));
        assert(signal@.items =~= seq![ValueView::UInt32(self.id), ValueView::Str(action@)]);
        signal
    }
}

impl CloseSender {
    /// The namespace of the service that emits.
    pub closed spec fn namespace_spec(&self) -> Namespace {
        self.namespace
    }

    /// The id of the notification.
    pub closed spec fn id_spec(&self) -> u32 {
        self.id
    }

    /// The id of the notification.
    pub fn id(&self) -> (id: u32)
        ensures
            id == self.id_spec(),
    {
        self.id
    }

    /// The `NotificationClosed` signal with the reason, to be emitted.
    pub fn send(self, reason: CloseReason) -> (signal: Message)
        ensures
            signal@ == notification_closed(self.namespace_spec(), self.id_spec(), reason),
    {
        let mut signal = Message::new_signal(
            self.namespace.object_path(),
            self.namespace.name(),
            "NotificationClosed",
        );
        signal.append(WireValue::UInt32(self.id));
        signal.append(WireValue::UInt32(reason.code()));
        assert(signal@.items =~= seq![ValueView::UInt32(self.id), ValueView::UInt32(reason.code_spec())]);
        signal
    }
}

/// What the endpoint is asked by an item that arrives.
pub enum Request {
    /// A `Notify` call of the service, with its arguments.
    Notify(Seq<ValueView>),
    /// A `Stop` call of the service.
    Stop,
    /// Anything else.
    Other,
}

/// What an item asks of the service of a namespace.
pub open spec fn request_of(namespace: Namespace, item: ConnectionItemView) -> Request {
    match item {
        ConnectionItemView::MethodCall(m) => if addressed(
            m,
            namespace.object_path_spec(),
            namespace.name_spec(),
            "Notify"@,
        ) {
            Request::Notify(m.items)
        } else if addressed(m, namespace.object_path_spec(), namespace.name_spec(), "Stop"@) {
            Request::Stop
        } else {
            Request::Other
        },
        _ => Request::Other,
    }
}

/// The model of an [`Endpoint`]: its namespace, the number of ids that it
/// has given out, which is the last id that it gave, and whether it was
/// stopped.
pub struct EndpointView {
    pub namespace: Namespace,
    pub issued: u32,
    pub stopped: bool,
}

/// The model of a [`Served`].
pub enum ServedView {
    Dispatch { id: u32, notification: NotificationView },
    Stop,
    Exhausted,
    Ignore,
}

impl EndpointView {
    /// The endpoint after an item, and what is to be done about the item.
    ///
    /// A stopped endpoint passes over everything. A `Notify` call is read
    /// into a notification. Where the call asks to replace a notification,
    /// its id is kept; else the notification gets the next id, one more
    /// than the last that was given, as long as there is one left. A
    /// `Stop` call stops the endpoint.
    pub open spec fn served(self, item: ConnectionItemView) -> (EndpointView, ServedView) {
        if self.stopped {
            (self, ServedView::Ignore)
        } else {
            match request_of(self.namespace, item) {
                Request::Notify(items) => {
                    let incoming = received(items);
                    match incoming.id {
                        Some(id) => (self, ServedView::Dispatch { id, notification: incoming }),
                        None => if self.issued < u32::MAX {
                            let id = (self.issued + 1) as u32;
                            (
                                EndpointView { issued: id, ..self },
                                ServedView::Dispatch {
                                    id,
                                    notification: NotificationView { id: Some(id), ..incoming },
                                },
                            )
                        } else {
                            (self, ServedView::Exhausted)
                        },
                    }
                },
                Request::Stop => (EndpointView { stopped: true, ..self }, ServedView::Stop),
                Request::Other => (self, ServedView::Ignore),
            }
        }
    }

    /// The endpoint after a run of items, and the ids that it gave to new
    /// notifications during the run, in order.
    pub open spec fn run(self, items: Seq<ConnectionItemView>) -> (EndpointView, Seq<u32>)
        decreases items.len(),
    {
        if items.len() == 0 {
            (self, Seq::empty())
        } else {
            let (before, ids) = self.run(items.drop_last());
            let after = before.served(items.last()).0;
            (
                after,
                if after.issued != before.issued {
                    ids.push(after.issued)
                } else {
                    ids
                },
            )
        }
    }
}

/// What is to be done about an item that arrived at the endpoint.
#[derive(Debug, PartialEq, Eq)]
pub enum Served {
    /// A notification arrived. The caller answers the call at once with
    /// [`notify_reply`] of the id, and hands the notification and the two
    /// senders to its handler without waiting for it.
    Dispatch {
        /// The id under which the notification is known from now on.
        id: u32,
        /// The notification, with that id set.
        notification: Notification,
        /// The right to tell of an invoked action.
        action: ActionSender,
        /// The right to tell of the closing.
        close: CloseSender,
    },
    /// The service was asked to stop. The caller leaves its loop after
    /// [`STOP_GRACE_MS`].
    Stop,
    /// A new notification arrived and no id is left for it. The call gets
    /// no id.
    Exhausted,
    /// The item is nothing that the service answers.
    Ignore,
}

impl View for Served {
    type V = ServedView;

    open spec fn view(&self) -> ServedView {
        match self {
            Served::Dispatch { id, notification, action, close } => ServedView::Dispatch {
                id: *id,
                notification: notification@,
            },
            Served::Stop => ServedView::Stop,
            Served::Exhausted => ServedView::Exhausted,
            Served::Ignore => ServedView::Ignore,
        }
    }
}

/// How long a stopped service goes on before it leaves its loop, in
/// milliseconds.
pub const STOP_GRACE_MS: u64 = 200;

/// The state of a notification service: the ids that it has given out.
#[derive(Debug, PartialEq, Eq)]
pub struct Endpoint {
    namespace: Namespace,
    issued: u32,
    stopped: bool,
}

impl View for Endpoint {
    type V = EndpointView;

    closed spec fn view(&self) -> EndpointView {
        EndpointView { namespace: self.namespace, issued: self.issued, stopped: self.stopped }
    }
}

impl Endpoint {
    /// The endpoint of a service that has given out no id yet.
    pub fn new(namespace: Namespace) -> (endpoint: Endpoint)
        ensures
            endpoint@ == (EndpointView { namespace, issued: 0, stopped: false }),
    {
        Endpoint { namespace, issued: 0, stopped: false }
    }

    /// Whether the service was stopped.
    pub fn is_stopped(&self) -> (stopped: bool)
        ensures
            stopped == self@.stopped,
    {
        self.stopped
    }

    /// Takes the next item of the connection and says what is to be done
    /// about it. The senders of a dispatched notification are for its id
    /// and for the namespace of the endpoint.
    pub fn serve(&mut self, item: &ConnectionItem) -> (served: Served)
        ensures
            final(self)@ == old(self)@.served(item@).0,
            served@ == old(self)@.served(item@).1,
            served matches Served::Dispatch { id, action, close, .. } ==> {
                &&& action.id_spec() == id
                &&& close.id_spec() == id
                &&& action.namespace_spec() == old(self)@.namespace
                &&& close.namespace_spec() == old(self)@.namespace
            },
    {
        if self.stopped {
            return Served::Ignore;
        }
        let call = match item {
            ConnectionItem::MethodCall(call) => call,
            _ => {
                return Served::Ignore;
            },
        };
        if !holds(&call.path, self.namespace.object_path()) || !holds(
            &call.interface,
            self.namespace.name(),
        ) {
            return Served::Ignore;
        }
        if holds(&call.member, "Notify") {
            let mut notification = Notification::from_notify_call(&call.items);
            let id = match notification.id {
                Some(id) => id,
                None => {
                    if self.issued == u32::MAX {
                        return Served::Exhausted;
                    }
                    self.issued = self.issued + 1;
                    notification.id = Some(self.issued);
                    self.issued
                },
            };
            Served::Dispatch {
                id,
                notification,
                action: ActionSender { namespace: self.namespace, id },
                close: CloseSender { namespace: self.namespace, id },
            }
        } else if holds(&call.member, "Stop") {
            self.stopped = true;
            Served::Stop
        } else {
            Served::Ignore
        }
    }
}

/// Every id that an endpoint gives to a new notification is larger than all
/// that it gave before: over any run of items the ids given are not 0 and
/// strictly increasing, so no two calls get the same id.
pub proof fn lemma_fresh_ids_increase(e: EndpointView, items: Seq<ConnectionItemView>)
    ensures
        e.issued <= e.run(items).0.issued,
        e.run(items).0.namespace == e.namespace,
        forall|i: int|
            0 <= i < e.run(items).1.len() ==> e.issued < (#[trigger] e.run(items).1[i])
                <= e.run(items).0.issued,
        forall|i: int, j: int|
            0 <= i < j < e.run(items).1.len() ==> (#[trigger] e.run(items).1[i]) < (
            #[trigger] e.run(items).1[j]),
    decreases items.len(),
{
    if items.len() > 0 {
        lemma_fresh_ids_increase(e, items.drop_last());
    }
}

/// A client reads from the reply to `Notify` the id that the endpoint put
/// into it.
pub proof fn lemma_reply_carries_id(id: u32)
    ensures
        assigned_id(seq![ValueView::UInt32(id)]) == id,
{
}

/// What the senders of the desktop's service emit is what a waiting client
/// looks for: the signal of an invoked action calls the callback of a wait
/// for that notification with the action, the signal of a closed
/// notification calls it with the text `__closed`, and neither calls the
/// callback of a wait for another notification.
pub proof fn lemma_signals_reach_correlator(id: u32, other: u32, action: Seq<char>, reason: CloseReason)
    requires
        other != id,
    ensures
        callback_argument(
            id,
            ConnectionItemView::Signal(action_invoked(Namespace::Production, id, action)),
        ) == Some(action),
        callback_argument(
            id,
            ConnectionItemView::Signal(notification_closed(Namespace::Production, id, reason)),
        ) == Some("__closed"@),
        callback_argument(
            other,
            ConnectionItemView::Signal(action_invoked(Namespace::Production, id, action)),
        ) is None,
        callback_argument(
            other,
            ConnectionItemView::Signal(notification_closed(Namespace::Production, id, reason)),
        ) is None,
{
    reveal_strlit("ActionInvoked");
    reveal_strlit("NotificationClosed");
    assert("ActionInvoked"@.len() == 13);
    assert("NotificationClosed"@.len() == 18);
}

/// An entry with a string key that is not reserved never fails and drops
/// nothing: after it the hints hold the custom hint of that key, and under
/// every other tag what they held before.
pub proof fn lemma_unknown_entry_is_kept(
    entries: Seq<(ValueView, ValueView)>,
    key: Seq<char>,
    value: ValueView,
    other: HintTagView,
)
    requires
        !reserved_key(key),
        other != HintTagView::Custom(key),
    ensures
        hints_of_entries(entries.push((ValueView::Str(key), value))) == inserted(
            hints_of_entries(entries),
            HintView::Custom(key, wire_text(value)),
        ),
        hint_of_tag(
            hints_of_entries(entries.push((ValueView::Str(key), value))),
            HintTagView::Custom(key),
        ) == Some(HintView::Custom(key, wire_text(value))),
        hint_of_tag(hints_of_entries(entries.push((ValueView::Str(key), value))), other)
            == hint_of_tag(hints_of_entries(entries), other),
{
    let longer = entries.push((ValueView::Str(key), value));
    let custom = HintView::Custom(key, wire_text(value));
    assert(longer.drop_last() =~= entries);
    lemma_unknown_key_decodes(key, value);
    lemma_hints_of_entries_distinct(entries);
    lemma_inserted_keeps_distinct(hints_of_entries(entries), custom);
    lemma_inserted_keeps_others(hints_of_entries(entries), custom, other);
}

/// The hints that are read from a dictionary have pairwise different tags.
pub proof fn lemma_hints_of_entries_distinct(entries: Seq<(ValueView, ValueView)>)
    ensures
        distinct_tags(hints_of_entries(entries)),
    decreases entries.len(),
{
    if entries.len() > 0 {
        lemma_hints_of_entries_distinct(entries.drop_last());
        let before = hints_of_entries(entries.drop_last());
        match entries.last().0 {
            ValueView::Str(key) => match decoded(key, entries.last().1) {
                Ok(hint) => {
                    lemma_inserted_keeps_distinct(before, hint);
                },
                Err(_) => {},
            },
            _ => {},
        }
    }
}

/// Reading the packed hints of a notification gives its hints back.
pub proof fn lemma_packed_hints_round_trip(n: NotificationView)
    requires
        distinct_tags(n.hints),
        all_decodable(n.hints),
    ensures
        hints_of(n.packed_hints()) == n.hints,
    decreases n.hints.len(),
{
    let entries = n.packed_hints()->Dict_2;
    if n.hints.len() == 0 {
        assert(n.hints =~= Seq::<HintView>::empty());
    } else {
        let shorter = NotificationView { hints: n.hints.drop_last(), ..n };
        let last = n.hints.last();
        assert(shorter.packed_hints()->Dict_2 =~= entries.drop_last());
        lemma_packed_hints_round_trip(shorter);
        lemma_hint_round_trip(last);
        assert(entries.last() == (ValueView::Str(last.key()), ValueView::Variant(Box::new(last.value()))));
        assert(decoded(last.key(), entries.last().1) == decoded(last.key(), last.value()));
        if has_tag(shorter.hints, last.tag()) {
            let i = index_of_tag(shorter.hints, last.tag());
            assert(n.hints[i].tag() == n.hints[n.hints.len() - 1].tag());
        }
        assert(inserted(shorter.hints, last) =~= n.hints);
    }
}

/// Round trip of a whole call: reading the arguments of the `Notify` call
/// that a notification is sent with gives the notification back, with the
/// id that the call asks to replace. This holds of a notification whose
/// actions are paired, whose hints are decodable and whose timeout is
/// representable. The subtitle is not part of the call and is not given
/// back.
pub proof fn lemma_notify_round_trip(n: NotificationView, id: u32)
    requires
        n.paired_actions(),
        distinct_tags(n.hints),
        all_decodable(n.hints),
        n.timeout.representable(),
    ensures
        received(n.notify_arguments(id)) == (NotificationView {
            subtitle: None,
            id: if id == 0 {
                None
            } else {
                Some(id)
            },
            ..n
        }),
{
    let items = n.notify_arguments(id);
    lemma_packed_hints_round_trip(n);
    let packed = n.packed_actions()->Array_1;
    assert(all_strings(packed));
    assert(item_strings(packed) =~= n.actions);
    lemma_timeout_round_trip(n.timeout);
    assert(items[5] == n.packed_actions());
    assert(items[6] == n.packed_hints());
}

} // verus!
