//! The client side of the notification interface of the session bus: the
//! calls that a client makes, as messages to hand to the transport, and the
//! reading of what the server answers.

use vstd::prelude::*;
use crate::message::{is_member_name, valid_member_name, Message, MessageView};
use crate::notification::{Notification, NotificationView};
use crate::text::string_views;
use crate::signals::{Correlator, CorrelatorView};
use crate::wire::{
    lemma_array_well_typed, lemma_container_models, lemma_dict_well_typed, signature, signatures,
    well_typed, wire_models, WireValue, ValueView,
};

verus! {

/// How long a caller waits for the reply to a call, in milliseconds. A call
/// without a reply in that time has failed.
pub const REPLY_TIMEOUT_MS: i32 = 2000;

/// The bus names and object paths under which the notification service is
/// found: those of the desktop, and those that a test server uses.
#[derive(Clone, Copy, Debug, PartialEq, Eq, Structural)]
pub enum Namespace {
    /// The service of the desktop.
    Production,
    /// A service set up for testing.
    Debug,
}

impl Namespace {
    /// The well-known bus name, which is the name of the interface too.
    pub open spec fn name_spec(self) -> Seq<char> {
        match self {
            Namespace::Production => "org.freedesktop.Notifications"@,
            Namespace::Debug => "de.hoodie.Notifications"@,
        }
    }

    /// The path of the service object.
    pub open spec fn object_path_spec(self) -> Seq<char> {
        match self {
            Namespace::Production => "/org/freedesktop/Notifications"@,
            Namespace::Debug => "/de/hoodie/Notifications"@,
        }
    }

    /// The well-known bus name, which is the name of the interface too.
    pub fn name(self) -> (name: &'static str)
        ensures
            name@ == self.name_spec(),
    {
        match self {
            Namespace::Production => "org.freedesktop.Notifications",
            Namespace::Debug => "de.hoodie.Notifications",
        }
    }

    /// The path of the service object.
    pub fn object_path(self) -> (path: &'static str)
        ensures
            path@ == self.object_path_spec(),
    {
        match self {
            Namespace::Production => "/org/freedesktop/Notifications",
            Namespace::Debug => "/de/hoodie/Notifications",
        }
    }

    /// The call of the method `member` of the service, with its arguments.
    pub open spec fn call(self, member: Seq<char>, items: Seq<ValueView>) -> MessageView {
        MessageView::method_call(self.name_spec(), self.object_path_spec(), self.name_spec(), member, items)
    }
}

/// The call of a method of the desktop's notification service, without
/// arguments yet. The name of the method must be one that the bus takes.
pub fn build_message(method_name: &str) -> (call: Message)
    requires
        valid_member_name(method_name@),
    ensures
        call@ == Namespace::Production.call(method_name@, Seq::empty()),
{
    build_message_in(Namespace::Production, method_name)
}

/// The call of a method of the notification service of a namespace, without
/// arguments yet. The name of the method must be one that the bus takes.
pub fn build_message_in(namespace: Namespace, method_name: &str) -> (call: Message)
    requires
        valid_member_name(method_name@),
    ensures
        call@ == namespace.call(method_name@, Seq::empty()),
{
    Message::new_method_call(namespace.name(), namespace.object_path(), namespace.name(), method_name)
}

/// The call of a method of the desktop's notification service, where the
/// name is one that the bus takes, and `None` where it is not.
pub fn try_build_message(method_name: &str) -> (call: Option<Message>)
    ensures
        match call {
            Some(call) => valid_member_name(method_name@) && call@ == Namespace::Production.call(
                method_name@,
                Seq::empty(),
            ),
            None => !valid_member_name(method_name@),
        },
{
    if is_member_name(method_name) {
        Some(build_message(method_name))
    } else {
        None
    }
}

/// The names of the methods of the notification service are names that the
/// bus takes.
pub proof fn lemma_method_names_are_valid()
    ensures
        valid_member_name("Notify"@),
        valid_member_name("CloseNotification"@),
        valid_member_name("GetCapabilities"@),
        valid_member_name("GetServerInformation"@),
        valid_member_name("Stop"@),
{
    reveal_strlit("Notify");
    reveal_strlit("CloseNotification");
    reveal_strlit("GetCapabilities");
    reveal_strlit("GetServerInformation");
    reveal_strlit("Stop");
}

impl NotificationView {
    /// The arguments of the `Notify` call for a notification: the name of
    /// the program, the id of the notification to replace (0 for a new one),
    /// icon, summary, body, the packed actions, the packed hints and the
    /// timeout as a wire integer.
    pub open spec fn notify_arguments(self, id: u32) -> Seq<ValueView> {
        seq![
            ValueView::Str(self.appname),
            ValueView::UInt32(id),
            ValueView::Str(self.icon),
            ValueView::Str(self.summary),
            ValueView::Str(self.body),
            self.packed_actions(),
            self.packed_hints(),
            ValueView::Int32(self.timeout.wire()),
        ]
    }

    /// The id that a first showing asks the server to replace: the one that
    /// was set ahead of time, else 0, which asks for a new notification.
    pub open spec fn replaces_id(self) -> u32 {
        match self.id {
            Some(id) => id,
            None => 0,
        }
    }
}

/// The id that the server assigned, read from the arguments of its reply
/// to `Notify`: the first argument where it is an unsigned 32 bit integer,
/// and 0 where the reply has another shape.
pub open spec fn assigned_id(reply: Seq<ValueView>) -> u32 {
    if reply.len() > 0 && reply[0] is UInt32 {
        reply[0]->UInt32_0
    } else {
        0
    }
}

/// Reads the id that the server assigned from the arguments of its reply to
/// `Notify`.
pub fn notify_reply_id(reply: &Vec<WireValue>) -> (id: u32)
    ensures
        id == assigned_id(wire_models(reply@)),
{
    if reply.len() == 0 {
        return 0;
    }
    match &reply[0] {
        WireValue::UInt32(id) => *id,
        _ => 0,
    }
}

impl Notification {
    /// The `Notify` call that shows this notification in place of the
    /// notification `id`, or as a new one where `id` is 0.
    pub fn notify_call(&self, id: u32) -> (call: Message)
        ensures
            call@ == Namespace::Production.call("Notify"@, self@.notify_arguments(id)),
    {
        proof {
            lemma_method_names_are_valid();
        }
        let mut call = build_message("Notify");
        call.append(WireValue::Str(self.appname.clone()));
        call.append(WireValue::UInt32(id));
        call.append(WireValue::Str(self.icon.clone()));
        call.append(WireValue::Str(self.summary.clone()));
        call.append(WireValue::Str(self.body.clone()));
        call.append(self.pack_actions());
        call.append(self.pack_hints());
        call.append(WireValue::Int32(self.timeout.to_wire()));
        assert(call@.items =~= self@.notify_arguments(id));
        call
    }

    /// The `Notify` call of a first showing: it replaces the notification
    /// whose id was set ahead of time, if one was.
    pub fn show_call(&self) -> (call: Message)
        ensures
            call@ == Namespace::Production.call("Notify"@, self@.notify_arguments(self@.replaces_id())),
    {
        let id = match self.id {
            Some(id) => id,
            None => 0,
        };
        self.notify_call(id)
    }

    /// The handle of the notification once the server has answered the call
    /// of [`Notification::show_call`]: it holds the id that the reply assigns
    /// and a copy of the notification.
    pub fn shown(&self, reply: &Vec<WireValue>) -> (handle: NotificationHandle)
        ensures
            handle.id_spec() == assigned_id(wire_models(reply@)),
            handle@ == self@,
    {
        NotificationHandle::new(notify_reply_id(reply), self.clone())
    }
}

/// The `GetCapabilities` call.
pub fn capabilities_call() -> (call: Message)
    ensures
        call@ == Namespace::Production.call("GetCapabilities"@, Seq::empty()),
{
    proof {
        lemma_method_names_are_valid();
    }
    build_message("GetCapabilities")
}

/// The strings among some items, in order; items of other kinds are left out.
pub open spec fn strings_among(items: Seq<ValueView>) -> Seq<Seq<char>>
    decreases items.len(),
{
    if items.len() == 0 {
        Seq::empty()
    } else {
        let before = strings_among(items.drop_last());
        match items.last() {
            ValueView::Str(s) => before.push(s),
            _ => before,
        }
    }
}

/// The capabilities that a reply to `GetCapabilities` lists: the strings of
/// the array that is its first argument, and none where the reply has
/// another shape.
pub open spec fn capabilities_of(reply: Seq<ValueView>) -> Seq<Seq<char>> {
    if reply.len() > 0 && reply[0] is Array {
        strings_among(reply[0]->Array_1)
    } else {
        Seq::empty()
    }
}

/// Reads the capabilities from the arguments of the reply to
/// `GetCapabilities`.
pub fn capabilities_from_reply(reply: &Vec<WireValue>) -> (capabilities: Vec<String>)
    ensures
        string_views(capabilities@) == capabilities_of(wire_models(reply@)),
{
    let mut capabilities: Vec<String> = Vec::new();
    assert(string_views(capabilities@) =~= Seq::<Seq<char>>::empty());
    if reply.len() == 0 {
        return capabilities;
    }
    proof {
        lemma_container_models(reply@[0]);
    }
    if let WireValue::Array(_, items) = &reply[0] {
        let ghost all = wire_models(items@);
        let mut i: usize = 0;
        assert(all.take(0) =~= Seq::<ValueView>::empty());
        while i < items.len()
            invariant
                i <= items.len(),
                all == wire_models(items@),
                string_views(capabilities@) == strings_among(all.take(i as int)),
            decreases items.len() - i,
        {
            let ghost before = string_views(capabilities@);
            proof {
                assert(all.take(i + 1).drop_last() =~= all.take(i as int));
                assert(all.take(i + 1).last() == items@[i as int]@);
            }
            if let WireValue::Str(capability) = &items[i] {
                capabilities.push(capability.clone());
                assert(string_views(capabilities@) =~= before.push(capability@));
            }
            i += 1;
        }
        assert(all.take(items.len() as int) =~= all);
    }
    capabilities
}

/// What a notification server says of itself.
#[derive(Debug, PartialEq, Eq)]
pub struct ServerInformation {
    /// The product name of the server.
    pub name: String,
    /// The name of the vendor.
    pub vendor: String,
    /// The version of the server.
    pub version: String,
    /// The version of the specification that the server follows.
    pub spec_version: String,
}

/// The model of a [`ServerInformation`].
pub struct ServerInformationView {
    pub name: Seq<char>,
    pub vendor: Seq<char>,
    pub version: Seq<char>,
    pub spec_version: Seq<char>,
}

impl View for ServerInformation {
    type V = ServerInformationView;

    open spec fn view(&self) -> ServerInformationView {
        ServerInformationView {
            name: self.name@,
            vendor: self.vendor@,
            version: self.version@,
            spec_version: self.spec_version@,
        }
    }
}

/// The string at a place of a reply, and the empty string where the reply
/// has no such place or holds something else there.
pub open spec fn string_at(reply: Seq<ValueView>, place: int) -> Seq<char> {
    if 0 <= place < reply.len() && reply[place] is Str {
        reply[place]->Str_0
    } else {
        Seq::empty()
    }
}

/// The string that an item holds, and the empty string where there is no
/// item or it is of another kind.
pub fn unwrap_message_string(item: Option<&WireValue>) -> (text: String)
    ensures
        text@ == match item {
            Some(value) => match value@ {
                ValueView::Str(s) => s,
                _ => Seq::empty(),
            },
            None => Seq::empty(),
        },
{
    match item {
        Some(WireValue::Str(value)) => value.clone(),
        _ => String::new(),
    }
}

/// The item at a place of a list, if the list is that long.
fn item_at(items: &Vec<WireValue>, place: usize) -> (item: Option<&WireValue>)
    ensures
        place < items@.len() ==> item == Some(&items@[place as int]),
        place >= items@.len() ==> item is None,
{
    if place < items.len() {
        Some(&items[place])
    } else {
        None
    }
}

/// The `GetServerInformation` call.
pub fn server_information_call() -> (call: Message)
    ensures
        call@ == Namespace::Production.call("GetServerInformation"@, Seq::empty()),
{
    proof {
        lemma_method_names_are_valid();
    }
    build_message("GetServerInformation")
}

/// Reads the server information from the arguments of the reply to
/// `GetServerInformation`: four strings by their places, each empty where
/// the reply lacks it.
pub fn server_information_from_reply(reply: &Vec<WireValue>) -> (information: ServerInformation)
    ensures
        information@ == (ServerInformationView {
            name: string_at(wire_models(reply@), 0),
            vendor: string_at(wire_models(reply@), 1),
            version: string_at(wire_models(reply@), 2),
            spec_version: string_at(wire_models(reply@), 3),
        }),
{
    ServerInformation {
        name: unwrap_message_string(item_at(reply, 0)),
        vendor: unwrap_message_string(item_at(reply, 1)),
        version: unwrap_message_string(item_at(reply, 2)),
        spec_version: unwrap_message_string(item_at(reply, 3)),
    }
}

/// The `CloseNotification` call for the notification `id`.
pub fn close_call(id: u32) -> (call: Message)
    ensures
        call@ == Namespace::Production.call("CloseNotification"@, seq![ValueView::UInt32(id)]),
{
    proof {
        lemma_method_names_are_valid();
    }
    let mut call = build_message("CloseNotification");
    call.append(WireValue::UInt32(id));
    assert(call@.items =~= seq![ValueView::UInt32(id)]);
    call
}

/// How long [`stop_call`] is held back before it is sent, in milliseconds.
pub const STOP_DELAY_MS: u64 = 200;

/// The `Stop` call, which ends a notification server of this library.
pub fn stop_call() -> (call: Message)
    ensures
        call@ == Namespace::Production.call("Stop"@, Seq::empty()),
{
    proof {
        lemma_method_names_are_valid();
    }
    build_message("Stop")
}

/// A notification that was shown: the id that the server gave it, and the
/// notification as it was last sent.
#[derive(Debug, PartialEq, Eq)]
pub struct NotificationHandle {
    id: u32,
    notification: Notification,
}

impl View for NotificationHandle {
    type V = NotificationView;

    closed spec fn view(&self) -> NotificationView {
        self.notification@
    }
}

impl NotificationHandle {
    /// The id that the server acknowledged last.
    pub closed spec fn id_spec(&self) -> u32 {
        self.id
    }

    /// The handle of a notification that the server knows as `id`.
    pub fn new(id: u32, notification: Notification) -> (handle: NotificationHandle)
        ensures
            handle.id_spec() == id,
            handle@ == notification@,
    {
        NotificationHandle { id, notification }
    }

    /// The id that the server acknowledged last.
    pub fn id(&self) -> (id: u32)
        ensures
            id == self.id_spec(),
    {
        self.id
    }

    /// The notification, to read it.
    pub fn notification(&self) -> (notification: &Notification)
        ensures
            notification@ == self@,
    {
        &self.notification
    }

    /// The notification, to change it before an update.
    pub fn notification_mut(&mut self) -> (notification: &mut Notification)
        ensures
            notification@ == old(self)@,
            final(self)@ == final(notification)@,
            final(self).id_spec() == old(self).id_spec(),
    {
        &mut self.notification
    }

    /// Ends the handle and gives the `CloseNotification` call for its id.
    /// The call needs no reply.
    pub fn close(self) -> (call: Message)
        ensures
            call@ == Namespace::Production.call("CloseNotification"@, seq![ValueView::UInt32(self.id_spec())]),
    {
        close_call(self.id)
    }

    /// The `Notify` call that replaces the notification on screen by the
    /// handle's notification as it is now.
    pub fn update_call(&self) -> (call: Message)
        ensures
            call@ == Namespace::Production.call("Notify"@, self@.notify_arguments(self.id_spec())),
    {
        self.notification.notify_call(self.id)
    }

    /// Ends the handle and gives the wait for what the user does with the
    /// notification: the callback is called with the action that was
    /// invoked, or with the closing.
    pub fn wait_for_action(self) -> (wait: Correlator)
        ensures
            wait@ == (CorrelatorView { id: self.id_spec(), only_close: false, done: false }),
    {
        Correlator::new(self.id)
    }

    /// Ends the handle and gives the wait for the closing of the
    /// notification: the wait ends with the first signal about the
    /// notification, and the callback is called only where that signal
    /// tells of the closing.
    pub fn on_close(self) -> (wait: Correlator)
        ensures
            wait@ == (CorrelatorView { id: self.id_spec(), only_close: true, done: false }),
    {
        Correlator::for_close(self.id)
    }

    /// Takes the id from the reply to [`NotificationHandle::update_call`].
    /// The notification stays as it is.
    pub fn update(&mut self, reply: &Vec<WireValue>)
        ensures
            final(self).id_spec() == assigned_id(wire_models(reply@)),
            final(self)@ == old(self)@,
    {
        self.id = notify_reply_id(reply);
    }
}

/// The arguments of every `Notify` call are well typed, and their types are
/// those of the method: string, unsigned 32 bit integer, three strings, an
/// array of strings, a dictionary from string to variant and a signed 32 bit
/// integer.
pub proof fn lemma_notify_call_is_well_typed(n: NotificationView, id: u32)
    ensures
        forall|i: int| 0 <= i < 8 ==> well_typed(#[trigger] n.notify_arguments(id)[i]),
        signatures(n.notify_arguments(id), 8) == "susssasa{sv}i"@,
{
    let items = n.notify_arguments(id);
    let actions = n.packed_actions()->Array_1;
    let hints = n.packed_hints()->Dict_2;
    lemma_array_well_typed("s"@, actions);
    lemma_dict_well_typed("s"@, "v"@, hints);
    assert forall|i: int| 0 <= i < hints.len() implies {
        &&& signature((#[trigger] hints[i]).0) == "s"@
        &&& signature(hints[i].1) == "v"@
        &&& well_typed(hints[i].0)
        &&& well_typed(hints[i].1)
    } by {
        crate::hints::lemma_hint_value_well_typed(n.hints[i]);
    }
    assert(items[5] == n.packed_actions());
    assert(items[6] == n.packed_hints());
    reveal_strlit("s");
    reveal_strlit("u");
    reveal_strlit("a");
    reveal_strlit("a{");
    reveal_strlit("v");
    reveal_strlit("}");
    reveal_strlit("i");
    reveal_strlit("as");
    reveal_strlit("a{sv}");
    reveal_strlit("susssasa{sv}i");
    reveal_with_fuel(signatures, 9);
    assert(signature(items[5]) =~= "as"@);
    assert(signature(items[6]) =~= "a{sv}"@);
    assert(signatures(items, 8) =~= "susssasa{sv}i"@);
}

/// The wait for what the user does with the notification `id`, for callers
/// that hold no handle.
pub fn handle_action(id: u32) -> (wait: Correlator)
    ensures
        wait@ == (CorrelatorView { id, only_close: false, done: false }),
{
    Correlator::new(id)
}

} // verus!
