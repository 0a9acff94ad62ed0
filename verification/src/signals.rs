//! Waiting for what the user does with a notification.
//!
//! The server tells of an invoked action or of a closed notification by a
//! signal. A [`Correlator`] goes through what arrives on a connection and
//! picks the first signal that is about its notification. It holds no
//! connection: the caller polls, hands each item over and stops when the
//! correlator is done.

use vstd::prelude::*;
use crate::message::{Message, MessageView};
use crate::text::{holds, optional_view, str_eq, string_views};
use crate::wire::{WireValue, ValueView};

verus! {

/// How long one poll of the connection waits for the next item, in
/// milliseconds. The wait as a whole has no deadline.
pub const POLL_SLICE_MS: i32 = 1000;

/// What a poll of a connection gives.
#[derive(Debug, PartialEq)]
pub enum ConnectionItem {
    /// Nothing arrived in the time of the poll.
    Nothing,
    /// A method call arrived.
    MethodCall(Message),
    /// A signal arrived.
    Signal(Message),
    /// A reply or an error arrived.
    MethodReturn(Message),
}

/// The model of a [`ConnectionItem`].
pub enum ConnectionItemView {
    Nothing,
    MethodCall(MessageView),
    Signal(MessageView),
    MethodReturn(MessageView),
}

impl View for ConnectionItem {
    type V = ConnectionItemView;

    open spec fn view(&self) -> ConnectionItemView {
        match self {
            ConnectionItem::Nothing => ConnectionItemView::Nothing,
            ConnectionItem::MethodCall(m) => ConnectionItemView::MethodCall(m@),
            ConnectionItem::Signal(m) => ConnectionItemView::Signal(m@),
            ConnectionItem::MethodReturn(m) => ConnectionItemView::MethodReturn(m@),
        }
    }
}

/// Whether a message names the path, the interface and the member.
pub open spec fn addressed(m: MessageView, path: Seq<char>, interface: Seq<char>, member: Seq<char>) -> bool {
    m.path == Some(path) && m.interface == Some(interface) && m.member == Some(member)
}

/// What the callback of a wait for the notification `id` is called with when
/// the item arrives, if it is called at all.
///
/// The signal `ActionInvoked` with that id and an action gives the action.
/// The signal `NotificationClosed` with that id and a reason gives the
/// text `__closed`. Anything else gives nothing: an item that is no signal,
/// another signal, a signal about another notification, a signal whose
/// arguments have another shape.
pub open spec fn callback_argument(id: u32, item: ConnectionItemView) -> Option<Seq<char>> {
    match item {
        ConnectionItemView::Signal(m) => {
            if addressed(
                m,
                "/org/freedesktop/Notifications"@,
                "org.freedesktop.Notifications"@,
                "ActionInvoked"@,
            ) {
                if m.items.len() >= 2 && m.items[0] == ValueView::UInt32(id) && m.items[1] is Str {
                    Some(m.items[1]->Str_0)
                } else {
                    None
                }
            } else if addressed(
                m,
                "/org/freedesktop/Notifications"@,
                "org.freedesktop.Notifications"@,
                "NotificationClosed"@,
            ) {
                if m.items.len() >= 2 && m.items[0] == ValueView::UInt32(id) && m.items[1] is UInt32 {
                    Some("__closed"@)
                } else {
                    None
                }
            } else {
                None
            }
        },
        _ => None,
    }
}

/// The model of a [`Correlator`]: the notification that it waits for,
/// whether the callback is kept for the closing of the notification alone,
/// and whether the signal has come.
pub struct CorrelatorView {
    pub id: u32,
    pub only_close: bool,
    pub done: bool,
}

impl CorrelatorView {
    /// The correlator after an item, and what the callback is called with,
    /// if it is called. A correlator that is done stays as it is and calls
    /// nothing. The first signal about the notification ends the wait; a
    /// correlator that is kept for the closing calls back only where that
    /// signal tells of the closing.
    pub open spec fn stepped(self, item: ConnectionItemView) -> (CorrelatorView, Option<Seq<char>>) {
        if self.done {
            (self, None)
        } else {
            match callback_argument(self.id, item) {
                Some(action) => (
                    CorrelatorView { done: true, ..self },
                    if self.only_close && action != "__closed"@ {
                        None
                    } else {
                        Some(action)
                    },
                ),
                None => (self, None),
            }
        }
    }

    /// The correlator after a run of items, and what the callback was called
    /// with during the run, call by call.
    pub open spec fn run(self, items: Seq<ConnectionItemView>) -> (CorrelatorView, Seq<Seq<char>>)
        decreases items.len(),
    {
        if items.len() == 0 {
            (self, Seq::empty())
        } else {
            let (before, calls) = self.run(items.drop_last());
            let (after, call) = before.stepped(items.last());
            (
                after,
                match call {
                    Some(action) => calls.push(action),
                    None => calls,
                },
            )
        }
    }
}

/// The wait for the first signal about one notification.
#[derive(Debug, PartialEq, Eq)]
pub struct Correlator {
    id: u32,
    only_close: bool,
    done: bool,
}

impl View for Correlator {
    type V = CorrelatorView;

    closed spec fn view(&self) -> CorrelatorView {
        CorrelatorView { id: self.id, only_close: self.only_close, done: self.done }
    }
}

impl Correlator {
    /// A correlator that waits for the first signal about the notification
    /// `id` and calls back with what it tells: the action, or the closing.
    pub fn new(id: u32) -> (correlator: Correlator)
        ensures
            correlator@ == (CorrelatorView { id, only_close: false, done: false }),
    {
        Correlator { id, only_close: false, done: false }
    }

    /// A correlator that waits for the first signal about the notification
    /// `id` and calls back only where it tells of the closing.
    pub fn for_close(id: u32) -> (correlator: Correlator)
        ensures
            correlator@ == (CorrelatorView { id, only_close: true, done: false }),
    {
        Correlator { id, only_close: true, done: false }
    }

    /// The match rules to register on the connection before the wait: one
    /// for each of the two signals.
    pub fn match_rules() -> (rules: Vec<String>)
        ensures
            string_views(rules@) == seq![
                "interface='org.freedesktop.Notifications',member='ActionInvoked'"@,
                "interface='org.freedesktop.Notifications',member='NotificationClosed'"@,
            ],
    {
        let mut rules: Vec<String> = Vec::new();
        rules.push("interface='org.freedesktop.Notifications',member='ActionInvoked'".to_owned());
        rules.push("interface='org.freedesktop.Notifications',member='NotificationClosed'".to_owned());
        assert(string_views(rules@) =~= seq![
            "interface='org.freedesktop.Notifications',member='ActionInvoked'"@,
            "interface='org.freedesktop.Notifications',member='NotificationClosed'"@,
        ]);
        rules
    }

    /// The id of the notification that the correlator waits for.
    pub fn id(&self) -> (id: u32)
        ensures
            id == self@.id,
    {
        self.id
    }

    /// Whether the signal has come. The caller then leaves its loop.
    pub fn is_done(&self) -> (done: bool)
        ensures
            done == self@.done,
    {
        self.done
    }

    /// Gives the wait up. The correlator is done and calls nothing any more.
    pub fn cancel(&mut self)
        ensures
            final(self)@ == (CorrelatorView { done: true, ..old(self)@ }),
    {
        self.done = true;
    }

    /// Takes the next item of the connection. The result is what the
    /// caller's callback is to be called with, once, or `None` where the
    /// item is dropped.
    pub fn step(&mut self, item: &ConnectionItem) -> (call: Option<String>)
        ensures
            final(self)@ == old(self)@.stepped(item@).0,
            optional_view(call) == old(self)@.stepped(item@).1,
    {
        if self.done {
            return None;
        }
        let message = match item {
            ConnectionItem::Signal(message) => message,
            _ => {
                return None;
            },
        };
        if !holds(&message.path, "/org/freedesktop/Notifications") || !holds(
            &message.interface,
            "org.freedesktop.Notifications",
        ) {
            return None;
        }
        if message.items.len() < 2 {
            return None;
        }
        if holds(&message.member, "ActionInvoked") {
            match (&message.items[0], &message.items[1]) {
                (WireValue::UInt32(id), WireValue::Str(action)) => {
                    if *id == self.id {
                        self.done = true;
                        if self.only_close && !is_closed(action.as_str()) {
                            return None;
                        }
                        return Some(action.clone());
                    }
                    None
                },
                _ => None,
            }
        } else if holds(&message.member, "NotificationClosed") {
            match (&message.items[0], &message.items[1]) {
                (WireValue::UInt32(id), WireValue::UInt32(_)) => {
                    if *id == self.id {
                        self.done = true;
                        return Some("__closed".to_owned());
                    }
                    None
                },
                _ => None,
            }
        } else {
            None
        }
    }
}

/// Whether what a callback was called with tells that the notification was
/// closed, rather than the name of an action.
pub fn is_closed(action: &str) -> (closed: bool)
    ensures
        closed == (action@ == "__closed"@),
{
    str_eq(action, "__closed")
}

/// Single shot: over any run of items the callback is called at most once,
/// and never by a correlator that was done before. A call ends the wait;
/// a correlator that calls back for every signal about its notification is
/// done after the run exactly where it was done before or has called.
pub proof fn lemma_single_shot(c: CorrelatorView, items: Seq<ConnectionItemView>)
    ensures
        c.run(items).1.len() <= 1,
        c.done ==> c.run(items).1.len() == 0 && c.run(items).0 == c,
        c.run(items).0.id == c.id,
        c.run(items).0.only_close == c.only_close,
        c.run(items).1.len() == 1 ==> c.run(items).0.done,
        !c.only_close ==> c.run(items).0.done == (c.done || c.run(items).1.len() == 1),
    decreases items.len(),
{
    if items.len() > 0 {
        lemma_single_shot(c, items.drop_last());
    }
}

/// First match: where the item at `place` is the first of a run that is
/// about the notification, the callback is called with what that item gives
/// and with nothing else, whatever follows.
pub proof fn lemma_first_match(c: CorrelatorView, items: Seq<ConnectionItemView>, place: int)
    requires
        !c.done,
        0 <= place < items.len(),
        callback_argument(c.id, items[place]) is Some,
        forall|j: int| 0 <= j < place ==> callback_argument(c.id, #[trigger] items[j]) is None,
    ensures
        c.run(items).1 == match c.stepped(items[place]).1 {
            Some(action) => seq![action],
            None => Seq::empty(),
        },
        !c.only_close ==> c.run(items).1 == seq![callback_argument(c.id, items[place])->Some_0],
        c.run(items).0.done,
    decreases items.len(),
{
    let front = items.drop_last();
    if place < items.len() - 1 {
        lemma_first_match(c, front, place);
    } else {
        lemma_no_match(c, front);
    }
}

/// No match: a run without an item about the notification calls nothing
/// and leaves the correlator waiting.
pub proof fn lemma_no_match(c: CorrelatorView, items: Seq<ConnectionItemView>)
    requires
        !c.done,
        forall|j: int| 0 <= j < items.len() ==> callback_argument(c.id, #[trigger] items[j]) is None,
    ensures
        c.run(items).1 == Seq::<Seq<char>>::empty(),
        c.run(items).0 == c,
    decreases items.len(),
{
    if items.len() > 0 {
        lemma_no_match(c, items.drop_last());
    }
}

} // verus!
