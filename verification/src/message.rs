//! Bus messages as plain values: what is handed to the transport to be
//! sent, and what the transport hands back.

use vstd::prelude::*;
use vstd::string::StrSliceExecFns;
use crate::text::{clone_optional, optional_view};
use crate::wire::{wire_models, WireValue, ValueView};

verus! {

/// The four kinds of bus messages.
#[derive(Clone, Copy, Debug, PartialEq, Eq, Structural)]
pub enum MessageKind {
    /// A call of a method of an object.
    MethodCall,
    /// The answer to a method call.
    MethodReturn,
    /// The failure of a method call.
    Error,
    /// A signal, sent to whoever listens.
    Signal,
}

/// A bus message: its kind, its header fields and its arguments.
#[derive(Debug, PartialEq)]
pub struct Message {
    /// The kind of the message.
    pub kind: MessageKind,
    /// The bus name that the message goes to.
    pub destination: Option<String>,
    /// The path of the object that is called or that emits.
    pub path: Option<String>,
    /// The interface of the method or the signal.
    pub interface: Option<String>,
    /// The name of the method or the signal.
    pub member: Option<String>,
    /// The arguments, in order.
    pub items: Vec<WireValue>,
}

/// The model of a [`Message`].
pub struct MessageView {
    pub kind: MessageKind,
    pub destination: Option<Seq<char>>,
    pub path: Option<Seq<char>>,
    pub interface: Option<Seq<char>>,
    pub member: Option<Seq<char>>,
    pub items: Seq<ValueView>,
}

impl View for Message {
    type V = MessageView;

    open spec fn view(&self) -> MessageView {
        MessageView {
            kind: self.kind,
            destination: optional_view(self.destination),
            path: optional_view(self.path),
            interface: optional_view(self.interface),
            member: optional_view(self.member),
            items: wire_models(self.items@),
        }
    }
}

impl MessageView {
    /// The call of a method, with its arguments.
    pub open spec fn method_call(
        destination: Seq<char>,
        path: Seq<char>,
        interface: Seq<char>,
        member: Seq<char>,
        items: Seq<ValueView>,
    ) -> MessageView {
        MessageView {
            kind: MessageKind::MethodCall,
            destination: Some(destination),
            path: Some(path),
            interface: Some(interface),
            member: Some(member),
            items,
        }
    }

    /// A signal, with its arguments.
    pub open spec fn signal(path: Seq<char>, interface: Seq<char>, member: Seq<char>, items: Seq<ValueView>)
        -> MessageView {
        MessageView {
            kind: MessageKind::Signal,
            destination: None,
            path: Some(path),
            interface: Some(interface),
            member: Some(member),
            items,
        }
    }
}

/// Whether a character may stand in the name of a method or a signal: a
/// letter of the alphabet, a digit or the underscore.
pub open spec fn is_name_char(c: char) -> bool {
    ('a' <= c <= 'z') || ('A' <= c <= 'Z') || ('0' <= c <= '9') || c == '_'
}

/// Whether a text is a name that the bus takes for a method or a signal:
/// between 1 and 255 characters, each a letter, a digit or the underscore,
/// and the first no digit.
pub open spec fn valid_member_name(name: Seq<char>) -> bool {
    &&& 1 <= name.len() <= 255
    &&& !('0' <= name[0] <= '9')
    &&& forall|i: int| 0 <= i < name.len() ==> is_name_char(#[trigger] name[i])
}

/// Tests whether a text is a name that the bus takes for a method or a
/// signal.
pub fn is_member_name(name: &str) -> (valid: bool)
    ensures
        valid == valid_member_name(name@),
{
    if !name.is_ascii() {
        proof {
            if valid_member_name(name@) {
                assert(vstd::utf8::is_ascii_chars(name@)) by {
                    assert forall|i: int| 0 <= i < name@.len() implies '\0' <= #[trigger] name@[i]
                        <= '\u{7f}' by {
                        assert(is_name_char(name@[i]));
                    }
                }
            }
        }
        return false;
    }
    let n = name.unicode_len();
    if n == 0 || n > 255 {
        return false;
    }
    let first = name.get_ascii(0);
    if first >= 48 && first <= 57 {
        return false;
    }
    let mut i: usize = 0;
    while i < n
        invariant
            i <= n,
            n == name@.len(),
            name.is_ascii(),
            forall|j: int| 0 <= j < i ==> is_name_char(#[trigger] name@[j]),
        decreases n - i,
    {
        let b = name.get_ascii(i);
        let fits = (b >= 97 && b <= 122) || (b >= 65 && b <= 90) || (b >= 48 && b <= 57) || b == 95;
        proof {
            assert('\0' <= name@[i as int] <= '\u{7f}');
        }
        if !fits {
            assert(!is_name_char(name@[i as int]));
            return false;
        }
        i += 1;
    }
    true
}

impl Message {
    /// A method call without arguments.
    pub fn new_method_call(destination: &str, path: &str, interface: &str, member: &str) -> (call: Message)
        ensures
            call@ == MessageView::method_call(destination@, path@, interface@, member@, Seq::empty()),
    {
        let call = Message {
            kind: MessageKind::MethodCall,
            destination: Some(destination.to_owned()),
            path: Some(path.to_owned()),
            interface: Some(interface.to_owned()),
            member: Some(member.to_owned()),
            items: Vec::new(),
        };
        assert(call@.items =~= Seq::<ValueView>::empty());
        call
    }

    /// A signal without arguments.
    pub fn new_signal(path: &str, interface: &str, member: &str) -> (signal: Message)
        ensures
            signal@ == MessageView::signal(path@, interface@, member@, Seq::empty()),
    {
        let signal = Message {
            kind: MessageKind::Signal,
            destination: None,
            path: Some(path.to_owned()),
            interface: Some(interface.to_owned()),
            member: Some(member.to_owned()),
            items: Vec::new(),
        };
        assert(signal@.items =~= Seq::<ValueView>::empty());
        signal
    }

    /// Appends one argument.
    pub fn append(&mut self, item: WireValue)
        ensures
            final(self)@ == (MessageView { items: old(self)@.items.push(item@), ..old(self)@ }),
    {
        let ghost before = self.items@;
        self.items.push(item);
        assert(wire_models(self.items@) =~= wire_models(before).push(item@));
    }

    /// The arguments of the message.
    pub fn get_items(&self) -> (items: &Vec<WireValue>)
        ensures
            wire_models(items@) == self@.items,
    {
        &self.items
    }
}

impl Clone for Message {
    fn clone(&self) -> (copy: Self)
        ensures
            copy@ == self@,
    {
        Message {
            kind: self.kind,
            destination: clone_optional(&self.destination),
            path: clone_optional(&self.path),
            interface: clone_optional(&self.interface),
            member: clone_optional(&self.member),
            items: WireValue::duplicate_all(&self.items),
        }
    }
}

} // verus!
