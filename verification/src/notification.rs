//! The notification and its builder.

use vstd::prelude::*;
use crate::hint_set::{hint_views, inserted, is_insertion, HintSet};
use crate::hints::{Hint, HintView};
use crate::image::{image_of_pixels, Image, ImageError};
use crate::text::{clone_optional, optional_view, string_views};
use crate::timeout::{IntoTimeout, Timeout};
use crate::urgency::Urgency;
use crate::wire::{entry_models, lemma_container_models, wire_models, ValueView, WireValue};

verus! {

/// A desktop notification.
///
/// A notification is configured by chained setters before it is shown.
#[derive(Debug, PartialEq, Eq)]
#[non_exhaustive]
pub struct Notification {
    /// The name of the program that sends the notification.
    pub appname: String,
    /// A single line that sums the content up.
    pub summary: String,
    /// A second title line, for platforms that show one.
    pub subtitle: Option<String>,
    /// The text, of several lines where needed.
    pub body: String,
    /// A name in an icon theme, or the location of an image file.
    pub icon: String,
    /// The hints, at most one of each tag.
    pub hints: HintSet,
    /// The actions: identifier and label in turn.
    pub actions: Vec<String>,
    /// How long the notification stays.
    pub timeout: Timeout,
    /// The id of the notification that this one replaces, where it was set.
    pub id: Option<u32>,
}

/// The model of a [`Notification`].
pub struct NotificationView {
    pub appname: Seq<char>,
    pub summary: Seq<char>,
    pub subtitle: Option<Seq<char>>,
    pub body: Seq<char>,
    pub icon: Seq<char>,
    pub hints: Seq<HintView>,
    pub actions: Seq<Seq<char>>,
    pub timeout: Timeout,
    pub id: Option<u32>,
}

impl View for Notification {
    type V = NotificationView;

    open spec fn view(&self) -> NotificationView {
        NotificationView {
            appname: self.appname@,
            summary: self.summary@,
            subtitle: optional_view(self.subtitle),
            body: self.body@,
            icon: self.icon@,
            hints: self.hints@,
            actions: string_views(self.actions@),
            timeout: self.timeout,
            id: self.id,
        }
    }
}

impl NotificationView {
    /// The notification that [`Notification::new`] makes: nothing is set but
    /// the name of the program.
    pub open spec fn empty(appname: Seq<char>) -> NotificationView {
        NotificationView {
            appname,
            summary: Seq::empty(),
            subtitle: None,
            body: Seq::empty(),
            icon: Seq::empty(),
            hints: Seq::empty(),
            actions: Seq::empty(),
            timeout: Timeout::Default,
            id: None,
        }
    }

    /// The actions come in pairs of identifier and label.
    pub open spec fn paired_actions(self) -> bool {
        self.actions.len() % 2 == 0
    }

    /// The actions as the array of strings that goes on the wire.
    pub open spec fn packed_actions(self) -> ValueView {
        ValueView::Array("s"@, Seq::new(self.actions.len(), |i: int| ValueView::Str(self.actions[i])))
    }

    /// The hints as the dictionary from string to variant that goes on the
    /// wire: one entry for each hint, in the order of the set.
    pub open spec fn packed_hints(self) -> ValueView {
        ValueView::Dict(
            "s"@,
            "v"@,
            Seq::new(
                self.hints.len(),
                |i: int|
                    (ValueView::Str(self.hints[i].key()), ValueView::Variant(Box::new(self.hints[i].value()))),
            ),
        )
    }
}

impl Notification {
    /// A new notification of the program `appname`, which callers set to the
    /// name of the running executable. Every other field is empty, the
    /// timeout is left to the server and no id is set.
    pub fn new(appname: &str) -> (notification: Notification)
        ensures
            notification@ == NotificationView::empty(appname@),
    {
        let notification = Notification {
            appname: appname.to_owned(),
            summary: String::new(),
            subtitle: None,
            body: String::new(),
            icon: String::new(),
            hints: HintSet::new(),
            actions: Vec::new(),
            timeout: Timeout::Default,
            id: None,
        };
        assert(notification@.actions =~= Seq::<Seq<char>>::empty());
        notification
    }

    /// Sets the name of the program.
    pub fn appname(&mut self, appname: &str) -> (ret: &mut Notification)
        ensures
            ret@ == (NotificationView { appname: appname@, ..old(self)@ }),
            *final(self) == *final(ret),
    {
        self.appname = appname.to_owned();
        self
    }

    /// Sets the summary, the title of the notification.
    pub fn summary(&mut self, summary: &str) -> (ret: &mut Notification)
        ensures
            ret@ == (NotificationView { summary: summary@, ..old(self)@ }),
            *final(self) == *final(ret),
    {
        self.summary = summary.to_owned();
        self
    }

    /// Sets the subtitle.
    pub fn subtitle(&mut self, subtitle: &str) -> (ret: &mut Notification)
        ensures
            ret@ == (NotificationView { subtitle: Some(subtitle@), ..old(self)@ }),
            *final(self) == *final(ret),
    {
        self.subtitle = Some(subtitle.to_owned());
        self
    }

    /// Sets the body.
    pub fn body(&mut self, body: &str) -> (ret: &mut Notification)
        ensures
            ret@ == (NotificationView { body: body@, ..old(self)@ }),
            *final(self) == *final(ret),
    {
        self.body = body.to_owned();
        self
    }

    /// Sets the icon.
    pub fn icon(&mut self, icon: &str) -> (ret: &mut Notification)
        ensures
            ret@ == (NotificationView { icon: icon@, ..old(self)@ }),
            *final(self) == *final(ret),
    {
        self.icon = icon.to_owned();
        self
    }

    /// Sets the icon to the name of the running executable, which callers
    /// hand over.
    pub fn auto_icon(&mut self, exe_name: &str) -> (ret: &mut Notification)
        ensures
            ret@ == (NotificationView { icon: exe_name@, ..old(self)@ }),
            *final(self) == *final(ret),
    {
        self.icon = exe_name.to_owned();
        self
    }

    /// Adds a hint. It replaces the hint of the same tag, if there is one:
    /// the hint of the same variant, and for a custom hint the custom hint of
    /// the same name. Every other hint and every other field stay as they
    /// are.
    pub fn hint(&mut self, hint: Hint) -> (ret: &mut Notification)
        ensures
            ret@ == (NotificationView { hints: inserted(old(self)@.hints, hint@), ..old(self)@ }),
            is_insertion(old(self)@.hints, ret@.hints, hint@),
            *final(self) == *final(ret),
    {
        self.hints.insert(hint);
        self
    }

    /// Adds the hint that carries raw pixels.
    pub fn image_data(&mut self, image: Image) -> (ret: &mut Notification)
        ensures
            ret@ == (NotificationView {
                hints: inserted(old(self)@.hints, HintView::ImageData(image@)),
                ..old(self)@
            }),
            is_insertion(old(self)@.hints, ret@.hints, HintView::ImageData(image@)),
            *final(self) == *final(ret),
    {
        self.hint(Hint::ImageData(image))
    }

    /// Adds the hint that names an image by its path.
    pub fn image_path(&mut self, path: &str) -> (ret: &mut Notification)
        ensures
            ret@ == (NotificationView {
                hints: inserted(old(self)@.hints, HintView::ImagePath(path@)),
                ..old(self)@
            }),
            is_insertion(old(self)@.hints, ret@.hints, HintView::ImagePath(path@)),
            *final(self) == *final(ret),
    {
        self.hint(Hint::ImagePath(path.to_owned()))
    }

    /// Adds the hint that names a themed sound.
    pub fn sound_name(&mut self, name: &str) -> (ret: &mut Notification)
        ensures
            ret@ == (NotificationView {
                hints: inserted(old(self)@.hints, HintView::SoundName(name@)),
                ..old(self)@
            }),
            is_insertion(old(self)@.hints, ret@.hints, HintView::SoundName(name@)),
            *final(self) == *final(ret),
    {
        self.hint(Hint::SoundName(name.to_owned()))
    }

    /// Adds the urgency hint.
    pub fn urgency(&mut self, urgency: Urgency) -> (ret: &mut Notification)
        ensures
            ret@ == (NotificationView {
                hints: inserted(old(self)@.hints, HintView::Urgency(urgency)),
                ..old(self)@
            }),
            is_insertion(old(self)@.hints, ret@.hints, HintView::Urgency(urgency)),
            *final(self) == *final(ret),
    {
        self.hint(Hint::Urgency(urgency))
    }

    /// Adds the pixels of a decoded image file as the image hint.
    ///
    /// The pixels are 8 bit samples of red, green and blue, with alpha where
    /// `alpha` is set. Where they are not accepted as an image, the error says
    /// why and the notification stays as it was.
    pub fn image(&mut self, width: i32, height: i32, pixels: Vec<u8>, alpha: bool) -> (result: Result<
        (),
        ImageError,
    >)
        ensures
            match image_of_pixels(width, height, pixels@, alpha) {
                Ok(image) => result is Ok && final(self)@ == (NotificationView {
                    hints: inserted(old(self)@.hints, HintView::ImageData(image)),
                    ..old(self)@
                }) && is_insertion(old(self)@.hints, final(self)@.hints, HintView::ImageData(image)),
                Err(e) => result == Err::<(), ImageError>(e) && final(self)@ == old(self)@,
            },
    {
        let made = if alpha {
            Image::from_rgba(width, height, pixels)
        } else {
            Image::from_rgb(width, height, pixels)
        };
        match made {
            Ok(image) => {
                self.hint(Hint::ImageData(image));
                Ok(())
            },
            Err(e) => Err(e),
        }
    }

    /// Sets the timeout, from a [`Timeout`] or from a wire integer.
    pub fn timeout<T: IntoTimeout>(&mut self, timeout: T) -> (ret: &mut Notification)
        ensures
            ret@ == (NotificationView { timeout: timeout.timeout_spec(), ..old(self)@ }),
            *final(self) == *final(ret),
    {
        self.timeout = timeout.into_timeout();
        self
    }

    /// Replaces the whole list of actions.
    ///
    /// The list is taken as it is. A list of odd length leaves the
    /// notification without paired actions: that is the caller's error, and
    /// nothing is cut off to mend it.
    pub fn actions(&mut self, actions: Vec<String>) -> (ret: &mut Notification)
        ensures
            ret@ == (NotificationView { actions: string_views(actions@), ..old(self)@ }),
            ret@.paired_actions() == (actions@.len() % 2 == 0),
            *final(self) == *final(ret),
    {
        self.actions = actions;
        self
    }

    /// Adds an action: its identifier, then its label.
    pub fn action(&mut self, identifier: &str, label: &str) -> (ret: &mut Notification)
        ensures
            ret@ == (NotificationView {
                actions: old(self)@.actions.push(identifier@).push(label@),
                ..old(self)@
            }),
            ret@.actions.len() == old(self)@.actions.len() + 2,
            ret@.paired_actions() == old(self)@.paired_actions(),
            *final(self) == *final(ret),
    {
        let ghost before = self.actions@;
        self.actions.push(identifier.to_owned());
        self.actions.push(label.to_owned());
        assert(string_views(self.actions@) =~= string_views(before).push(identifier@).push(label@));
        self
    }

    /// Sets the id of the notification that this one replaces.
    pub fn id(&mut self, id: u32) -> (ret: &mut Notification)
        ensures
            ret@ == (NotificationView { id: Some(id), ..old(self)@ }),
            *final(self) == *final(ret),
    {
        self.id = Some(id);
        self
    }

    /// A copy of the notification as it is now. What is done to the builder
    /// afterwards does not touch the copy.
    pub fn finalize(&self) -> (copy: Notification)
        ensures
            copy@ == self@,
    {
        self.clone()
    }

    /// The actions as the array of strings that goes on the wire.
    pub fn pack_actions(&self) -> (array: WireValue)
        ensures
            array@ == self@.packed_actions(),
    {
        let mut items: Vec<WireValue> = Vec::new();
        let mut i: usize = 0;
        while i < self.actions.len()
            invariant
                i <= self.actions.len(),
                items@.len() == i,
                forall|j: int| 0 <= j < i ==> items@[j]@ == ValueView::Str(self.actions@[j]@),
            decreases self.actions.len() - i,
        {
            items.push(WireValue::Str(self.actions[i].clone()));
            i += 1;
        }
        let array = WireValue::Array("s".to_owned(), items);
        proof {
            lemma_container_models(array);
            assert(wire_models(items@) =~= self@.packed_actions()->Array_1);
        }
        array
    }

    /// The hints as the dictionary that goes on the wire: one entry for
    /// each hint. Two entries have one key only where a custom hint is named
    /// by the key of a variant whose hint is held too.
    pub fn pack_hints(&self) -> (dict: WireValue)
        ensures
            dict@ == self@.packed_hints(),
    {
        let hints = self.hints.entries();
        let mut entries: Vec<(WireValue, WireValue)> = Vec::new();
        let mut i: usize = 0;
        while i < hints.len()
            invariant
                i <= hints.len(),
                entries@.len() == i,
                forall|j: int|
                    0 <= j < i ==> entries@[j].0@ == ValueView::Str(hints@[j]@.key()) && entries@[j].1@
                        == ValueView::Variant(Box::new(hints@[j]@.value())),
            decreases hints.len() - i,
        {
            let pair = hints[i].encode();
            entries.push((WireValue::Str(pair.0), WireValue::Variant(Box::new(pair.1))));
            i += 1;
        }
        let dict = WireValue::Dict("s".to_owned(), "v".to_owned(), entries);
        proof {
            lemma_container_models(dict);
            assert(hint_views(hints@) == self@.hints);
            assert(entry_models(entries@) =~= self@.packed_hints()->Dict_2);
        }
        dict
    }
}

impl Clone for Notification {
    fn clone(&self) -> (copy: Self)
        ensures
            copy@ == self@,
    {
        let mut actions: Vec<String> = Vec::new();
        let mut i: usize = 0;
        while i < self.actions.len()
            invariant
                i <= self.actions.len(),
                actions@.len() == i,
                forall|j: int| 0 <= j < i ==> actions@[j]@ == self.actions@[j]@,
            decreases self.actions.len() - i,
        {
            actions.push(self.actions[i].clone());
            i += 1;
        }
        assert(string_views(actions@) =~= string_views(self.actions@));
        Notification {
            appname: self.appname.clone(),
            summary: self.summary.clone(),
            subtitle: clone_optional(&self.subtitle),
            body: self.body.clone(),
            icon: self.icon.clone(),
            hints: self.hints.clone(),
            actions,
            timeout: self.timeout,
            id: self.id,
        }
    }
}

} // verus!
