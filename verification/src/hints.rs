//! Hints: the typed pieces of optional metadata of a notification, and the
//! codec between them and their wire form, a key and a typed value.

use vstd::prelude::*;
use crate::image::{lemma_image_round_trip, lemma_image_wire_well_typed, Image, ImageView};
use crate::text::str_eq;
use crate::urgency::Urgency;
use crate::wire::{well_typed, wire_text, WireValue, ValueView};

verus! {

/// A hint of a notification.
#[derive(Debug, PartialEq, Eq)]
pub enum Hint {
    /// Whether action identifiers may be shown as icons. Key `action-icons`.
    ActionIcons(bool),
    /// The type of the notification, such as `email.arrived`. Key `category`.
    Category(String),
    /// The name of the desktop entry of the calling program. Key `desktop-entry`.
    DesktopEntry(String),
    /// Raw pixels to show. Key `image-data`.
    ImageData(Image),
    /// The path or name of an image to show. Key `image-path`.
    ImagePath(String),
    /// Whether the notification stays when an action was invoked. Key `resident`.
    Resident(bool),
    /// The path of a sound file to play. Key `sound-file`.
    SoundFile(String),
    /// The name of a themed sound to play. Key `sound-name`.
    SoundName(String),
    /// Whether the server should play no sound. Key `suppress-sound`.
    SuppressSound(bool),
    /// Whether the notification should bypass the server's persistence. Key `transient`.
    Transient(bool),
    /// The horizontal position on screen, which may be negative. Key `x`.
    X(i32),
    /// The vertical position on screen, which may be negative. Key `y`.
    Y(i32),
    /// The urgency. Key `urgency`.
    Urgency(Urgency),
    /// Any other key, with a string value.
    Custom(String, String),
}

/// The model of a [`Hint`].
pub enum HintView {
    ActionIcons(bool),
    Category(Seq<char>),
    DesktopEntry(Seq<char>),
    ImageData(ImageView),
    ImagePath(Seq<char>),
    Resident(bool),
    SoundFile(Seq<char>),
    SoundName(Seq<char>),
    SuppressSound(bool),
    Transient(bool),
    X(i32),
    Y(i32),
    Urgency(Urgency),
    Custom(Seq<char>, Seq<char>),
}

/// The tag of a hint, by which a set of hints knows it: the variant, and
/// for a custom hint the variant together with the name.
#[derive(Debug, PartialEq, Eq)]
pub enum HintTag {
    /// The tag of [`Hint::ActionIcons`].
    ActionIcons,
    /// The tag of [`Hint::Category`].
    Category,
    /// The tag of [`Hint::DesktopEntry`].
    DesktopEntry,
    /// The tag of [`Hint::ImageData`].
    ImageData,
    /// The tag of [`Hint::ImagePath`].
    ImagePath,
    /// The tag of [`Hint::Resident`].
    Resident,
    /// The tag of [`Hint::SoundFile`].
    SoundFile,
    /// The tag of [`Hint::SoundName`].
    SoundName,
    /// The tag of [`Hint::SuppressSound`].
    SuppressSound,
    /// The tag of [`Hint::Transient`].
    Transient,
    /// The tag of [`Hint::X`].
    X,
    /// The tag of [`Hint::Y`].
    Y,
    /// The tag of [`Hint::Urgency`].
    Urgency,
    /// The tag of the [`Hint::Custom`] hints of one name.
    Custom(String),
}

/// The model of a [`HintTag`].
pub enum HintTagView {
    ActionIcons,
    Category,
    DesktopEntry,
    ImageData,
    ImagePath,
    Resident,
    SoundFile,
    SoundName,
    SuppressSound,
    Transient,
    X,
    Y,
    Urgency,
    Custom(Seq<char>),
}

impl View for HintTag {
    type V = HintTagView;

    open spec fn view(&self) -> HintTagView {
        match self {
            HintTag::ActionIcons => HintTagView::ActionIcons,
            HintTag::Category => HintTagView::Category,
            HintTag::DesktopEntry => HintTagView::DesktopEntry,
            HintTag::ImageData => HintTagView::ImageData,
            HintTag::ImagePath => HintTagView::ImagePath,
            HintTag::Resident => HintTagView::Resident,
            HintTag::SoundFile => HintTagView::SoundFile,
            HintTag::SoundName => HintTagView::SoundName,
            HintTag::SuppressSound => HintTagView::SuppressSound,
            HintTag::Transient => HintTagView::Transient,
            HintTag::X => HintTagView::X,
            HintTag::Y => HintTagView::Y,
            HintTag::Urgency => HintTagView::Urgency,
            HintTag::Custom(name) => HintTagView::Custom(name@),
        }
    }
}

/// Why a key and a value were not accepted as a hint.
#[derive(Clone, Copy, Debug, PartialEq, Eq, Structural)]
pub enum HintError {
    /// The key is a known one, and the value is not of the kind that the key asks for.
    WrongKind,
    /// The key is `urgency`, and the byte is none of 0, 1 and 2.
    UnknownUrgency(u8),
}

impl View for Hint {
    type V = HintView;

    open spec fn view(&self) -> HintView {
        match self {
            Hint::ActionIcons(b) => HintView::ActionIcons(*b),
            Hint::Category(s) => HintView::Category(s@),
            Hint::DesktopEntry(s) => HintView::DesktopEntry(s@),
            Hint::ImageData(image) => HintView::ImageData(image@),
            Hint::ImagePath(s) => HintView::ImagePath(s@),
            Hint::Resident(b) => HintView::Resident(*b),
            Hint::SoundFile(s) => HintView::SoundFile(s@),
            Hint::SoundName(s) => HintView::SoundName(s@),
            Hint::SuppressSound(b) => HintView::SuppressSound(*b),
            Hint::Transient(b) => HintView::Transient(*b),
            Hint::X(x) => HintView::X(*x),
            Hint::Y(y) => HintView::Y(*y),
            Hint::Urgency(u) => HintView::Urgency(*u),
            Hint::Custom(name, value) => HintView::Custom(name@, value@),
        }
    }
}

/// The keys that stand for a variant of their own.
pub open spec fn reserved_key(key: Seq<char>) -> bool {
    ||| key == "action-icons"@
    ||| key == "category"@
    ||| key == "desktop-entry"@
    ||| key == "image-data"@
    ||| key == "image-path"@
    ||| key == "resident"@
    ||| key == "sound-file"@
    ||| key == "sound-name"@
    ||| key == "suppress-sound"@
    ||| key == "transient"@
    ||| key == "x"@
    ||| key == "y"@
    ||| key == "urgency"@
}

impl HintView {
    /// The tag of the hint: its variant, and for a custom hint the variant
    /// together with its name. A custom hint never has the tag of a named
    /// variant, whatever its name.
    pub open spec fn tag(self) -> HintTagView {
        match self {
            HintView::ActionIcons(_) => HintTagView::ActionIcons,
            HintView::Category(_) => HintTagView::Category,
            HintView::DesktopEntry(_) => HintTagView::DesktopEntry,
            HintView::ImageData(_) => HintTagView::ImageData,
            HintView::ImagePath(_) => HintTagView::ImagePath,
            HintView::Resident(_) => HintTagView::Resident,
            HintView::SoundFile(_) => HintTagView::SoundFile,
            HintView::SoundName(_) => HintTagView::SoundName,
            HintView::SuppressSound(_) => HintTagView::SuppressSound,
            HintView::Transient(_) => HintTagView::Transient,
            HintView::X(_) => HintTagView::X,
            HintView::Y(_) => HintTagView::Y,
            HintView::Urgency(_) => HintTagView::Urgency,
            HintView::Custom(name, _) => HintTagView::Custom(name),
        }
    }

    /// Whether decoding what the hint encodes to gives the hint back: the
    /// hint is no custom hint that is named by a reserved key.
    pub open spec fn decodable(self) -> bool {
        self matches HintView::Custom(name, _) ==> !reserved_key(name)
    }

    /// The wire key of the hint.
    pub open spec fn key(self) -> Seq<char> {
        match self {
            HintView::ActionIcons(_) => "action-icons"@,
            HintView::Category(_) => "category"@,
            HintView::DesktopEntry(_) => "desktop-entry"@,
            HintView::ImageData(_) => "image-data"@,
            HintView::ImagePath(_) => "image-path"@,
            HintView::Resident(_) => "resident"@,
            HintView::SoundFile(_) => "sound-file"@,
            HintView::SoundName(_) => "sound-name"@,
            HintView::SuppressSound(_) => "suppress-sound"@,
            HintView::Transient(_) => "transient"@,
            HintView::X(_) => "x"@,
            HintView::Y(_) => "y"@,
            HintView::Urgency(_) => "urgency"@,
            HintView::Custom(name, _) => name,
        }
    }

    /// The wire value of the hint.
    pub open spec fn value(self) -> ValueView {
        match self {
            HintView::ActionIcons(b) => ValueView::Bool(b),
            HintView::Category(s) => ValueView::Str(s),
            HintView::DesktopEntry(s) => ValueView::Str(s),
            HintView::ImageData(image) => image.wire(),
            HintView::ImagePath(s) => ValueView::Str(s),
            HintView::Resident(b) => ValueView::Bool(b),
            HintView::SoundFile(s) => ValueView::Str(s),
            HintView::SoundName(s) => ValueView::Str(s),
            HintView::SuppressSound(b) => ValueView::Bool(b),
            HintView::Transient(b) => ValueView::Bool(b),
            HintView::X(x) => ValueView::Int32(x),
            HintView::Y(y) => ValueView::Int32(y),
            HintView::Urgency(u) => ValueView::Byte(u.wire_byte()),
            HintView::Custom(_, value) => ValueView::Str(value),
        }
    }

    /// Whether the hint is of one of the variants with a key of their own.
    pub open spec fn is_named_variant(self) -> bool {
        !(self is Custom)
    }
}

/// The boolean hint that a value gives for a key that asks for a boolean.
pub open spec fn flag_hint(v: ValueView, make: spec_fn(bool) -> HintView) -> Result<HintView, HintError> {
    match v {
        ValueView::Bool(b) => Ok(make(b)),
        _ => Err(HintError::WrongKind),
    }
}

/// The string hint that a value gives for a key that asks for a string.
pub open spec fn string_hint(v: ValueView, make: spec_fn(Seq<char>) -> HintView) -> Result<
    HintView,
    HintError,
> {
    match v {
        ValueView::Str(s) => Ok(make(s)),
        _ => Err(HintError::WrongKind),
    }
}

/// The position hint that a value gives for a key that asks for a 32 bit integer.
pub open spec fn position_hint(v: ValueView, make: spec_fn(i32) -> HintView) -> Result<
    HintView,
    HintError,
> {
    match v {
        ValueView::Int32(i) => Ok(make(i)),
        _ => Err(HintError::WrongKind),
    }
}

/// The urgency hint that a value gives.
pub open spec fn urgency_hint(v: ValueView) -> Result<HintView, HintError> {
    match v {
        ValueView::Byte(b) => match Urgency::of_wire_byte(b) {
            Some(level) => Ok(HintView::Urgency(level)),
            None => Err(HintError::UnknownUrgency(b)),
        },
        _ => Err(HintError::WrongKind),
    }
}

/// The image hint that a value gives.
pub open spec fn image_hint(v: ValueView) -> Result<HintView, HintError> {
    match ImageView::of_wire(v) {
        Some(image) => Ok(HintView::ImageData(image)),
        None => Err(HintError::WrongKind),
    }
}

/// The hint that a key and a value outside any variant stand for.
///
/// A reserved key gives its variant where the value is of the kind that the
/// key asks for, and an error where it is not. Any other key gives a custom
/// hint that holds the text of the value.
pub open spec fn decoded_plain(key: Seq<char>, v: ValueView) -> Result<HintView, HintError> {
    if key == "action-icons"@ {
        flag_hint(v, |b: bool| HintView::ActionIcons(b))
    } else if key == "category"@ {
        string_hint(v, |s: Seq<char>| HintView::Category(s))
    } else if key == "desktop-entry"@ {
        string_hint(v, |s: Seq<char>| HintView::DesktopEntry(s))
    } else if key == "image-data"@ {
        image_hint(v)
    } else if key == "image-path"@ {
        string_hint(v, |s: Seq<char>| HintView::ImagePath(s))
    } else if key == "resident"@ {
        flag_hint(v, |b: bool| HintView::Resident(b))
    } else if key == "sound-file"@ {
        string_hint(v, |s: Seq<char>| HintView::SoundFile(s))
    } else if key == "sound-name"@ {
        string_hint(v, |s: Seq<char>| HintView::SoundName(s))
    } else if key == "suppress-sound"@ {
        flag_hint(v, |b: bool| HintView::SuppressSound(b))
    } else if key == "transient"@ {
        flag_hint(v, |b: bool| HintView::Transient(b))
    } else if key == "x"@ {
        position_hint(v, |i: i32| HintView::X(i))
    } else if key == "y"@ {
        position_hint(v, |i: i32| HintView::Y(i))
    } else if key == "urgency"@ {
        urgency_hint(v)
    } else {
        Ok(HintView::Custom(key, wire_text(v)))
    }
}

/// The hint that a key and a value stand for; variants that wrap the value
/// are looked through.
pub open spec fn decoded(key: Seq<char>, value: ValueView) -> Result<HintView, HintError> {
    decoded_plain(key, WireValue::peeled(value))
}

/// The model of the result of decoding.
pub open spec fn decode_result_view(result: Result<Hint, HintError>) -> Result<HintView, HintError> {
    match result {
        Ok(hint) => Ok(hint@),
        Err(e) => Err(e),
    }
}

impl Hint {
    /// The tag of the hint.
    pub fn tag(&self) -> (tag: HintTag)
        ensures
            tag@ == self@.tag(),
    {
        match self {
            Hint::ActionIcons(_) => HintTag::ActionIcons,
            Hint::Category(_) => HintTag::Category,
            Hint::DesktopEntry(_) => HintTag::DesktopEntry,
            Hint::ImageData(_) => HintTag::ImageData,
            Hint::ImagePath(_) => HintTag::ImagePath,
            Hint::Resident(_) => HintTag::Resident,
            Hint::SoundFile(_) => HintTag::SoundFile,
            Hint::SoundName(_) => HintTag::SoundName,
            Hint::SuppressSound(_) => HintTag::SuppressSound,
            Hint::Transient(_) => HintTag::Transient,
            Hint::X(_) => HintTag::X,
            Hint::Y(_) => HintTag::Y,
            Hint::Urgency(_) => HintTag::Urgency,
            Hint::Custom(name, _) => HintTag::Custom(name.clone()),
        }
    }

    /// Whether the hint has the tag.
    pub fn has_tag(&self, tag: &HintTag) -> (has: bool)
        ensures
            has == (self@.tag() == tag@),
    {
        match (self, tag) {
            (Hint::ActionIcons(_), HintTag::ActionIcons) => true,
            (Hint::Category(_), HintTag::Category) => true,
            (Hint::DesktopEntry(_), HintTag::DesktopEntry) => true,
            (Hint::ImageData(_), HintTag::ImageData) => true,
            (Hint::ImagePath(_), HintTag::ImagePath) => true,
            (Hint::Resident(_), HintTag::Resident) => true,
            (Hint::SoundFile(_), HintTag::SoundFile) => true,
            (Hint::SoundName(_), HintTag::SoundName) => true,
            (Hint::SuppressSound(_), HintTag::SuppressSound) => true,
            (Hint::Transient(_), HintTag::Transient) => true,
            (Hint::X(_), HintTag::X) => true,
            (Hint::Y(_), HintTag::Y) => true,
            (Hint::Urgency(_), HintTag::Urgency) => true,
            (Hint::Custom(name, _), HintTag::Custom(tagged)) => str_eq(name.as_str(), tagged.as_str()),
            _ => false,
        }
    }

    /// Whether two hints have the same tag.
    pub fn same_tag(&self, other: &Hint) -> (same: bool)
        ensures
            same == (self@.tag() == other@.tag()),
    {
        match (self, other) {
            (Hint::ActionIcons(_), Hint::ActionIcons(_)) => true,
            (Hint::Category(_), Hint::Category(_)) => true,
            (Hint::DesktopEntry(_), Hint::DesktopEntry(_)) => true,
            (Hint::ImageData(_), Hint::ImageData(_)) => true,
            (Hint::ImagePath(_), Hint::ImagePath(_)) => true,
            (Hint::Resident(_), Hint::Resident(_)) => true,
            (Hint::SoundFile(_), Hint::SoundFile(_)) => true,
            (Hint::SoundName(_), Hint::SoundName(_)) => true,
            (Hint::SuppressSound(_), Hint::SuppressSound(_)) => true,
            (Hint::Transient(_), Hint::Transient(_)) => true,
            (Hint::X(_), Hint::X(_)) => true,
            (Hint::Y(_), Hint::Y(_)) => true,
            (Hint::Urgency(_), Hint::Urgency(_)) => true,
            (Hint::Custom(name, _), Hint::Custom(other_name, _)) => str_eq(
                name.as_str(),
                other_name.as_str(),
            ),
            _ => false,
        }
    }

    /// The wire key of the hint.
    pub fn key(&self) -> (key: &str)
        ensures
            key@ == self@.key(),
    {
        match self {
            Hint::ActionIcons(_) => "action-icons",
            Hint::Category(_) => "category",
            Hint::DesktopEntry(_) => "desktop-entry",
            Hint::ImageData(_) => "image-data",
            Hint::ImagePath(_) => "image-path",
            Hint::Resident(_) => "resident",
            Hint::SoundFile(_) => "sound-file",
            Hint::SoundName(_) => "sound-name",
            Hint::SuppressSound(_) => "suppress-sound",
            Hint::Transient(_) => "transient",
            Hint::X(_) => "x",
            Hint::Y(_) => "y",
            Hint::Urgency(_) => "urgency",
            Hint::Custom(name, _) => name.as_str(),
        }
    }

    /// The wire value of the hint.
    pub fn value(&self) -> (value: WireValue)
        ensures
            value@ == self@.value(),
    {
        match self {
            Hint::ActionIcons(b) => WireValue::Bool(*b),
            Hint::Category(s) => WireValue::Str(s.clone()),
            Hint::DesktopEntry(s) => WireValue::Str(s.clone()),
            Hint::ImageData(image) => image.to_wire(),
            Hint::ImagePath(s) => WireValue::Str(s.clone()),
            Hint::Resident(b) => WireValue::Bool(*b),
            Hint::SoundFile(s) => WireValue::Str(s.clone()),
            Hint::SoundName(s) => WireValue::Str(s.clone()),
            Hint::SuppressSound(b) => WireValue::Bool(*b),
            Hint::Transient(b) => WireValue::Bool(*b),
            Hint::X(x) => WireValue::Int32(*x),
            Hint::Y(y) => WireValue::Int32(*y),
            Hint::Urgency(u) => WireValue::Byte(u.to_byte()),
            Hint::Custom(_, value) => WireValue::Str(value.clone()),
        }
    }

    /// Encodes the hint as its wire key and wire value.
    pub fn encode(&self) -> (pair: (String, WireValue))
        ensures
            pair.0@ == self@.key(),
            pair.1@ == self@.value(),
    {
        (self.key().to_owned(), self.value())
    }

    /// Decodes a wire key and a wire value.
    ///
    /// Fails only for a reserved key whose value is not of the kind that the
    /// key asks for; a key that is not reserved always gives a custom hint.
    pub fn decode(key: &str, value: &WireValue) -> (result: Result<Hint, HintError>)
        ensures
            decode_result_view(result) == decoded(key@, value@),
    {
        let v = value.peel();
        if str_eq(key, "action-icons") {
            match v {
                WireValue::Bool(b) => Ok(Hint::ActionIcons(*b)),
                _ => Err(HintError::WrongKind),
            }
        } else if str_eq(key, "category") {
            match v {
                WireValue::Str(s) => Ok(Hint::Category(s.clone())),
                _ => Err(HintError::WrongKind),
            }
        } else if str_eq(key, "desktop-entry") {
            match v {
                WireValue::Str(s) => Ok(Hint::DesktopEntry(s.clone())),
                _ => Err(HintError::WrongKind),
            }
        } else if str_eq(key, "image-data") {
            match Image::from_wire(v) {
                Some(image) => Ok(Hint::ImageData(image)),
                None => Err(HintError::WrongKind),
            }
        } else if str_eq(key, "image-path") {
            match v {
                WireValue::Str(s) => Ok(Hint::ImagePath(s.clone())),
                _ => Err(HintError::WrongKind),
            }
        } else if str_eq(key, "resident") {
            match v {
                WireValue::Bool(b) => Ok(Hint::Resident(*b)),
                _ => Err(HintError::WrongKind),
            }
        } else if str_eq(key, "sound-file") {
            match v {
                WireValue::Str(s) => Ok(Hint::SoundFile(s.clone())),
                _ => Err(HintError::WrongKind),
            }
        } else if str_eq(key, "sound-name") {
            match v {
                WireValue::Str(s) => Ok(Hint::SoundName(s.clone())),
                _ => Err(HintError::WrongKind),
            }
        } else if str_eq(key, "suppress-sound") {
            match v {
                WireValue::Bool(b) => Ok(Hint::SuppressSound(*b)),
                _ => Err(HintError::WrongKind),
            }
        } else if str_eq(key, "transient") {
            match v {
                WireValue::Bool(b) => Ok(Hint::Transient(*b)),
                _ => Err(HintError::WrongKind),
            }
        } else if str_eq(key, "x") {
            match v {
                WireValue::Int32(i) => Ok(Hint::X(*i)),
                _ => Err(HintError::WrongKind),
            }
        } else if str_eq(key, "y") {
            match v {
                WireValue::Int32(i) => Ok(Hint::Y(*i)),
                _ => Err(HintError::WrongKind),
            }
        } else if str_eq(key, "urgency") {
            match v {
                WireValue::Byte(b) => match Urgency::from_byte(*b) {
                    Some(level) => Ok(Hint::Urgency(level)),
                    None => Err(HintError::UnknownUrgency(*b)),
                },
                _ => Err(HintError::WrongKind),
            }
        } else {
            Ok(Hint::Custom(key.to_owned(), v.to_text()))
        }
    }
}

impl Clone for HintTag {
    fn clone(&self) -> (copy: Self)
        ensures
            copy@ == self@,
    {
        match self {
            HintTag::ActionIcons => HintTag::ActionIcons,
            HintTag::Category => HintTag::Category,
            HintTag::DesktopEntry => HintTag::DesktopEntry,
            HintTag::ImageData => HintTag::ImageData,
            HintTag::ImagePath => HintTag::ImagePath,
            HintTag::Resident => HintTag::Resident,
            HintTag::SoundFile => HintTag::SoundFile,
            HintTag::SoundName => HintTag::SoundName,
            HintTag::SuppressSound => HintTag::SuppressSound,
            HintTag::Transient => HintTag::Transient,
            HintTag::X => HintTag::X,
            HintTag::Y => HintTag::Y,
            HintTag::Urgency => HintTag::Urgency,
            HintTag::Custom(name) => HintTag::Custom(name.clone()),
        }
    }
}

impl Clone for Hint {
    fn clone(&self) -> (copy: Self)
        ensures
            copy@ == self@,
    {
        match self {
            Hint::ActionIcons(b) => Hint::ActionIcons(*b),
            Hint::Category(s) => Hint::Category(s.clone()),
            Hint::DesktopEntry(s) => Hint::DesktopEntry(s.clone()),
            Hint::ImageData(image) => Hint::ImageData(image.clone()),
            Hint::ImagePath(s) => Hint::ImagePath(s.clone()),
            Hint::Resident(b) => Hint::Resident(*b),
            Hint::SoundFile(s) => Hint::SoundFile(s.clone()),
            Hint::SoundName(s) => Hint::SoundName(s.clone()),
            Hint::SuppressSound(b) => Hint::SuppressSound(*b),
            Hint::Transient(b) => Hint::Transient(*b),
            Hint::X(x) => Hint::X(*x),
            Hint::Y(y) => Hint::Y(*y),
            Hint::Urgency(u) => Hint::Urgency(*u),
            Hint::Custom(name, value) => Hint::Custom(name.clone(), value.clone()),
        }
    }
}

/// The lengths of the reserved keys, and the characters that tell keys of
/// one length apart.
proof fn lemma_key_shapes()
    ensures
        "action-icons"@.len() == 12,
        "category"@.len() == 8 && "category"@[0] == 'c',
        "desktop-entry"@.len() == 13,
        "image-data"@.len() == 10 && "image-data"@[0] == 'i' && "image-data"@[6] == 'd',
        "image-path"@.len() == 10 && "image-path"@[0] == 'i' && "image-path"@[6] == 'p',
        "resident"@.len() == 8 && "resident"@[0] == 'r',
        "sound-file"@.len() == 10 && "sound-file"@[0] == 's' && "sound-file"@[6] == 'f',
        "sound-name"@.len() == 10 && "sound-name"@[0] == 's' && "sound-name"@[6] == 'n',
        "suppress-sound"@.len() == 14,
        "transient"@.len() == 9,
        "x"@.len() == 1 && "x"@[0] == 'x',
        "y"@.len() == 1 && "y"@[0] == 'y',
        "urgency"@.len() == 7,
{
    reveal_strlit("action-icons");
    reveal_strlit("category");
    reveal_strlit("desktop-entry");
    reveal_strlit("image-data");
    reveal_strlit("image-path");
    reveal_strlit("resident");
    reveal_strlit("sound-file");
    reveal_strlit("sound-name");
    reveal_strlit("suppress-sound");
    reveal_strlit("transient");
    reveal_strlit("x");
    reveal_strlit("y");
    reveal_strlit("urgency");
}

/// Each reserved key stands for one variant: two hints of named variants
/// have the same key exactly where they are of the same variant. The key
/// of every hint of a named variant is reserved.
pub proof fn lemma_reserved_keys_differ(a: HintView, b: HintView)
    requires
        a.is_named_variant(),
        b.is_named_variant(),
    ensures
        (a.key() == b.key()) == (a.tag() == b.tag()),
        reserved_key(a.key()),
{
    lemma_key_shapes();
}

/// Round trip: decoding the key and the value that a hint encodes to gives
/// the hint back. This holds of every hint but a custom one that is named
/// by a reserved key, which decodes as the variant of that key.
pub proof fn lemma_hint_round_trip(h: HintView)
    requires
        h.decodable(),
    ensures
        decoded(h.key(), h.value()) == Ok::<HintView, HintError>(h),
{
    lemma_key_shapes();
    match h {
        HintView::ImageData(image) => {
            lemma_image_round_trip(image);
        },
        _ => {},
    }
}

/// The wire value of every hint is well typed.
pub proof fn lemma_hint_value_well_typed(h: HintView)
    ensures
        well_typed(h.value()),
{
    match h {
        HintView::ImageData(image) => {
            lemma_image_wire_well_typed(image);
        },
        _ => {},
    }
}

/// A key that is not reserved never fails to decode: it gives the custom
/// hint of that key, which for a string value holds that string.
pub proof fn lemma_unknown_key_decodes(key: Seq<char>, value: ValueView)
    requires
        !reserved_key(key),
    ensures
        decoded(key, value) == Ok::<HintView, HintError>(HintView::Custom(key, wire_text(value))),
        value matches ValueView::Str(s) ==> decoded(key, value) == Ok::<HintView, HintError>(
            HintView::Custom(key, s),
        ),
    decreases value,
{
    match value {
        ValueView::Variant(inner) => {
            lemma_unknown_key_decodes(key, *inner);
        },
        _ => {},
    }
}

} // verus!
