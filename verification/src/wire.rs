//! The typed values that travel in bus messages.
//!
//! [`WireValue`] is the closed sum of the value kinds of the bus protocol.
//! Its model, [`ValueView`], is what the contracts of the crate speak of.

use vstd::prelude::*;
use vstd::string::{StrSliceExecFns, StringExecFns};
use crate::text::{decimal, optional_view, signed_to_decimal, str_eq, unsigned_to_decimal};

verus! {

/// A typed value as it is carried in a bus message.
#[derive(Debug, PartialEq)]
pub enum WireValue {
    /// A boolean.
    Bool(bool),
    /// An unsigned byte.
    Byte(u8),
    /// A signed 16 bit integer.
    Int16(i16),
    /// An unsigned 16 bit integer.
    UInt16(u16),
    /// A signed 32 bit integer.
    Int32(i32),
    /// An unsigned 32 bit integer.
    UInt32(u32),
    /// A signed 64 bit integer.
    Int64(i64),
    /// An unsigned 64 bit integer.
    UInt64(u64),
    /// A double precision number, held as its IEEE-754 bit pattern.
    Double(u64),
    /// A string.
    Str(String),
    /// The path of an object.
    ObjectPath(String),
    /// A type signature.
    Signature(String),
    /// A file descriptor that was passed along; the descriptor itself is not held.
    UnixFd,
    /// A value wrapped together with its own type.
    Variant(Box<WireValue>),
    /// An array: the signature of its elements, then the elements.
    Array(String, Vec<WireValue>),
    /// A struct of values of any kinds.
    Struct(Vec<WireValue>),
    /// A dictionary: the signatures of its keys and of its values, then the entries.
    Dict(String, String, Vec<(WireValue, WireValue)>),
}

/// The mathematical model of a [`WireValue`].
pub enum ValueView {
    Bool(bool),
    Byte(u8),
    Int16(i16),
    UInt16(u16),
    Int32(i32),
    UInt32(u32),
    Int64(i64),
    UInt64(u64),
    Double(u64),
    Str(Seq<char>),
    ObjectPath(Seq<char>),
    Signature(Seq<char>),
    UnixFd,
    Variant(Box<ValueView>),
    Array(Seq<char>, Seq<ValueView>),
    Struct(Seq<ValueView>),
    Dict(Seq<char>, Seq<char>, Seq<(ValueView, ValueView)>),
}

/// The model of a value, by recursion over its structure. The tests on the
/// index inside the containers only serve the proof that the recursion
/// ends: no index outside a container is ever asked for.
pub open spec fn wire_model(v: WireValue) -> ValueView
    decreases v,
{
    match v {
        WireValue::Bool(b) => ValueView::Bool(b),
        WireValue::Byte(b) => ValueView::Byte(b),
        WireValue::Int16(i) => ValueView::Int16(i),
        WireValue::UInt16(i) => ValueView::UInt16(i),
        WireValue::Int32(i) => ValueView::Int32(i),
        WireValue::UInt32(i) => ValueView::UInt32(i),
        WireValue::Int64(i) => ValueView::Int64(i),
        WireValue::UInt64(i) => ValueView::UInt64(i),
        WireValue::Double(bits) => ValueView::Double(bits),
        WireValue::Str(s) => ValueView::Str(s@),
        WireValue::ObjectPath(s) => ValueView::ObjectPath(s@),
        WireValue::Signature(s) => ValueView::Signature(s@),
        WireValue::UnixFd => ValueView::UnixFd,
        WireValue::Variant(inner) => ValueView::Variant(Box::new(wire_model(*inner))),
        WireValue::Array(sig, items) => ValueView::Array(
            sig@,
            Seq::new(
                items@.len(),
                |i: int|
                    if 0 <= i < items@.len() {
                        wire_model(items@[i])
                    } else {
                        ValueView::UnixFd
                    },
            ),
        ),
        WireValue::Struct(items) => ValueView::Struct(
            Seq::new(
                items@.len(),
                |i: int|
                    if 0 <= i < items@.len() {
                        wire_model(items@[i])
                    } else {
                        ValueView::UnixFd
                    },
            ),
        ),
        WireValue::Dict(key_sig, value_sig, entries) => ValueView::Dict(
            key_sig@,
            value_sig@,
            Seq::new(
                entries@.len(),
                |i: int|
                    if 0 <= i < entries@.len() {
                        (wire_model(entries@[i].0), wire_model(entries@[i].1))
                    } else {
                        (ValueView::UnixFd, ValueView::UnixFd)
                    },
            ),
        ),
    }
}

impl View for WireValue {
    type V = ValueView;

    open spec fn view(&self) -> ValueView {
        wire_model(*self)
    }
}

/// The models of a sequence of values.
pub open spec fn wire_models(items: Seq<WireValue>) -> Seq<ValueView> {
    Seq::new(items.len(), |i: int| items[i]@)
}

/// The models of a sequence of dictionary entries.
pub open spec fn entry_models(entries: Seq<(WireValue, WireValue)>) -> Seq<(ValueView, ValueView)> {
    Seq::new(entries.len(), |i: int| (entries[i].0@, entries[i].1@))
}

/// The model of an array, a struct or a dictionary is made of the models of
/// what it holds.
pub proof fn lemma_container_models(v: WireValue)
    ensures
        v matches WireValue::Array(sig, items) ==> v@ == ValueView::Array(sig@, wire_models(items@)),
        v matches WireValue::Struct(items) ==> v@ == ValueView::Struct(wire_models(items@)),
        v matches WireValue::Dict(key_sig, value_sig, entries) ==> v@ == ValueView::Dict(
            key_sig@,
            value_sig@,
            entry_models(entries@),
        ),
{
    match v {
        WireValue::Array(sig, items) => {
            assert(v@->Array_1 =~= wire_models(items@));
        },
        WireValue::Struct(items) => {
            assert(v@->Struct_0 =~= wire_models(items@));
        },
        WireValue::Dict(key_sig, value_sig, entries) => {
            assert(v@->Dict_2 =~= entry_models(entries@));
        },
        _ => {},
    }
}

impl WireValue {
    /// A copy of the value.
    pub fn duplicate(&self) -> (copy: WireValue)
        ensures
            copy@ == self@,
        decreases self,
    {
        match self {
            WireValue::Bool(b) => WireValue::Bool(*b),
            WireValue::Byte(b) => WireValue::Byte(*b),
            WireValue::Int16(i) => WireValue::Int16(*i),
            WireValue::UInt16(i) => WireValue::UInt16(*i),
            WireValue::Int32(i) => WireValue::Int32(*i),
            WireValue::UInt32(i) => WireValue::UInt32(*i),
            WireValue::Int64(i) => WireValue::Int64(*i),
            WireValue::UInt64(i) => WireValue::UInt64(*i),
            WireValue::Double(bits) => WireValue::Double(*bits),
            WireValue::Str(s) => WireValue::Str(s.clone()),
            WireValue::ObjectPath(s) => WireValue::ObjectPath(s.clone()),
            WireValue::Signature(s) => WireValue::Signature(s.clone()),
            WireValue::UnixFd => WireValue::UnixFd,
            WireValue::Variant(inner) => WireValue::Variant(Box::new(inner.duplicate())),
            WireValue::Array(sig, items) => {
                let copies = Self::duplicate_all(items);
                let copy = WireValue::Array(sig.clone(), copies);
                proof {
                    lemma_container_models(*self);
                    lemma_container_models(copy);
                }
                copy
            },
            WireValue::Struct(items) => {
                let copies = Self::duplicate_all(items);
                let copy = WireValue::Struct(copies);
                proof {
                    lemma_container_models(*self);
                    lemma_container_models(copy);
                }
                copy
            },
            WireValue::Dict(key_sig, value_sig, entries) => {
                let mut copies: Vec<(WireValue, WireValue)> = Vec::new();
                let mut i: usize = 0;
                while i < entries.len()
                    invariant
                        i <= entries.len(),
                        copies@.len() == i,
                        self matches WireValue::Dict(_, _, held) && held == entries,
                        forall|j: int|
                            0 <= j < i ==> copies@[j].0@ == entries@[j].0@ && copies@[j].1@
                                == entries@[j].1@,
                    decreases entries.len() - i,
                {
                    let key = entries[i].0.duplicate();
                    let value = entries[i].1.duplicate();
                    copies.push((key, value));
                    i += 1;
                }
                let copy = WireValue::Dict(key_sig.clone(), value_sig.clone(), copies);
                proof {
                    lemma_container_models(*self);
                    lemma_container_models(copy);
                    assert(entry_models(copies@) =~= entry_models(entries@));
                }
                copy
            },
        }
    }

    /// Copies of the values of a list, in order.
    pub fn duplicate_all(items: &Vec<WireValue>) -> (copies: Vec<WireValue>)
        ensures
            wire_models(copies@) == wire_models(items@),
        decreases items,
    {
        let mut copies: Vec<WireValue> = Vec::new();
        let mut i: usize = 0;
        while i < items.len()
            invariant
                i <= items.len(),
                copies@.len() == i,
                forall|j: int| 0 <= j < i ==> copies@[j]@ == items@[j]@,
            decreases items.len() - i,
        {
            copies.push(items[i].duplicate());
            i += 1;
        }
        assert(wire_models(copies@) =~= wire_models(items@));
        copies
    }

    /// The value inside any number of nested variants.
    pub open spec fn peeled(v: ValueView) -> ValueView
        decreases v,
    {
        match v {
            ValueView::Variant(inner) => Self::peeled(*inner),
            _ => v,
        }
    }

    /// Strips the variants that wrap a value.
    pub fn peel(&self) -> (inner: &WireValue)
        ensures
            inner@ == Self::peeled(self@),
            !(inner@ is Variant),
        decreases self,
    {
        match self {
            WireValue::Variant(inner) => inner.peel(),
            _ => self,
        }
    }
}

/// The text that stands for a value where only a string can be kept: a
/// string is its own text, a boolean is `true` or `false`, an integer is its
/// decimal form, a variant is the text of what it wraps. Numbers with a
/// fraction, descriptors and containers have no text: theirs is empty.
pub open spec fn wire_text(v: ValueView) -> Seq<char>
    decreases v,
{
    match v {
        ValueView::Bool(b) => if b {
            "true"@
        } else {
            "false"@
        },
        ValueView::Byte(i) => decimal(i as int),
        ValueView::Int16(i) => decimal(i as int),
        ValueView::UInt16(i) => decimal(i as int),
        ValueView::Int32(i) => decimal(i as int),
        ValueView::UInt32(i) => decimal(i as int),
        ValueView::Int64(i) => decimal(i as int),
        ValueView::UInt64(i) => decimal(i as int),
        ValueView::Str(s) => s,
        ValueView::ObjectPath(s) => s,
        ValueView::Signature(s) => s,
        ValueView::Variant(inner) => wire_text(*inner),
        _ => Seq::empty(),
    }
}

impl WireValue {
    /// Renders the value as text, see [`wire_text`].
    pub fn to_text(&self) -> (text: String)
        ensures
            text@ == wire_text(self@),
        decreases self,
    {
        match self {
            WireValue::Bool(b) => if *b {
                "true".to_owned()
            } else {
                "false".to_owned()
            },
            WireValue::Byte(i) => unsigned_to_decimal(*i as u64),
            WireValue::Int16(i) => signed_to_decimal(*i as i64),
            WireValue::UInt16(i) => unsigned_to_decimal(*i as u64),
            WireValue::Int32(i) => signed_to_decimal(*i as i64),
            WireValue::UInt32(i) => unsigned_to_decimal(*i as u64),
            WireValue::Int64(i) => signed_to_decimal(*i),
            WireValue::UInt64(i) => unsigned_to_decimal(*i),
            WireValue::Str(s) => s.clone(),
            WireValue::ObjectPath(s) => s.clone(),
            WireValue::Signature(s) => s.clone(),
            WireValue::Variant(inner) => inner.to_text(),
            _ => String::new(),
        }
    }
}

/// The signature of the type of a value, in the notation of the bus.
///
/// An array and a dictionary carry the signatures of what they may hold;
/// the signature of a struct is made of those of its fields.
pub open spec fn signature(v: ValueView) -> Seq<char>
    decreases v, 0nat,
{
    match v {
        ValueView::Bool(_) => "b"@,
        ValueView::Byte(_) => "y"@,
        ValueView::Int16(_) => "n"@,
        ValueView::UInt16(_) => "q"@,
        ValueView::Int32(_) => "i"@,
        ValueView::UInt32(_) => "u"@,
        ValueView::Int64(_) => "x"@,
        ValueView::UInt64(_) => "t"@,
        ValueView::Double(_) => "d"@,
        ValueView::Str(_) => "s"@,
        ValueView::ObjectPath(_) => "o"@,
        ValueView::Signature(_) => "g"@,
        ValueView::UnixFd => "h"@,
        ValueView::Variant(_) => "v"@,
        ValueView::Array(element, _) => "a"@ + element,
        ValueView::Struct(fields) => "("@ + signatures(fields, fields.len()) + ")"@,
        ValueView::Dict(key, value, _) => "a{"@ + key + value + "}"@,
    }
}

/// The signatures of the first `n` values of a sequence, one after the
/// other.
pub open spec fn signatures(items: Seq<ValueView>, n: nat) -> Seq<char>
    decreases items, n,
{
    if n == 0 || n > items.len() {
        Seq::empty()
    } else {
        signatures(items, (n - 1) as nat) + signature(items[n - 1])
    }
}

/// Whether a value holds what its signatures say: every item of an array
/// has the signature of the array's elements, every key and every value of
/// a dictionary has the signature that the dictionary gives for it, and
/// the same holds of every value inside.
pub open spec fn well_typed(v: ValueView) -> bool
    decreases v,
{
    match v {
        ValueView::Variant(inner) => well_typed(*inner),
        ValueView::Array(element, items) => forall|i: int|
            0 <= i < items.len() ==> signature(#[trigger] items[i]) == element && well_typed(items[i]),
        ValueView::Struct(fields) => forall|i: int|
            0 <= i < fields.len() ==> well_typed(#[trigger] fields[i]),
        ValueView::Dict(key, value, entries) => forall|i: int|
            0 <= i < entries.len() ==> {
                &&& signature((#[trigger] entries[i]).0) == key
                &&& signature(entries[i].1) == value
                &&& well_typed(entries[i].0)
                &&& well_typed(entries[i].1)
            },
        _ => true,
    }
}

/// An array is well typed where each of its items has the signature of
/// the array's elements and is well typed itself.
pub proof fn lemma_array_well_typed(element: Seq<char>, items: Seq<ValueView>)
    ensures
        well_typed(ValueView::Array(element, items)) == (forall|i: int|
            0 <= i < items.len() ==> signature(#[trigger] items[i]) == element && well_typed(items[i])),
{
    let v = ValueView::Array(element, items);
    if well_typed(v) {
        assert forall|i: int| 0 <= i < items.len() implies signature(#[trigger] items[i]) == element
            && well_typed(items[i]) by {
            assert(signature(v->Array_1[i]) == element && well_typed(v->Array_1[i]));
        }
    }
}

/// A struct is well typed where each of its fields is.
pub proof fn lemma_struct_well_typed(fields: Seq<ValueView>)
    ensures
        well_typed(ValueView::Struct(fields)) == (forall|i: int|
            0 <= i < fields.len() ==> well_typed(#[trigger] fields[i])),
{
    let v = ValueView::Struct(fields);
    if well_typed(v) {
        assert forall|i: int| 0 <= i < fields.len() implies well_typed(#[trigger] fields[i]) by {
            assert(well_typed(v->Struct_0[i]));
        }
    }
}

/// A dictionary is well typed where each of its keys and values has the
/// signature that the dictionary gives for it and is well typed itself.
pub proof fn lemma_dict_well_typed(key: Seq<char>, value: Seq<char>, entries: Seq<(ValueView, ValueView)>)
    ensures
        well_typed(ValueView::Dict(key, value, entries)) == (forall|i: int|
            0 <= i < entries.len() ==> {
                &&& signature((#[trigger] entries[i]).0) == key
                &&& signature(entries[i].1) == value
                &&& well_typed(entries[i].0)
                &&& well_typed(entries[i].1)
            }),
{
    let v = ValueView::Dict(key, value, entries);
    if well_typed(v) {
        assert forall|i: int| 0 <= i < entries.len() implies {
            &&& signature((#[trigger] entries[i]).0) == key
            &&& signature(entries[i].1) == value
            &&& well_typed(entries[i].0)
            &&& well_typed(entries[i].1)
        } by {
            assert(signature(v->Dict_2[i].0) == key);
        }
    }
}

impl WireValue {
    /// The signature of the type of the value.
    pub fn signature(&self) -> (text: String)
        ensures
            text@ == signature(self@),
        decreases self,
    {
        match self {
            WireValue::Bool(_) => "b".to_owned(),
            WireValue::Byte(_) => "y".to_owned(),
            WireValue::Int16(_) => "n".to_owned(),
            WireValue::UInt16(_) => "q".to_owned(),
            WireValue::Int32(_) => "i".to_owned(),
            WireValue::UInt32(_) => "u".to_owned(),
            WireValue::Int64(_) => "x".to_owned(),
            WireValue::UInt64(_) => "t".to_owned(),
            WireValue::Double(_) => "d".to_owned(),
            WireValue::Str(_) => "s".to_owned(),
            WireValue::ObjectPath(_) => "o".to_owned(),
            WireValue::Signature(_) => "g".to_owned(),
            WireValue::UnixFd => "h".to_owned(),
            WireValue::Variant(_) => "v".to_owned(),
            WireValue::Array(element, _) => {
                proof {
                    lemma_container_models(*self);
                }
                let mut text = "a".to_owned();
                text.append(element.as_str());
                text
            },
            WireValue::Struct(fields) => {
                proof {
                    lemma_container_models(*self);
                }
                let mut text = "(".to_owned();
                let mut i: usize = 0;
                while i < fields.len()
                    invariant
                        i <= fields.len(),
                        self matches WireValue::Struct(held) && held == fields,
                        text@ == "("@ + signatures(wire_models(fields@), i as nat),
                    decreases fields.len() - i,
                {
                    let field = fields[i].signature();
                    text.append(field.as_str());
                    i += 1;
                }
                text.append(")");
                text
            },
            WireValue::Dict(key, value, _) => {
                proof {
                    lemma_container_models(*self);
                }
                let mut text = "a{".to_owned();
                text.append(key.as_str());
                text.append(value.as_str());
                text.append("}");
                text
            },
        }
    }

    /// Whether the value holds what its signatures say, see [`well_typed`].
    pub fn is_well_typed(&self) -> (well: bool)
        ensures
            well == well_typed(self@),
        decreases self,
    {
        proof {
            lemma_container_models(*self);
        }
        match self {
            WireValue::Variant(inner) => inner.is_well_typed(),
            WireValue::Array(element, items) => {
                let mut i: usize = 0;
                while i < items.len()
                    invariant
                        i <= items.len(),
                        self matches WireValue::Array(_, held) && held == items,
                        self@ == ValueView::Array(element@, wire_models(items@)),
                        forall|j: int|
                            0 <= j < i ==> signature(#[trigger] wire_models(items@)[j]) == element@
                                && well_typed(wire_models(items@)[j]),
                    decreases items.len() - i,
                {
                    let found = items[i].signature();
                    if !str_eq(found.as_str(), element.as_str()) || !items[i].is_well_typed() {
                        proof {
                            lemma_array_well_typed(element@, wire_models(items@));
                            assert(!(signature(wire_models(items@)[i as int]) == element@ && well_typed(
                                wire_models(items@)[i as int],
                            )));
                        }
                        return false;
                    }
                    i += 1;
                }
                proof {
                    lemma_array_well_typed(element@, wire_models(items@));
                }
                true
            },
            WireValue::Struct(fields) => {
                let mut i: usize = 0;
                while i < fields.len()
                    invariant
                        i <= fields.len(),
                        self matches WireValue::Struct(held) && held == fields,
                        self@ == ValueView::Struct(wire_models(fields@)),
                        forall|j: int| 0 <= j < i ==> well_typed(#[trigger] wire_models(fields@)[j]),
                    decreases fields.len() - i,
                {
                    if !fields[i].is_well_typed() {
                        proof {
                            lemma_struct_well_typed(wire_models(fields@));
                            assert(!well_typed(wire_models(fields@)[i as int]));
                        }
                        return false;
                    }
                    i += 1;
                }
                proof {
                    lemma_struct_well_typed(wire_models(fields@));
                }
                true
            },
            WireValue::Dict(key, value, entries) => {
                let mut i: usize = 0;
                while i < entries.len()
                    invariant
                        i <= entries.len(),
                        self matches WireValue::Dict(_, _, held) && held == entries,
                        self@ == ValueView::Dict(key@, value@, entry_models(entries@)),
                        forall|j: int|
                            0 <= j < i ==> {
                                &&& signature((#[trigger] entry_models(entries@)[j]).0) == key@
                                &&& signature(entry_models(entries@)[j].1) == value@
                                &&& well_typed(entry_models(entries@)[j].0)
                                &&& well_typed(entry_models(entries@)[j].1)
                            },
                    decreases entries.len() - i,
                {
                    let found_key = entries[i].0.signature();
                    let found_value = entries[i].1.signature();
                    if !str_eq(found_key.as_str(), key.as_str()) || !str_eq(found_value.as_str(), value.as_str())
                        || !entries[i].0.is_well_typed() || !entries[i].1.is_well_typed() {
                        proof {
                            lemma_dict_well_typed(key@, value@, entry_models(entries@));
                            let entry = entry_models(entries@)[i as int];
                            assert(!(signature(entry.0) == key@ && signature(entry.1) == value@ && well_typed(
                                entry.0,
                            ) && well_typed(entry.1)));
                        }
                        return false;
                    }
                    i += 1;
                }
                proof {
                    lemma_dict_well_typed(key@, value@, entry_models(entries@));
                }
                true
            },
            _ => true,
        }
    }
}

/// The signature of the elements of an array, taken from the signature of
/// the array: what follows the leading `a`.
pub open spec fn element_of_array_signature(full: Seq<char>) -> Option<Seq<char>> {
    if full.len() >= 1 && full[0] == 'a' {
        Some(full.subrange(1, full.len() as int))
    } else {
        None
    }
}

/// The signatures of the keys and of the values of a dictionary, taken
/// from the signature of the dictionary, `a{` key value `}`. The signature
/// of a key is a single character.
pub open spec fn entry_of_dict_signature(full: Seq<char>) -> Option<(Seq<char>, Seq<char>)> {
    if full.len() >= 4 && full[0] == 'a' && full[1] == '{' && full[full.len() - 1] == '}' {
        Some((full.subrange(2, 3), full.subrange(3, full.len() - 1)))
    } else {
        None
    }
}

/// Splits the signature of an array into the leading `a` and the signature
/// of the elements, which is given back.
pub fn array_element_signature(full: &str) -> (element: Option<String>)
    ensures
        optional_view(element) == element_of_array_signature(full@),
{
    let n = full.unicode_len();
    if n >= 1 && full.get_char(0) == 'a' {
        Some(full.substring_char(1, n).to_owned())
    } else {
        None
    }
}

/// Splits the signature of a dictionary into the signatures of its keys
/// and of its values.
pub fn dict_entry_signatures(full: &str) -> (entry: Option<(String, String)>)
    ensures
        match entry {
            Some((key, value)) => entry_of_dict_signature(full@) == Some((key@, value@)),
            None => entry_of_dict_signature(full@) is None,
        },
{
    let n = full.unicode_len();
    if n >= 4 && full.get_char(0) == 'a' && full.get_char(1) == '{' && full.get_char(n - 1) == '}' {
        Some((full.substring_char(2, 3).to_owned(), full.substring_char(3, n - 1).to_owned()))
    } else {
        None
    }
}

/// Splitting the signature of an array gives the signature of its
/// elements back, and splitting that of a dictionary with single-character
/// keys gives the signatures of its keys and values back.
pub proof fn lemma_signature_splits(v: ValueView)
    ensures
        v matches ValueView::Array(element, _) ==> element_of_array_signature(signature(v)) == Some(element),
        v matches ValueView::Dict(key, value, _) ==> (key.len() == 1 ==> entry_of_dict_signature(
            signature(v),
        ) == Some((key, value))),
{
    reveal_strlit("a");
    reveal_strlit("a{");
    reveal_strlit("}");
    match v {
        ValueView::Array(element, _) => {
            assert(signature(v).subrange(1, signature(v).len() as int) =~= element);
        },
        ValueView::Dict(key, value, _) => {
            if key.len() == 1 {
                let full = signature(v);
                assert(full.len() == 3 + key.len() + value.len());
                assert(full.subrange(2, 3) =~= key);
                assert(full.subrange(3, full.len() - 1) =~= value);
            }
        },
        _ => {},
    }
}

impl Clone for WireValue {
    fn clone(&self) -> (copy: Self)
        ensures
            copy@ == self@,
    {
        self.duplicate()
    }
}

} // verus!
