//! The set of hints of a notification.
//!
//! A hint is known by its tag: its variant, and for a custom hint the
//! variant together with its name. A set holds at most one hint of each
//! tag, and inserting a hint replaces the one of the same tag. A custom
//! hint and the hint of a named variant never replace each other, whatever
//! the custom hint is called.

use vstd::prelude::*;
use crate::hints::{lemma_reserved_keys_differ, Hint, HintTag, HintTagView, HintView};

verus! {

/// The models of a sequence of hints.
pub open spec fn hint_views(hints: Seq<Hint>) -> Seq<HintView> {
    Seq::new(hints.len(), |i: int| hints[i]@)
}

/// No two hints of the sequence have the same tag.
pub open spec fn distinct_tags(s: Seq<HintView>) -> bool {
    forall|i: int, j: int| 0 <= i < j < s.len() ==> (#[trigger] s[i]).tag() != (#[trigger] s[j]).tag()
}

/// No two hints of the sequence have the same wire key.
pub open spec fn distinct_keys(s: Seq<HintView>) -> bool {
    forall|i: int, j: int| 0 <= i < j < s.len() ==> (#[trigger] s[i]).key() != (#[trigger] s[j]).key()
}

/// Whether every hint of the sequence is given back by decoding what it
/// encodes to.
pub open spec fn all_decodable(s: Seq<HintView>) -> bool {
    forall|i: int| 0 <= i < s.len() ==> (#[trigger] s[i]).decodable()
}

/// Whether a hint of the sequence has the tag.
pub open spec fn has_tag(s: Seq<HintView>, tag: HintTagView) -> bool {
    exists|i: int| 0 <= i < s.len() && (#[trigger] s[i]).tag() == tag
}

/// The place of a hint with the tag; meaningful where there is one, and
/// the only such place where the tags are distinct.
pub open spec fn index_of_tag(s: Seq<HintView>, tag: HintTagView) -> int {
    choose|i: int| 0 <= i < s.len() && (#[trigger] s[i]).tag() == tag
}

/// The hint with the tag, if there is one.
pub open spec fn hint_of_tag(s: Seq<HintView>, tag: HintTagView) -> Option<HintView> {
    if has_tag(s, tag) {
        Some(s[index_of_tag(s, tag)])
    } else {
        None
    }
}

/// The sequence after a hint was inserted: the hint takes the place of the
/// one with its tag, or comes last where there was none.
pub open spec fn inserted(s: Seq<HintView>, h: HintView) -> Seq<HintView> {
    if has_tag(s, h.tag()) {
        s.update(index_of_tag(s, h.tag()), h)
    } else {
        s.push(h)
    }
}

/// What an insertion does to a set, said tag by tag: afterwards the tags
/// are distinct, the set holds the inserted hint under its tag, and under
/// every other tag it holds what it held before.
pub open spec fn is_insertion(before: Seq<HintView>, after: Seq<HintView>, h: HintView) -> bool {
    &&& distinct_tags(after)
    &&& hint_of_tag(after, h.tag()) == Some(h)
    &&& forall|tag: HintTagView|
        tag != h.tag() ==> #[trigger] hint_of_tag(after, tag) == hint_of_tag(before, tag)
}

/// The number of hints of the sequence that have the tag.
pub open spec fn count_of_tag(s: Seq<HintView>, tag: HintTagView) -> nat
    decreases s.len(),
{
    if s.len() == 0 {
        0
    } else {
        count_of_tag(s.drop_last(), tag) + if s.last().tag() == tag {
            1nat
        } else {
            0nat
        }
    }
}

/// A set of hints, held in the order in which their tags first came.
#[derive(Debug, PartialEq, Eq)]
pub struct HintSet {
    entries: Vec<Hint>,
}

impl View for HintSet {
    type V = Seq<HintView>;

    closed spec fn view(&self) -> Seq<HintView> {
        hint_views(self.entries@)
    }
}

impl HintSet {
    #[verifier::type_invariant]
    spec fn tags_are_distinct(self) -> bool {
        distinct_tags(hint_views(self.entries@))
    }

    /// The empty set.
    pub fn new() -> (set: HintSet)
        ensures
            set@ == Seq::<HintView>::empty(),
    {
        let set = HintSet { entries: Vec::new() };
        assert(set@ =~= Seq::<HintView>::empty());
        set
    }

    /// The number of hints.
    pub fn len(&self) -> (len: usize)
        ensures
            len == self@.len(),
    {
        self.entries.len()
    }

    /// Whether the set holds no hint.
    pub fn is_empty(&self) -> (empty: bool)
        ensures
            empty == (self@.len() == 0),
    {
        self.entries.len() == 0
    }

    /// The hints, in order. Their tags are pairwise different.
    pub fn entries(&self) -> (entries: &Vec<Hint>)
        ensures
            hint_views(entries@) == self@,
            distinct_tags(self@),
    {
        proof {
            use_type_invariant(self);
        }
        &self.entries
    }

    /// The place of the hint with the tag of `like`, if the set holds one.
    fn position_like(&self, like: &Hint) -> (place: Option<usize>)
        ensures
            distinct_tags(self@),
            place is Some == has_tag(self@, like@.tag()),
            place is Some ==> place->Some_0 == index_of_tag(self@, like@.tag()) && place->Some_0
                < self@.len(),
    {
        proof {
            use_type_invariant(self);
        }
        let mut i: usize = 0;
        while i < self.entries.len()
            invariant
                i <= self.entries.len(),
                forall|j: int| 0 <= j < i ==> (#[trigger] self@[j]).tag() != like@.tag(),
                self@ == hint_views(self.entries@),
                distinct_tags(self@),
            decreases self.entries.len() - i,
        {
            if self.entries[i].same_tag(like) {
                assert(self@[i as int].tag() == like@.tag());
                return Some(i);
            }
            i += 1;
        }
        None
    }

    /// The place of the hint with the tag, if the set holds one.
    fn position(&self, tag: &HintTag) -> (place: Option<usize>)
        ensures
            distinct_tags(self@),
            place is Some == has_tag(self@, tag@),
            place is Some ==> place->Some_0 == index_of_tag(self@, tag@) && place->Some_0 < self@.len(),
    {
        proof {
            use_type_invariant(self);
        }
        let mut i: usize = 0;
        while i < self.entries.len()
            invariant
                i <= self.entries.len(),
                forall|j: int| 0 <= j < i ==> (#[trigger] self@[j]).tag() != tag@,
                self@ == hint_views(self.entries@),
                distinct_tags(self@),
            decreases self.entries.len() - i,
        {
            if self.entries[i].has_tag(tag) {
                assert(self@[i as int].tag() == tag@);
                return Some(i);
            }
            i += 1;
        }
        None
    }

    /// The hint with the tag, if the set holds one.
    pub fn get(&self, tag: &HintTag) -> (hint: Option<&Hint>)
        ensures
            hint is Some == has_tag(self@, tag@),
            hint is Some ==> hint_of_tag(self@, tag@) == Some(hint->Some_0@),
    {
        match self.position(tag) {
            Some(i) => Some(&self.entries[i]),
            None => None,
        }
    }

    /// Whether the set holds a hint with the tag.
    pub fn contains(&self, tag: &HintTag) -> (held: bool)
        ensures
            held == has_tag(self@, tag@),
    {
        self.position(tag).is_some()
    }

    /// Inserts a hint. It replaces the hint of the same tag, if the set
    /// holds one, and comes last otherwise. The hints of all other tags stay
    /// as they are and where they are.
    pub fn insert(&mut self, hint: Hint)
        ensures
            final(self)@ == inserted(old(self)@, hint@),
            is_insertion(old(self)@, final(self)@, hint@),
    {
        let ghost before = self@;
        let place = self.position_like(&hint);
        proof {
            lemma_inserted_is_insertion(before, hint@);
        }
        let mut entries: Vec<Hint> = Vec::new();
        assert(hint_views(entries@) =~= Seq::<HintView>::empty());
        core::mem::swap(&mut self.entries, &mut entries);
        match place {
            Some(i) => {
                assert(hint_views(entries@.update(i as int, hint)) =~= before.update(i as int, hint@));
                entries.set(i, hint);
            },
            None => {
                assert(hint_views(entries@.push(hint)) =~= before.push(hint@));
                entries.push(hint);
            },
        }
        core::mem::swap(&mut self.entries, &mut entries);
    }
}

impl Clone for HintSet {
    fn clone(&self) -> (copy: Self)
        ensures
            copy@ == self@,
    {
        proof {
            use_type_invariant(self);
        }
        let mut entries: Vec<Hint> = Vec::new();
        let mut i: usize = 0;
        while i < self.entries.len()
            invariant
                i <= self.entries.len(),
                entries@.len() == i,
                forall|j: int| 0 <= j < i ==> entries@[j]@ == self.entries@[j]@,
            decreases self.entries.len() - i,
        {
            entries.push(self.entries[i].clone());
            i += 1;
        }
        assert(hint_views(entries@) =~= hint_views(self.entries@));
        HintSet { entries }
    }
}

/// Inserting into a sequence of distinct tags gives a sequence of distinct
/// tags that holds the inserted hint under its tag.
pub proof fn lemma_inserted_keeps_distinct(s: Seq<HintView>, h: HintView)
    requires
        distinct_tags(s),
    ensures
        distinct_tags(inserted(s, h)),
        hint_of_tag(inserted(s, h), h.tag()) == Some(h),
        inserted(s, h).len() == if has_tag(s, h.tag()) {
            s.len()
        } else {
            s.len() + 1
        },
{
    let r = inserted(s, h);
    if has_tag(s, h.tag()) {
        let i = index_of_tag(s, h.tag());
        assert(r[i].tag() == h.tag());
    } else {
        assert(r[s.len() as int].tag() == h.tag());
    }
    let k = index_of_tag(r, h.tag());
    assert(has_tag(r, h.tag()));
    assert(r[k].tag() == h.tag());
}

/// Inserting a hint leaves the hints of every other tag as they were.
pub proof fn lemma_inserted_keeps_others(s: Seq<HintView>, h: HintView, tag: HintTagView)
    requires
        distinct_tags(s),
        tag != h.tag(),
    ensures
        has_tag(inserted(s, h), tag) == has_tag(s, tag),
        hint_of_tag(inserted(s, h), tag) == hint_of_tag(s, tag),
{
    let r = inserted(s, h);
    lemma_inserted_keeps_distinct(s, h);
    if has_tag(s, tag) {
        let i = index_of_tag(s, tag);
        assert(r[i] == s[i]);
        assert(has_tag(r, tag));
        let j = index_of_tag(r, tag);
        assert(r[j].tag() == r[i].tag());
        assert(j == i);
    }
    if has_tag(r, tag) {
        let j = index_of_tag(r, tag);
        assert(j < s.len());
        assert(r[j] == s[j]);
        assert(s[j].tag() == tag);
    }
}

/// Inserting into a sequence of distinct tags is an insertion into the
/// set: the inserted hint is held under its tag and nothing else changes.
pub proof fn lemma_inserted_is_insertion(s: Seq<HintView>, h: HintView)
    requires
        distinct_tags(s),
    ensures
        is_insertion(s, inserted(s, h), h),
{
    lemma_inserted_keeps_distinct(s, h);
    assert forall|tag: HintTagView| tag != h.tag() implies #[trigger] hint_of_tag(
        inserted(s, h),
        tag,
    ) == hint_of_tag(s, tag) by {
        lemma_inserted_keeps_others(s, h, tag);
    }
}

/// Inserting a hint changes one place at most: every hint of another tag
/// stands after the insertion where it stood before, and nothing of another
/// tag is there that was not there before.
pub proof fn lemma_inserted_keeps_places(s: Seq<HintView>, h: HintView)
    requires
        distinct_tags(s),
    ensures
        forall|i: int|
            0 <= i < s.len() && (#[trigger] s[i]).tag() != h.tag() ==> inserted(s, h)[i] == s[i],
        forall|i: int|
            0 <= i < inserted(s, h).len() && (#[trigger] inserted(s, h)[i]).tag() != h.tag() ==> i
                < s.len() && s[i] == inserted(s, h)[i],
{
    let r = inserted(s, h);
    if has_tag(s, h.tag()) {
        let k = index_of_tag(s, h.tag());
        assert(s[k].tag() == h.tag());
    }
}

/// Hints of different tags stay side by side: after two hints of
/// different tags were inserted, the set holds both. This is so for a
/// custom hint and the hint of a named variant too, also where the custom
/// hint is named by the key of that variant.
pub proof fn lemma_different_tags_stay(s: Seq<HintView>, first: HintView, second: HintView)
    requires
        distinct_tags(s),
        first.tag() != second.tag(),
    ensures
        hint_of_tag(inserted(inserted(s, first), second), first.tag()) == Some(first),
        hint_of_tag(inserted(inserted(s, first), second), second.tag()) == Some(second),
{
    let once = inserted(s, first);
    lemma_inserted_keeps_distinct(s, first);
    lemma_inserted_keeps_distinct(once, second);
    lemma_inserted_keeps_others(once, second, first.tag());
}

/// Set semantics: after two hints of one tag were inserted one after the
/// other, the set is as if only the second had been inserted. It holds the
/// second under that tag, and no other hint of that tag.
pub proof fn lemma_insert_replaces(s: Seq<HintView>, first: HintView, second: HintView)
    requires
        distinct_tags(s),
        first.tag() == second.tag(),
    ensures
        inserted(inserted(s, first), second) == inserted(s, second),
        hint_of_tag(inserted(inserted(s, first), second), second.tag()) == Some(second),
        count_of_tag(inserted(inserted(s, first), second), second.tag()) == 1,
{
    let tag = second.tag();
    let once = inserted(s, first);
    let twice = inserted(once, second);
    lemma_inserted_keeps_distinct(s, first);
    lemma_inserted_keeps_distinct(s, second);
    lemma_inserted_keeps_distinct(once, second);
    assert(has_tag(once, tag));
    let k = index_of_tag(once, tag);
    if has_tag(s, tag) {
        let i = index_of_tag(s, tag);
        assert(once[i].tag() == tag);
        assert(k == i);
        assert(twice =~= inserted(s, second));
    } else {
        assert(once[s.len() as int].tag() == tag);
        assert(k == s.len());
        assert(twice =~= inserted(s, second));
    }
    lemma_count_in_distinct(twice, tag);
}

/// After a hint was inserted the set holds exactly one hint of its tag,
/// the inserted one: whatever is of that tag is that hint, and it stands at
/// one place only.
pub proof fn lemma_one_hint_of_a_tag(s: Seq<HintView>, h: HintView)
    requires
        distinct_tags(s),
    ensures
        exists|i: int| 0 <= i < inserted(s, h).len() && #[trigger] inserted(s, h)[i] == h,
        forall|i: int|
            0 <= i < inserted(s, h).len() && (#[trigger] inserted(s, h)[i]).tag() == h.tag()
                ==> inserted(s, h)[i] == h,
        forall|i: int, j: int|
            0 <= i < inserted(s, h).len() && 0 <= j < inserted(s, h).len() && (
            #[trigger] inserted(s, h)[i]).tag() == h.tag() && (#[trigger] inserted(s, h)[j]).tag()
                == h.tag() ==> i == j,
{
    let r = inserted(s, h);
    lemma_inserted_keeps_distinct(s, h);
    let place = index_of_tag(r, h.tag());
    assert(r[place] == h);
    assert forall|i: int| 0 <= i < r.len() && (#[trigger] r[i]).tag() == h.tag() implies i == place
        && r[i] == h by {
        assert(r[i].tag() == r[place].tag());
    }
}

/// Among distinct tags a tag occurs once where it occurs at all.
pub proof fn lemma_count_in_distinct(s: Seq<HintView>, tag: HintTagView)
    requires
        distinct_tags(s),
    ensures
        count_of_tag(s, tag) == if has_tag(s, tag) {
            1nat
        } else {
            0nat
        },
    decreases s.len(),
{
    if s.len() > 0 {
        let rest = s.drop_last();
        assert forall|i: int, j: int| 0 <= i < j < rest.len() implies (#[trigger] rest[i]).tag() != (
        #[trigger] rest[j]).tag() by {
            assert(rest[i] == s[i] && rest[j] == s[j]);
        }
        lemma_count_in_distinct(rest, tag);
        if s.last().tag() == tag {
            assert(s[s.len() - 1].tag() == tag);
            if has_tag(rest, tag) {
                let i = index_of_tag(rest, tag);
                assert(rest[i] == s[i]);
                assert(s[i].tag() == s[s.len() - 1].tag());
            }
        } else {
            if has_tag(s, tag) {
                let i = index_of_tag(s, tag);
                assert(i < s.len() - 1);
                assert(rest[i].tag() == tag);
            }
            if has_tag(rest, tag) {
                let i = index_of_tag(rest, tag);
                assert(s[i].tag() == tag);
            }
        }
    }
}

/// Hints of distinct tags that are all decodable have distinct wire keys:
/// only a custom hint that is named by a reserved key can share its key
/// with a hint of another tag.
pub proof fn lemma_decodable_keys_distinct(s: Seq<HintView>)
    requires
        distinct_tags(s),
        all_decodable(s),
    ensures
        distinct_keys(s),
{
    assert forall|i: int, j: int| 0 <= i < j < s.len() implies (#[trigger] s[i]).key() != (
    #[trigger] s[j]).key() by {
        let a = s[i];
        let b = s[j];
        assert(a.tag() != b.tag());
        assert(a.decodable() && b.decodable());
        if a.is_named_variant() && b.is_named_variant() {
            lemma_reserved_keys_differ(a, b);
        } else if a.is_named_variant() {
            lemma_reserved_keys_differ(a, a);
        } else if b.is_named_variant() {
            lemma_reserved_keys_differ(b, b);
        }
    }
}

} // verus!
