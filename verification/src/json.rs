//! JSON documents as plain data.
//!
//! [`Json`] is the executable tree; [`JsonView`] is its mathematical model,
//! over which every contract in this crate is stated.

use vstd::prelude::*;
use crate::text::str_eq;

verus! {

/// A JSON number: a non-negative integer, a negative integer, or a binary64
/// value held by its bit pattern.
#[derive(Clone, Copy, Debug, PartialEq, Eq, Structural)]
pub enum JsonNumber {
    PosInt(u64),
    NegInt(i64),
    Float(u64),
}

impl JsonNumber {
    /// The number that stands for a signed integer: `NegInt` below zero,
    /// `PosInt` from zero on.
    pub open spec fn of_int(n: i64) -> JsonNumber {
        if n < 0 {
            JsonNumber::NegInt(n)
        } else {
            JsonNumber::PosInt(n as u64)
        }
    }

    pub fn from_i64(n: i64) -> (num: JsonNumber)
        ensures
            num == Self::of_int(n),
    {
        if n < 0 {
            JsonNumber::NegInt(n)
        } else {
            JsonNumber::PosInt(n as u64)
        }
    }
}

/// The model of a JSON document.
pub enum JsonView {
    Null,
    Bool(bool),
    Number(JsonNumber),
    Text(Seq<char>),
    Array(Seq<JsonView>),
    Object(Seq<(Seq<char>, JsonView)>),
}

/// The value bound to `key` in a list of object entries. Where a key is
/// repeated, the last entry is the one in effect.
pub open spec fn lookup(entries: Seq<(Seq<char>, JsonView)>, key: Seq<char>) -> Option<JsonView>
    decreases entries.len(),
{
    if entries.len() == 0 {
        None
    } else if entries.last().0 == key {
        Some(entries.last().1)
    } else {
        lookup(entries.drop_last(), key)
    }
}

impl JsonView {
    /// The member `key` of an object; `None` for a missing key and for
    /// anything that is not an object.
    pub open spec fn field(self, key: Seq<char>) -> Option<JsonView> {
        match self {
            JsonView::Object(entries) => lookup(entries, key),
            _ => None,
        }
    }

    /// The element at `index` of an array; `None` past its end and for
    /// anything that is not an array.
    pub open spec fn element(self, index: int) -> Option<JsonView> {
        match self {
            JsonView::Array(items) => if 0 <= index < items.len() {
                Some(items[index])
            } else {
                None
            },
            _ => None,
        }
    }

    /// A field of a message: by name in an object, by position in an array.
    pub open spec fn member(self, key: Seq<char>, position: int) -> Option<JsonView> {
        match self {
            JsonView::Object(_) => self.field(key),
            JsonView::Array(_) => self.element(position),
            _ => None,
        }
    }

    /// Whether the document can hold a message of at most `most` fields: any
    /// object, or an array of no more than `most` elements.
    pub open spec fn fits(self, most: int) -> bool {
        match self {
            JsonView::Object(_) => true,
            JsonView::Array(items) => items.len() <= most,
            _ => false,
        }
    }

    /// The characters of a string; `None` for anything else.
    pub open spec fn text(self) -> Option<Seq<char>> {
        match self {
            JsonView::Text(s) => Some(s),
            _ => None,
        }
    }
}

/// An optional field as the codec reads it: a missing field and an explicit
/// `null` both count as absent.
pub open spec fn present(field: Option<JsonView>) -> Option<JsonView> {
    match field {
        Some(JsonView::Null) => None,
        other => other,
    }
}

/// A JSON document.
#[derive(Debug, PartialEq, Eq)]
pub enum Json {
    Null,
    Bool(bool),
    Number(JsonNumber),
    Text(String),
    Array(Vec<Json>),
    Object(Vec<(String, Json)>),
}

impl Json {
    /// The model of this document.
    pub open spec fn model(self) -> JsonView
        decreases self,
    {
        match self {
            Json::Null => JsonView::Null,
            Json::Bool(b) => JsonView::Bool(b),
            Json::Number(n) => JsonView::Number(n),
            Json::Text(s) => JsonView::Text(s@),
            Json::Array(items) => JsonView::Array(
                Seq::new(
                    items@.len(),
                    |i: int|
                        if 0 <= i < items@.len() {
                            items@[i].model()
                        } else {
                            JsonView::Null
                        },
                ),
            ),
            Json::Object(entries) => JsonView::Object(
                Seq::new(
                    entries@.len(),
                    |i: int|
                        if 0 <= i < entries@.len() {
                            (entries@[i].0@, entries@[i].1.model())
                        } else {
                            (Seq::empty(), JsonView::Null)
                        },
                ),
            ),
        }
    }
}

impl View for Json {
    type V = JsonView;

    open spec fn view(&self) -> JsonView {
        self.model()
    }
}

/// The model of a document that may be absent.
pub open spec fn view_of(doc: Option<&Json>) -> Option<JsonView> {
    match doc {
        Some(d) => Some(d@),
        None => None,
    }
}

/// The model of an owned document that may be absent.
pub open spec fn owned_view(doc: Option<Json>) -> Option<JsonView> {
    match doc {
        Some(d) => Some(d@),
        None => None,
    }
}

/// The models of a vector of documents, element by element.
pub open spec fn views(items: Seq<Json>) -> Seq<JsonView> {
    Seq::new(items.len(), |i: int| items[i]@)
}

/// The models of a vector of object entries, entry by entry.
pub open spec fn entry_views(entries: Seq<(String, Json)>) -> Seq<(Seq<char>, JsonView)> {
    Seq::new(entries.len(), |i: int| (entries[i].0@, entries[i].1@))
}

/// An array's model is the list of its elements' models.
pub proof fn lemma_array_view(items: Vec<Json>)
    ensures
        Json::Array(items)@ == JsonView::Array(views(items@)),
{
    assert(Json::Array(items)@->Array_0 =~= views(items@));
}

/// An object's model is the list of its entries' models.
pub proof fn lemma_object_view(entries: Vec<(String, Json)>)
    ensures
        Json::Object(entries)@ == JsonView::Object(entry_views(entries@)),
{
    assert(Json::Object(entries)@->Object_0 =~= entry_views(entries@));
}

/// Looking a key up among the first `n + 1` entries: the entry at `n`
/// decides where it has the key, the first `n` entries decide otherwise.
pub proof fn lemma_lookup_step(entries: Seq<(Seq<char>, JsonView)>, key: Seq<char>, n: int)
    requires
        0 <= n < entries.len(),
    ensures
        lookup(entries.take(n + 1), key) == if entries[n].0 == key {
            Some(entries[n].1)
        } else {
            lookup(entries.take(n), key)
        },
{
    let prefix = entries.take(n + 1);
    assert(prefix.last() == entries[n]);
    assert(prefix.drop_last() =~= entries.take(n));
}

impl Json {
    /// A string document with the characters of `s`.
    pub fn text(s: &str) -> (doc: Json)
        ensures
            doc@ == JsonView::Text(s@),
    {
        Json::Text(s.to_owned())
    }

    /// The document that stands for a signed integer.
    pub fn integer(n: i64) -> (doc: Json)
        ensures
            doc@ == JsonView::Number(JsonNumber::of_int(n)),
    {
        Json::Number(JsonNumber::from_i64(n))
    }

    /// An object with no entries.
    pub fn empty_object() -> (doc: Json)
        ensures
            doc@ == JsonView::Object(Seq::empty()),
    {
        let entries: Vec<(String, Json)> = Vec::new();
        proof {
            lemma_object_view(entries);
            assert(entry_views(entries@) =~= Seq::empty());
        }
        Json::Object(entries)
    }

    /// The object with the given entries.
    pub fn object(entries: Vec<(String, Json)>) -> (doc: Json)
        ensures
            doc@ == JsonView::Object(entry_views(entries@)),
    {
        proof {
            lemma_object_view(entries);
        }
        Json::Object(entries)
    }

    /// The array with the given elements.
    pub fn array(items: Vec<Json>) -> (doc: Json)
        ensures
            doc@ == JsonView::Array(views(items@)),
    {
        proof {
            lemma_array_view(items);
        }
        Json::Array(items)
    }

    /// Whether the document is `null`.
    pub fn is_null(&self) -> (null: bool)
        ensures
            null == (self@ == JsonView::Null),
    {
        match self {
            Json::Null => true,
            _ => false,
        }
    }

    /// The characters of a string document.
    pub fn as_str(&self) -> (s: Option<&str>)
        ensures
            match s {
                Some(t) => self@.text() == Some(t@),
                None => self@.text() is None,
            },
    {
        match self {
            Json::Text(t) => Some(t.as_str()),
            _ => None,
        }
    }

    /// The member `key` of an object document.
    pub fn get(&self, key: &str) -> (member: Option<&Json>)
        ensures
            view_of(member) == self@.field(key@),
    {
        match self {
            Json::Object(entries) => {
                proof {
                    lemma_object_view(*entries);
                }
                let ghost all = entry_views(entries@);
                let mut i: usize = entries.len();
                assert(all.take(i as int) =~= all);
                while i > 0
                    invariant
                        i <= entries.len(),
                        all == entry_views(entries@),
                        self@ == JsonView::Object(all),
                        lookup(all, key@) == lookup(all.take(i as int), key@),
                    decreases i,
                {
                    i -= 1;
                    proof {
                        lemma_lookup_step(all, key@, i as int);
                    }
                    if str_eq(entries[i].0.as_str(), key) {
                        return Some(&entries[i].1);
                    }
                }
                None
            },
            _ => None,
        }
    }

    /// A field of a message: by name in an object, by position in an array.
    pub fn member(&self, key: &str, position: usize) -> (field: Option<&Json>)
        ensures
            view_of(field) == self@.member(key@, position as int),
    {
        match self {
            Json::Object(_) => self.get(key),
            Json::Array(_) => self.at(position),
            _ => None,
        }
    }

    /// Whether the document can hold a message of at most `most` fields.
    pub fn fits(&self, most: usize) -> (ok: bool)
        ensures
            ok == self@.fits(most as int),
    {
        match self {
            Json::Object(_) => true,
            Json::Array(items) => {
                proof {
                    lemma_array_view(*items);
                }
                items.len() <= most
            },
            _ => false,
        }
    }

    /// An optional field as the codec reads it: `None` for a missing field
    /// and for an explicit `null`.
    pub fn optional<'a>(field: Option<&'a Json>) -> (value: Option<&'a Json>)
        ensures
            view_of(value) == present(view_of(field)),
    {
        match field {
            Some(f) => if f.is_null() {
                None
            } else {
                Some(f)
            },
            None => None,
        }
    }

    /// The element at `index` of an array document.
    pub fn at(&self, index: usize) -> (element: Option<&Json>)
        ensures
            view_of(element) == self@.element(index as int),
    {
        match self {
            Json::Array(items) => {
                proof {
                    lemma_array_view(*items);
                }
                if index < items.len() {
                    Some(&items[index])
                } else {
                    None
                }
            },
            _ => None,
        }
    }
}

/// Appends the entry `key: value` to a list of object entries.
pub fn put(entries: &mut Vec<(String, Json)>, key: &str, value: Json)
    ensures
        entry_views(final(entries)@) == entry_views(old(entries)@).push((key@, value@)),
{
    entries.push((key.to_owned(), value));
    assert(entry_views(entries@) =~= entry_views(old(entries)@).push((key@, value@)));
}

impl Clone for Json {
    /// A deep copy: the same document in fresh storage.
    fn clone(&self) -> (copy: Json)
        ensures
            copy@ == self@,
        decreases self,
    {
        match self {
            Json::Null => Json::Null,
            Json::Bool(b) => Json::Bool(*b),
            Json::Number(n) => Json::Number(*n),
            Json::Text(s) => Json::Text(s.clone()),
            Json::Array(items) => {
                let mut out: Vec<Json> = Vec::new();
                let mut i: usize = 0;
                while i < items.len()
                    invariant
                        i <= items.len(),
                        out.len() == i,
                        forall|k: int| 0 <= k < i ==> out@[k]@ == items@[k]@,
                        self is Array,
                        self->Array_0 == *items,
                    decreases items.len() - i,
                {
                    proof {
                        assert(decreases_to!(*items => items[i as int]));
                    }
                    out.push(items[i].clone());
                    i += 1;
                }
                proof {
                    lemma_array_view(out);
                    lemma_array_view(*items);
                    assert(views(out@) =~= views(items@));
                }
                Json::Array(out)
            },
            Json::Object(entries) => {
                let mut out: Vec<(String, Json)> = Vec::new();
                let mut i: usize = 0;
                while i < entries.len()
                    invariant
                        i <= entries.len(),
                        out.len() == i,
                        forall|k: int|
                            0 <= k < i ==> out@[k].0@ == entries@[k].0@ && out@[k].1@
                                == entries@[k].1@,
                        self is Object,
                        self->Object_0 == *entries,
                    decreases entries.len() - i,
                {
                    proof {
                        assert(decreases_to!(*entries => entries[i as int]));
                    }
                    out.push((entries[i].0.clone(), entries[i].1.clone()));
                    i += 1;
                }
                proof {
                    lemma_object_view(out);
                    lemma_object_view(*entries);
                    assert(entry_views(out@) =~= entry_views(entries@));
                }
                Json::Object(out)
            },
        }
    }
}

} // verus!
