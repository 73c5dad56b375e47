//! A small JSON document model.
//!
//! The object codecs in this crate dispatch on the shape of a wire value (a
//! bare string versus a tagged object), so they work over this model rather
//! than over raw text. Numbers are carried as their decimal literal text:
//! this layer never interprets numeric payloads, it only moves them.

use crate::str_eq;
use vstd::prelude::*;

verus! {

/// A JSON-compatible wire value.
///
/// Object fields are an ordered sequence of key-value entries; decoders scan
/// them in order and make no assumption about field order.
#[derive(Debug, PartialEq, Eq)]
pub enum JsonValue {
    /// The JSON `null` value.
    Null,
    /// A JSON boolean.
    Bool(bool),
    /// A JSON number, carried as its decimal literal text, uninterpreted.
    Number(String),
    /// A JSON string.
    Str(String),
    /// A JSON array.
    Array(Vec<JsonValue>),
    /// A JSON object: its entries in order of appearance.
    Object(Vec<(String, JsonValue)>),
}

/// Specification-level form of a [`JsonValue`].
#[verifier::ext_equal]
pub enum SpecJson {
    Null,
    Bool(bool),
    Number(Seq<char>),
    Str(Seq<char>),
    Array(Seq<SpecJson>),
    Object(Seq<(Seq<char>, SpecJson)>),
}

/// The element-wise view of a sequence of JSON values.
pub open spec fn spec_items_view(items: Seq<JsonValue>) -> Seq<SpecJson>
    decreases items,
{
    Seq::new(
        items.len(),
        |i: int|
            if 0 <= i < items.len() {
                items[i]@
            } else {
                SpecJson::Null
            },
    )
}

/// The entry-wise view of a sequence of JSON object entries.
pub open spec fn spec_entries_view(entries: Seq<(String, JsonValue)>) -> Seq<
    (Seq<char>, SpecJson),
>
    decreases entries,
{
    Seq::new(
        entries.len(),
        |i: int|
            if 0 <= i < entries.len() {
                (entries[i].0@, entries[i].1@)
            } else {
                (Seq::empty(), SpecJson::Null)
            },
    )
}

impl View for JsonValue {
    type V = SpecJson;

    open spec fn view(&self) -> SpecJson
        decreases self,
    {
        match self {
            JsonValue::Null => SpecJson::Null,
            JsonValue::Bool(b) => SpecJson::Bool(*b),
            JsonValue::Number(s) => SpecJson::Number(s@),
            JsonValue::Str(s) => SpecJson::Str(s@),
            JsonValue::Array(items) => SpecJson::Array(spec_items_view(items@)),
            JsonValue::Object(entries) => SpecJson::Object(spec_entries_view(entries@)),
        }
    }
}

impl DeepView for JsonValue {
    type V = SpecJson;

    open spec fn deep_view(&self) -> SpecJson {
        self.view()
    }
}

impl Clone for JsonValue {
    /// Clones the value; the copy has the same view as the original.
    fn clone(&self) -> (r: JsonValue)
        ensures
            r@ == self@,
        decreases self,
    {
        match self {
            JsonValue::Null => JsonValue::Null,
            JsonValue::Bool(b) => JsonValue::Bool(*b),
            JsonValue::Number(s) => JsonValue::Number(s.clone()),
            JsonValue::Str(s) => JsonValue::Str(s.clone()),
            JsonValue::Array(items) => {
                let mut out: Vec<JsonValue> = Vec::new();
                let mut i: usize = 0;
                while i < items.len()
                    invariant
                        *self == JsonValue::Array(*items),
                        i <= items.len(),
                        out@.len() == i,
                        forall|j: int| 0 <= j < i ==> out@[j]@ == items@[j]@,
                    decreases items.len() - i,
                {
                    proof {
                        assert(decreases_to!(*self => items@[i as int])) by {
                            assert(*items == self->Array_0);
                            assert(decreases_to!(*self => self->Array_0));
                            assert(decreases_to!(*items => items@));
                            assert(decreases_to!(items@ => items@[i as int]));
                        }
                    }
                    out.push(items[i].clone());
                    i = i + 1;
                }
                let r = JsonValue::Array(out);
                proof {
                    assert(spec_items_view(out@) =~= spec_items_view(items@));
                }
                r
            }
            JsonValue::Object(entries) => {
                let mut out: Vec<(String, JsonValue)> = Vec::new();
                let mut i: usize = 0;
                while i < entries.len()
                    invariant
                        *self == JsonValue::Object(*entries),
                        i <= entries.len(),
                        out@.len() == i,
                        forall|j: int|
                            0 <= j < i ==> out@[j].0@ == entries@[j].0@ && out@[j].1@
                                == entries@[j].1@,
                    decreases entries.len() - i,
                {
                    proof {
                        assert(decreases_to!(*self => entries@[i as int].1)) by {
                            assert(*entries == self->Object_0);
                            assert(decreases_to!(*self => self->Object_0));
                            assert(decreases_to!(*entries => entries@));
                            assert(decreases_to!(entries@ => entries@[i as int]));
                            assert(decreases_to!(entries@[i as int] => entries@[i as int].1));
                        }
                    }
                    let key = entries[i].0.clone();
                    let val = entries[i].1.clone();
                    out.push((key, val));
                    i = i + 1;
                }
                let r = JsonValue::Object(out);
                proof {
                    assert(spec_entries_view(out@) =~= spec_entries_view(entries@));
                }
                r
            }
        }
    }
}

/// The value of the first entry of `obj` whose key is `key`, if any.
pub open spec fn spec_object_get(obj: Seq<(Seq<char>, SpecJson)>, key: Seq<char>) -> Option<
    SpecJson,
>
    decreases obj.len(),
{
    if obj.len() == 0 {
        None
    } else if obj[0].0 == key {
        Some(obj[0].1)
    } else {
        spec_object_get(obj.drop_first(), key)
    }
}

/// Looking up the key of entry `j` finds entry `j`, provided no earlier
/// entry shares that key.
pub proof fn lemma_object_get_at(obj: Seq<(Seq<char>, SpecJson)>, j: int)
    requires
        0 <= j < obj.len(),
        forall|i: int| 0 <= i < j ==> obj[i].0 != obj[j].0,
    ensures
        spec_object_get(obj, obj[j].0) == Some(obj[j].1),
    decreases j,
{
    if j == 0 {
    } else {
        let rest = obj.drop_first();
        assert(rest[j - 1] == obj[j]);
        assert forall|i: int| 0 <= i < j - 1 implies (#[trigger] rest[i]).0 != rest[j - 1].0 by {
            assert(rest[i] == obj[i + 1]);
        }
        lemma_object_get_at(rest, j - 1);
    }
}

/// Looking up a key held by no entry finds nothing.
pub proof fn lemma_object_get_absent(obj: Seq<(Seq<char>, SpecJson)>, key: Seq<char>)
    requires
        forall|i: int| 0 <= i < obj.len() ==> obj[i].0 != key,
    ensures
        spec_object_get(obj, key) is None,
    decreases obj.len(),
{
    if obj.len() == 0 {
    } else {
        let rest = obj.drop_first();
        assert forall|i: int| 0 <= i < rest.len() implies (#[trigger] rest[i]).0 != key by {
            assert(rest[i] == obj[i + 1]);
        }
        lemma_object_get_absent(rest, key);
    }
}

/// Looks up the first entry with the given key in a list of object entries.
pub fn object_get<'a>(entries: &'a Vec<(String, JsonValue)>, key: &str) -> (r: Option<
    &'a JsonValue,
>)
    ensures
        match r {
            Some(v) => spec_object_get(spec_entries_view(entries@), key@) == Some(v@),
            None => spec_object_get(spec_entries_view(entries@), key@) is None,
        },
{
    let ghost obj = spec_entries_view(entries@);
    proof {
        assert(obj.skip(0) =~= obj);
    }
    let mut i: usize = 0;
    while i < entries.len()
        invariant
            obj == spec_entries_view(entries@),
            i <= entries.len(),
            spec_object_get(obj, key@) == spec_object_get(obj.skip(i as int), key@),
            forall|j: int| 0 <= j < i ==> entries@[j].0@ != key@,
        decreases entries.len() - i,
    {
        if str_eq(entries[i].0.as_str(), key) {
            proof {
                assert(obj.skip(i as int)[0] == (entries@[i as int].0@, entries@[i as int].1@));
            }
            return Some(&entries[i].1);
        }
        proof {
            assert(obj.skip(i as int)[0] == (entries@[i as int].0@, entries@[i as int].1@));
            assert(obj.skip(i as int).drop_first() =~= obj.skip(i + 1));
        }
        i = i + 1;
    }
    proof {
        assert(obj.skip(i as int) =~= Seq::<(Seq<char>, SpecJson)>::empty());
    }
    None
}

} // verus!
