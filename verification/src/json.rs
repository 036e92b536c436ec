//! The JSON values that flow through the plugin: the operator's configured
//! response, the call arguments, and the tool results built from them.

use vstd::prelude::*;
use vstd::string::*;

verus! {

/// A JSON value.
///
/// Numbers keep the three shapes a JSON number can take: a non-negative
/// integer, a negative integer, and a number with a fraction or an exponent,
/// which is kept as its decimal text. An object is a list of entries; where a
/// key occurs more than once the last entry is the one that counts, as when
/// the entries are inserted into a map one after the other.
#[derive(Debug, PartialEq, Eq)]
pub enum Json {
    Null,
    Bool(bool),
    UInt(u64),
    Int(i64),
    Decimal(String),
    Str(String),
    Array(Vec<Json>),
    Object(Vec<(String, Json)>),
}

/// The mathematical model of a [`Json`] value.
pub enum JsonView {
    Null,
    Bool(bool),
    UInt(u64),
    Int(i64),
    Decimal(Seq<char>),
    Str(Seq<char>),
    Array(Seq<JsonView>),
    Object(Seq<(Seq<char>, JsonView)>),
}

impl View for Json {
    type V = JsonView;

    open spec fn view(&self) -> JsonView {
        json_view(*self)
    }
}

/// The model of `j`.
pub open spec fn json_view(j: Json) -> JsonView
    decreases j, 0nat,
{
    match j {
        Json::Null => JsonView::Null,
        Json::Bool(b) => JsonView::Bool(b),
        Json::UInt(n) => JsonView::UInt(n),
        Json::Int(n) => JsonView::Int(n),
        Json::Decimal(s) => JsonView::Decimal(s@),
        Json::Str(s) => JsonView::Str(s@),
        Json::Array(items) => JsonView::Array(items_view(items@)),
        Json::Object(entries) => JsonView::Object(entries_view(entries@)),
    }
}

/// The models of the items of an array, in order.
pub open spec fn items_view(items: Seq<Json>) -> Seq<JsonView>
    decreases items, 1nat,
{
    if items.len() == 0 {
        Seq::empty()
    } else {
        items_view(items.drop_last()).push(json_view(items.last()))
    }
}

/// The model of an object's entries, each key and value taken by its view, in order.
pub open spec fn entries_view(entries: Seq<(String, Json)>) -> Seq<(Seq<char>, JsonView)>
    decreases entries, 1nat,
{
    if entries.len() == 0 {
        Seq::empty()
    } else {
        entries_view(entries.drop_last()).push((entries.last().0@, json_view(entries.last().1)))
    }
}

/// `items_view` maps each item to its model.
pub proof fn lemma_items_view(items: Seq<Json>)
    ensures
        items_view(items).len() == items.len(),
        forall|k: int| 0 <= k < items.len() ==> #[trigger] items_view(items)[k] == items[k]@,
    decreases items.len(),
{
    if items.len() > 0 {
        lemma_items_view(items.drop_last());
    }
}

/// `entries_view` maps each entry to the views of its key and value.
pub proof fn lemma_entries_view(entries: Seq<(String, Json)>)
    ensures
        entries_view(entries).len() == entries.len(),
        forall|k: int|
            0 <= k < entries.len() ==> #[trigger] entries_view(entries)[k] == (
                entries[k].0@,
                entries[k].1@,
            ),
    decreases entries.len(),
{
    if entries.len() > 0 {
        lemma_entries_view(entries.drop_last());
    }
}

/// The value that `entries` hold under `key`: that of the last entry with this key.
pub open spec fn entries_lookup(entries: Seq<(Seq<char>, JsonView)>, key: Seq<char>) -> Option<
    JsonView,
>
    decreases entries.len(),
{
    if entries.len() == 0 {
        None
    } else if entries.last().0 == key {
        Some(entries.last().1)
    } else {
        entries_lookup(entries.drop_last(), key)
    }
}

/// The entry that a key is found at: the last entry holding the key.
pub proof fn lemma_entries_lookup_at(entries: Seq<(Seq<char>, JsonView)>, key: Seq<char>, i: int)
    requires
        0 <= i < entries.len(),
        entries[i].0 == key,
        forall|j: int| i < j < entries.len() ==> entries[j].0 != key,
    ensures
        entries_lookup(entries, key) == Some(entries[i].1),
    decreases entries.len(),
{
    if i < entries.len() - 1 {
        lemma_entries_lookup_at(entries.drop_last(), key, i);
    }
}

/// A key that no entry holds is not found.
pub proof fn lemma_entries_lookup_absent(entries: Seq<(Seq<char>, JsonView)>, key: Seq<char>)
    requires
        forall|j: int| 0 <= j < entries.len() ==> entries[j].0 != key,
    ensures
        entries_lookup(entries, key) is None,
    decreases entries.len(),
{
    if entries.len() > 0 {
        lemma_entries_lookup_absent(entries.drop_last(), key);
    }
}

impl JsonView {
    /// The member `key` of an object; `None` for a missing key or a value that is no object.
    pub open spec fn field(self, key: Seq<char>) -> Option<JsonView> {
        match self {
            JsonView::Object(entries) => entries_lookup(entries, key),
            _ => None,
        }
    }

    /// A `CallToolResult` in the loose sense the plugin checks: an object
    /// whose `content` member is an array.
    pub open spec fn is_call_tool_result_shape(self) -> bool {
        match self.field("content"@) {
            Some(content) => content is Array,
            None => false,
        }
    }
}

impl Json {
    /// A string value holding `s`.
    pub fn string(s: &str) -> (r: Json)
        ensures
            r@ == JsonView::Str(s@),
    {
        Json::Str(String::from_str(s))
    }

    /// Whether this value is an array.
    pub fn is_array(&self) -> (r: bool)
        ensures
            r == (self@ is Array),
    {
        match self {
            Json::Array(_) => true,
            _ => false,
        }
    }

    /// The member `key` of this value, as serde_json's `Value::get` with a
    /// string index gives it: `None` unless this is an object holding `key`.
    pub fn get(&self, key: &str) -> (r: Option<&Json>)
        ensures
            match r {
                Some(v) => self@.field(key@) == Some(v@),
                None => self@.field(key@) is None,
            },
    {
        match self {
            Json::Object(entries) => {
                let ghost ev = entries_view(entries@);
                proof {
                    lemma_entries_view(entries@);
                }
                let key_s = String::from_str(key);
                let mut i = entries.len();
                assert(ev.take(i as int) =~= ev);
                while i > 0
                    invariant
                        i <= entries.len(),
                        key_s@ == key@,
                        ev == entries_view(entries@),
                        self@ == JsonView::Object(ev),
                        ev.len() == entries@.len(),
                        forall|k: int|
                            0 <= k < entries@.len() ==> #[trigger] ev[k] == (
                                entries@[k].0@,
                                entries@[k].1@,
                            ),
                        entries_lookup(ev.take(i as int), key@) == entries_lookup(ev, key@),
                    decreases i,
                {
                    i = i - 1;
                    assert(ev.take(i + 1).drop_last() =~= ev.take(i as int));
                    assert(ev.take(i + 1).last() == ev[i as int]);
                    if entries[i].0 == key_s {
                        return Some(&entries[i].1);
                    }
                }
                None
            },
            _ => None,
        }
    }
}

/// A copy of `j`.
pub fn clone_json(j: &Json) -> (r: Json)
    ensures
        r@ == j@,
    decreases j,
{
    match j {
        Json::Null => Json::Null,
        Json::Bool(b) => Json::Bool(*b),
        Json::UInt(n) => Json::UInt(*n),
        Json::Int(n) => Json::Int(*n),
        Json::Decimal(s) => Json::Decimal(s.clone()),
        Json::Str(s) => Json::Str(s.clone()),
        Json::Array(items) => {
            let mut out: Vec<Json> = Vec::new();
            let mut i: usize = 0;
            while i < items.len()
                invariant
                    i <= items.len(),
                    items_view(out@) == items_view(items@.take(i as int)),
                    *j == Json::Array(*items),
                decreases items.len() - i,
            {
                proof {
                    assert(decreases_to!(*j => j->Array_0));
                    assert(decreases_to!(*items => items@));
                    assert(decreases_to!(items@ => items@[i as int]));
                }
                let c = clone_json(&items[i]);
                proof {
                    assert(out@.push(c).drop_last() =~= out@);
                    assert(items@.take(i + 1).drop_last() =~= items@.take(i as int));
                }
                out.push(c);
                i = i + 1;
            }
            assert(items@.take(i as int) =~= items@);
            Json::Array(out)
        },
        Json::Object(entries) => {
            let mut out: Vec<(String, Json)> = Vec::new();
            let mut i: usize = 0;
            while i < entries.len()
                invariant
                    i <= entries.len(),
                    entries_view(out@) == entries_view(entries@.take(i as int)),
                    *j == Json::Object(*entries),
                decreases entries.len() - i,
            {
                proof {
                    assert(decreases_to!(*j => j->Object_0));
                    assert(decreases_to!(*entries => entries@));
                    assert(decreases_to!(entries@ => entries@[i as int]));
                    assert(decreases_to!(entries@[i as int] => entries@[i as int].1));
                }
                let v = clone_json(&entries[i].1);
                let k = entries[i].0.clone();
                proof {
                    assert(out@.push((k, v)).drop_last() =~= out@);
                    assert(entries@.take(i + 1).drop_last() =~= entries@.take(i as int));
                }
                out.push((k, v));
                i = i + 1;
            }
            assert(entries@.take(i as int) =~= entries@);
            Json::Object(out)
        },
    }
}

impl Clone for Json {
    fn clone(&self) -> (r: Json)
        ensures
            r@ == self@,
    {
        clone_json(self)
    }
}

} // verus!
