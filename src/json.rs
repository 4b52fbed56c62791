use vstd::prelude::*;

verus! {

/// The mathematical form of a JSON tree.
pub enum Json {
    Null,
    Bool(bool),
    Number(Seq<char>),
    Str(Seq<char>),
    Array(Seq<Json>),
    Object(Seq<(Seq<char>, Json)>),
}

/// A JSON tree: null, booleans, numbers (kept as the text they were written
/// with), strings, arrays, and objects as lists of key/value entries.
#[derive(Debug, PartialEq)]
pub enum JsonValue {
    Null,
    Bool(bool),
    Number(String),
    Str(String),
    Array(Vec<JsonValue>),
    Object(Vec<(String, JsonValue)>),
}

/// The view of a tree: strings by their characters, vectors by their sequences.
pub open spec fn json_of(v: JsonValue) -> Json
    decreases v,
{
    match v {
        JsonValue::Null => Json::Null,
        JsonValue::Bool(b) => Json::Bool(b),
        JsonValue::Number(n) => Json::Number(n@),
        JsonValue::Str(s) => Json::Str(s@),
        JsonValue::Array(items) => Json::Array(
            Seq::new(items@.len(), |i: int|
                if 0 <= i < items@.len() { json_of(items@[i]) } else { Json::Null },
            ),
        ),
        JsonValue::Object(entries) => Json::Object(
            Seq::new(entries@.len(), |i: int|
                if 0 <= i < entries@.len() {
                    (entries@[i].0@, json_of(entries@[i].1))
                } else {
                    (Seq::empty(), Json::Null)
                },
            ),
        ),
    }
}

impl View for JsonValue {
    type V = Json;

    open spec fn view(&self) -> Json {
        json_of(*self)
    }
}

/// The entries of an object, each key and value by its view.
pub open spec fn entries_view(entries: Seq<(String, JsonValue)>) -> Seq<(Seq<char>, Json)> {
    Seq::new(entries.len(), |i: int| (entries[i].0@, entries[i].1@))
}

/// An object's view is the view of its entries.
pub proof fn lemma_object_view(v: &JsonValue)
    requires
        v is Object,
    ensures
        v@ == Json::Object(entries_view(v->Object_0@)),
{
    let es = entries_view(v->Object_0@);
    assert(v@->Object_0.len() == es.len());
    assert(v@->Object_0 =~= es);
}

/// The value of the first entry named `key`, if there is one.
pub open spec fn field_of(entries: Seq<(Seq<char>, Json)>, key: Seq<char>) -> Option<Json>
    decreases entries.len(),
{
    if entries.len() == 0 {
        None
    } else if entries[0].0 == key {
        Some(entries[0].1)
    } else {
        field_of(entries.drop_first(), key)
    }
}

/// Where the first entry named `key` stands: the index of the value that
/// `field_of` gives.
pub fn find_field(entries: &Vec<(String, JsonValue)>, key: &String) -> (r: Option<usize>)
    ensures
        r is None <==> field_of(entries_view(entries@), key@) is None,
        r matches Some(i) ==> i < entries@.len() && entries@[i as int].0@ == key@
            && field_of(entries_view(entries@), key@) == Some(entries@[i as int].1@),
{
    let ghost all = entries_view(entries@);
    let n = entries.len();
    let mut i: usize = 0;
    assert(all.subrange(0, n as int) =~= all);
    while i < n
        invariant
            n == entries@.len(),
            all == entries_view(entries@),
            i <= n,
            field_of(all, key@) == field_of(all.subrange(i as int, n as int), key@),
        decreases n - i,
    {
        let ghost rest = all.subrange(i as int, n as int);
        assert(rest.drop_first() =~= all.subrange(i + 1, n as int));
        if entries[i].0 == *key {
            return Some(i);
        }
        i = i + 1;
    }
    assert(all.subrange(n as int, n as int).len() == 0);
    None
}

impl JsonValue {
    /// A deep copy of the tree.
    pub fn duplicate(&self) -> (r: JsonValue)
        ensures
            r@ == self@,
        decreases self,
    {
        match self {
            JsonValue::Null => JsonValue::Null,
            JsonValue::Bool(b) => JsonValue::Bool(*b),
            JsonValue::Number(n) => JsonValue::Number(n.clone()),
            JsonValue::Str(s) => JsonValue::Str(s.clone()),
            JsonValue::Array(items) => {
                let mut out: Vec<JsonValue> = Vec::new();
                let mut i: usize = 0;
                while i < items.len()
                    invariant
                        *self == JsonValue::Array(*items),
                        i <= items@.len(),
                        out@.len() == i,
                        forall|j: int| 0 <= j < i ==> out@[j]@ == items@[j]@,
                    decreases items@.len() - i,
                {
                    proof {
                        assert(decreases_to!(*self => self->Array_0));
                        assert(decreases_to!(*items => items[i as int]));
                    }
                    let item = items[i].duplicate();
                    out.push(item);
                    i = i + 1;
                }
                let r = JsonValue::Array(out);
                assert(r@ == self@) by {
                    if let Json::Array(a) = r@ {
                        if let Json::Array(b) = self@ {
                            assert(a =~= b);
                        }
                    }
                }
                r
            },
            JsonValue::Object(entries) => {
                let mut out: Vec<(String, JsonValue)> = Vec::new();
                let mut i: usize = 0;
                while i < entries.len()
                    invariant
                        *self == JsonValue::Object(*entries),
                        i <= entries@.len(),
                        out@.len() == i,
                        forall|j: int| 0 <= j < i ==> out@[j].0@ == entries@[j].0@
                            && out@[j].1@ == entries@[j].1@,
                    decreases entries@.len() - i,
                {
                    let key = entries[i].0.clone();
                    proof {
                        assert(decreases_to!(*self => self->Object_0));
                        assert(decreases_to!(*entries => entries[i as int]));
                        assert(decreases_to!(entries[i as int] => entries[i as int].1));
                    }
                    let value = entries[i].1.duplicate();
                    out.push((key, value));
                    i = i + 1;
                }
                let r = JsonValue::Object(out);
                assert(r@ == self@) by {
                    if let Json::Object(a) = r@ {
                        if let Json::Object(b) = self@ {
                            assert(a =~= b);
                        }
                    }
                }
                r
            },
        }
    }
}

} // verus!
