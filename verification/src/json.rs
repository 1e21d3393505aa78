//! JSON values and their mathematical model.

use vstd::prelude::*;
use vstd::string::*;
use vstd::utf8::*;

verus! {

/// A JSON number: a non-negative integer, a negative integer, or a
/// floating-point number kept as its IEEE 754 bit pattern.
#[derive(Clone, Copy, Debug, PartialEq, Eq, Structural)]
pub enum JsonNumber {
    PosInt(u64),
    NegInt(i64),
    Float(u64),
}

/// A JSON value. An object keeps its members in the order in which they
/// were written; a lookup by key finds the first member with that key.
#[derive(Debug, PartialEq, Eq)]
pub enum JsonValue {
    Null,
    Bool(bool),
    Number(JsonNumber),
    String(String),
    Array(Vec<JsonValue>),
    Object(Vec<(String, JsonValue)>),
}

/// The mathematical model of a JSON value.
#[verifier::ext_equal]
pub enum Json {
    Null,
    Bool(bool),
    Number(JsonNumber),
    String(Seq<char>),
    Array(Seq<Json>),
    Object(Seq<(Seq<char>, Json)>),
}

impl View for JsonValue {
    type V = Json;

    open spec fn view(&self) -> Json
        decreases self,
    {
        match self {
            JsonValue::Null => Json::Null,
            JsonValue::Bool(b) => Json::Bool(*b),
            JsonValue::Number(n) => Json::Number(*n),
            JsonValue::String(s) => Json::String(s@),
            JsonValue::Array(items) => Json::Array(
                Seq::new(
                    items@.len(),
                    |i: int|
                        if 0 <= i < items@.len() {
                            items@[i].view()
                        } else {
                            Json::Null
                        },
                ),
            ),
            JsonValue::Object(members) => Json::Object(
                Seq::new(
                    members@.len(),
                    |i: int|
                        if 0 <= i < members@.len() {
                            (members@[i].0@, members@[i].1.view())
                        } else {
                            (Seq::empty(), Json::Null)
                        },
                ),
            ),
        }
    }
}

/// The models of the items of an array, in order.
pub open spec fn values_view(items: Seq<JsonValue>) -> Seq<Json> {
    Seq::new(items.len(), |i: int| items[i]@)
}

/// The models of the members of an object, in order.
pub open spec fn members_view(members: Seq<(String, JsonValue)>) -> Seq<(Seq<char>, Json)> {
    Seq::new(members.len(), |i: int| (members[i].0@, members[i].1@))
}

/// The model of an array is the array of its items' models, and the
/// model of an object is the list of its members' keys and models.
pub proof fn lemma_view_of_containers(v: &JsonValue)
    ensures
        v matches JsonValue::Array(items) ==> v@ == Json::Array(values_view(items@)),
        v matches JsonValue::Object(members) ==> v@ == Json::Object(members_view(members@)),
{
    reveal_with_fuel(<JsonValue as View>::view, 2);
    match v {
        JsonValue::Array(items) => {
            assert(v@->Array_0 =~= values_view(items@));
        },
        JsonValue::Object(members) => {
            assert(v@->Object_0 =~= members_view(members@));
        },
        _ => {},
    }
}

impl Json {
    /// The value stored under `key` when `self` is an object: that of
    /// the first member with this key. `None` when there is no such
    /// member or `self` is not an object.
    pub open spec fn get(self, key: Seq<char>) -> Option<Json> {
        match self {
            Json::Object(members) => lookup(members, key),
            _ => None,
        }
    }

    /// The text of a JSON string; `None` for every other kind of value.
    pub open spec fn as_text(self) -> Option<Seq<char>> {
        match self {
            Json::String(s) => Some(s),
            _ => None,
        }
    }
}

/// The value of the first member of `members` whose key is `key`.
pub open spec fn lookup(members: Seq<(Seq<char>, Json)>, key: Seq<char>) -> Option<Json>
    decreases members.len(),
{
    if members.len() == 0 {
        None
    } else if members[0].0 == key {
        Some(members[0].1)
    } else {
        lookup(members.drop_first(), key)
    }
}

/// A lookup finds the member at `i` when its key is `key` and no earlier
/// member has this key.
pub proof fn lemma_lookup_first(members: Seq<(Seq<char>, Json)>, key: Seq<char>, i: int)
    requires
        0 <= i < members.len(),
        members[i].0 == key,
        forall|j: int| 0 <= j < i ==> (#[trigger] members[j]).0 != key,
    ensures
        lookup(members, key) == Some(members[i].1),
    decreases i,
{
    if i > 0 {
        let rest = members.drop_first();
        assert(members[0].0 != key);
        assert forall|j: int| 0 <= j < i - 1 implies (#[trigger] rest[j]).0 != key by {
            assert(rest[j] == members[j + 1]);
        }
        lemma_lookup_first(rest, key, i - 1);
    }
}

/// Whether two strings hold the same text.
pub fn text_eq(a: &str, b: &str) -> (same: bool)
    ensures
        same == (a@ == b@),
{
    let x = a.as_bytes();
    let y = b.as_bytes();
    if x.len() != y.len() {
        return false;
    }
    let mut i: usize = 0;
    while i < x.len()
        invariant
            i <= x@.len(),
            x@.len() == y@.len(),
            x@ == a.spec_bytes(),
            y@ == b.spec_bytes(),
            forall|j: int| 0 <= j < i ==> x@[j] == y@[j],
        decreases x@.len() - i,
    {
        if x[i] != y[i] {
            return false;
        }
        i += 1;
    }
    proof {
        assert(x@ =~= y@);
        encode_utf8_decode_utf8(a@);
        encode_utf8_decode_utf8(b@);
    }
    true
}

impl JsonValue {
    /// A JSON string holding `text`.
    pub fn text(text: &str) -> (value: JsonValue)
        ensures
            value@ == Json::String(text@),
    {
        JsonValue::String(text.to_owned())
    }

    /// A JSON array of `items`.
    pub fn array(items: Vec<JsonValue>) -> (value: JsonValue)
        ensures
            value@ == Json::Array(values_view(items@)),
    {
        let value = JsonValue::Array(items);
        proof {
            lemma_view_of_containers(&value);
        }
        value
    }

    /// A JSON object with `members`, in their order.
    pub fn object(members: Vec<(String, JsonValue)>) -> (value: JsonValue)
        ensures
            value@ == Json::Object(members_view(members@)),
    {
        let value = JsonValue::Object(members);
        proof {
            lemma_view_of_containers(&value);
        }
        value
    }

    /// Looks up a member of an object by key.
    pub fn get(&self, key: &str) -> (found: Option<&JsonValue>)
        ensures
            found matches Some(v) ==> self@.get(key@) == Some(v@),
            found is None ==> self@.get(key@) is None,
    {
        match self {
            JsonValue::Object(members) => {
                let mut i: usize = 0;
                let ghost m = members_view(members@);
                proof {
                    lemma_view_of_containers(self);
                    assert(m.skip(0) =~= m);
                }
                while i < members.len()
                    invariant
                        i <= members@.len(),
                        m == members_view(members@),
                        self@.get(key@) == lookup(m.skip(i as int), key@),
                    decreases members@.len() - i,
                {
                    proof {
                        assert(m.skip(i as int).drop_first() =~= m.skip(i as int + 1));
                    }
                    if text_eq(members[i].0.as_str(), key) {
                        return Some(&members[i].1);
                    }
                    i += 1;
                }
                None
            },
            _ => None,
        }
    }

    /// The text of a JSON string.
    pub fn as_str(&self) -> (text: Option<&str>)
        ensures
            text matches Some(s) ==> self@.as_text() == Some(s@),
            text is None ==> self@.as_text() is None,
    {
        match self {
            JsonValue::String(s) => Some(s.as_str()),
            _ => None,
        }
    }
}

impl Clone for JsonValue {
    /// A deep copy: the copy has the same model.
    fn clone(&self) -> (copy: Self)
        ensures
            copy@ == self@,
        decreases self,
    {
        match self {
            JsonValue::Null => JsonValue::Null,
            JsonValue::Bool(b) => JsonValue::Bool(*b),
            JsonValue::Number(n) => JsonValue::Number(*n),
            JsonValue::String(s) => JsonValue::String(s.clone()),
            JsonValue::Array(items) => {
                let mut out: Vec<JsonValue> = Vec::new();
                let mut i: usize = 0;
                while i < items.len()
                    invariant
                        self matches JsonValue::Array(v) && v == items,
                        i <= items@.len(),
                        out@.len() == i,
                        forall|j: int| 0 <= j < i ==> out@[j]@ == items@[j]@,
                    decreases items@.len() - i,
                {
                    let item = items[i].clone();
                    out.push(item);
                    i += 1;
                }
                let copy = JsonValue::Array(out);
                proof {
                    lemma_view_of_containers(self);
                    lemma_view_of_containers(&copy);
                    assert(values_view(copy->Array_0@) =~= values_view(items@));
                }
                copy
            },
            JsonValue::Object(members) => {
                let mut out: Vec<(String, JsonValue)> = Vec::new();
                let mut i: usize = 0;
                while i < members.len()
                    invariant
                        self matches JsonValue::Object(v) && v == members,
                        i <= members@.len(),
                        out@.len() == i,
                        forall|j: int| 0 <= j < i ==> out@[j].0@ == members@[j].0@ && out@[j].1@ == members@[j].1@,
                    decreases members@.len() - i,
                {
                    let key = members[i].0.clone();
                    let value = members[i].1.clone();
                    out.push((key, value));
                    i += 1;
                }
                let copy = JsonValue::Object(out);
                proof {
                    lemma_view_of_containers(self);
                    lemma_view_of_containers(&copy);
                    assert(members_view(copy->Object_0@) =~= members_view(members@));
                }
                copy
            },
        }
    }
}

/// The model of an optional JSON value.
pub open spec fn optional_view(value: Option<JsonValue>) -> Option<Json> {
    match value {
        Some(v) => Some(v@),
        None => None,
    }
}

/// A deep copy of an optional JSON value.
pub fn clone_optional(value: &Option<JsonValue>) -> (copy: Option<JsonValue>)
    ensures
        optional_view(copy) == optional_view(*value),
{
    match value {
        Some(v) => Some(v.clone()),
        None => None,
    }
}

} // verus!
