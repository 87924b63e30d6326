//! JSON documents as plain values.
//!
//! Reading and writing JSON text is left to `serde_json`; what the library
//! decides from a document it decides on [`Json`], whose mathematical model is
//! [`JsonValue`].

use vstd::prelude::*;

use crate::text::str_eq;

verus! {

/// A JSON document held by the program.
#[derive(Debug, PartialEq, Eq)]
pub enum Json {
    Null,
    Bool(bool),
    /// An integer between zero and `u64::MAX`.
    Uint(u64),
    /// Any other number, as the decimal text that stands for it.
    Number(String),
    String(String),
    Array(Vec<Json>),
    /// The members of an object, in the order of the document.
    Object(Vec<(String, Json)>),
}

/// The mathematical model of a JSON document.
pub enum JsonValue {
    Null,
    Bool(bool),
    Uint(u64),
    Number(Seq<char>),
    String(Seq<char>),
    Array(Seq<JsonValue>),
    Object(Seq<(Seq<char>, JsonValue)>),
}

/// The model of the `i`-th member of an object.
pub open spec fn member_model(members: Seq<(String, Json)>, i: int) -> (Seq<char>, JsonValue)
    decreases members, 0int,
{
    if 0 <= i < members.len() {
        (members[i].0@, model_of(members[i].1))
    } else {
        (Seq::empty(), JsonValue::Null)
    }
}

/// The model of the `i`-th item of an array.
pub open spec fn item_model(items: Seq<Json>, i: int) -> JsonValue
    decreases items, 0int,
{
    if 0 <= i < items.len() {
        model_of(items[i])
    } else {
        JsonValue::Null
    }
}

/// The model of a document.
pub open spec fn model_of(j: Json) -> JsonValue
    decreases j, 1int,
{
    match j {
        Json::Null => JsonValue::Null,
        Json::Bool(b) => JsonValue::Bool(b),
        Json::Uint(n) => JsonValue::Uint(n),
        Json::Number(text) => JsonValue::Number(text@),
        Json::String(text) => JsonValue::String(text@),
        Json::Array(items) => JsonValue::Array(
            Seq::new(items@.len(), |i: int| item_model(items@, i)),
        ),
        Json::Object(members) => JsonValue::Object(
            Seq::new(members@.len(), |i: int| member_model(members@, i)),
        ),
    }
}

impl View for Json {
    type V = JsonValue;

    open spec fn view(&self) -> JsonValue {
        model_of(*self)
    }
}

impl DeepView for Json {
    type V = JsonValue;

    open spec fn deep_view(&self) -> JsonValue {
        self@
    }
}

/// What `serde_json` reads from a JSON text: the document, or `None` where the
/// text is not one JSON document.
pub uninterp spec fn parsed(text: Seq<u8>) -> Option<JsonValue>;

/// The JSON text that `serde_json` writes for a document.
pub uninterp spec fn printed(doc: JsonValue) -> Seq<u8>;

/// `serde_json::Value`, opaque here: it only passes between the functions
/// below.
#[verifier::external_type_specification]
#[verifier::external_body]
pub struct ExValue(serde_json::Value);

/// Copies a `serde_json::Value` into a [`Json`], variant by variant: object
/// members in the order in which its map hands them out, a number that
/// `Number::as_u64` accepts as `Uint`, any other number as its decimal text.
/// Trusted; nothing is stated of the result.
#[verifier::external_body]
fn from_value(v: &serde_json::Value) -> Json {
    match v {
        serde_json::Value::Null => Json::Null,
        serde_json::Value::Bool(b) => Json::Bool(*b),
        serde_json::Value::Number(n) => match n.as_u64() {
            Some(u) => Json::Uint(u),
            None => Json::Number(n.to_string()),
        },
        serde_json::Value::String(s) => Json::String(s.clone()),
        serde_json::Value::Array(a) => Json::Array(a.iter().map(from_value).collect()),
        serde_json::Value::Object(m) => Json::Object(
            m.iter().map(|(k, v)| (k.clone(), from_value(v))).collect(),
        ),
    }
}

/// Copies a [`Json`] into a `serde_json::Value`, variant by variant: members
/// are inserted into the map in order, and a `Number` whose text `serde_json`
/// does not read as a number becomes `null`. Trusted; nothing is stated of
/// the result.
#[verifier::external_body]
fn to_value(j: &Json) -> serde_json::Value {
    match j {
        Json::Null => serde_json::Value::Null,
        Json::Bool(b) => serde_json::Value::Bool(*b),
        Json::Uint(u) => serde_json::Value::Number(serde_json::Number::from(*u)),
        Json::Number(s) => serde_json::from_str::<serde_json::Number>(s).map_or(
            serde_json::Value::Null,
            serde_json::Value::Number,
        ),
        Json::String(s) => serde_json::Value::String(s.clone()),
        Json::Array(a) => serde_json::Value::Array(a.iter().map(to_value).collect()),
        Json::Object(m) => serde_json::Value::Object(
            m.iter().map(|(k, v)| (k.clone(), to_value(v))).collect(),
        ),
    }
}

/// Calls `serde_json::from_slice` for a `serde_json::Value`. Trusted: whether
/// the text is accepted, and the document read from it, depend on the bytes
/// alone.
#[verifier::external_body]
pub(crate) fn parse(text: &[u8]) -> (doc: Option<Json>)
    ensures
        doc.deep_view() == parsed(text@),
{
    match serde_json::from_slice::<serde_json::Value>(text) {
        Ok(v) => Some(from_value(&v)),
        Err(_) => None,
    }
}

/// Calls `serde_json::to_vec`. Trusted: the text written depends on the
/// document alone.
#[verifier::external_body]
pub(crate) fn print(doc: &Json) -> (text: Vec<u8>)
    ensures
        text@ == printed(doc@),
{
    serde_json::to_vec(&to_value(doc)).unwrap_or_default()
}

/// The value of the last member named `key`, if there is one. A later member
/// overrides an earlier one of the same name.
pub open spec fn member(members: Seq<(Seq<char>, JsonValue)>, key: Seq<char>) -> Option<JsonValue>
    decreases members.len(),
{
    if members.len() == 0 {
        None
    } else if members.last().0 == key {
        Some(members.last().1)
    } else {
        member(members.drop_last(), key)
    }
}

/// Reads a member that must be there: `None` when it is missing or `read`
/// does not accept it.
pub open spec fn required<T>(
    field: Option<JsonValue>,
    read: spec_fn(JsonValue) -> Option<T>,
) -> Option<T> {
    match field {
        Some(v) => read(v),
        None => None,
    }
}

/// Reads a member that may be left out: a missing member and `null` both give
/// `Some(None)`; `None` when a value is there and `read` does not accept it.
pub open spec fn optional<T>(
    field: Option<JsonValue>,
    read: spec_fn(JsonValue) -> Option<T>,
) -> Option<Option<T>> {
    match field {
        None => Some(None),
        Some(JsonValue::Null) => Some(None),
        Some(v) => match read(v) {
            Some(t) => Some(Some(t)),
            None => None,
        },
    }
}

/// Reads a member whose absence stands for `default`; `None` when a value is
/// there and `read` does not accept it (`null` is such a value unless `read`
/// takes it).
pub open spec fn or_default<T>(
    field: Option<JsonValue>,
    read: spec_fn(JsonValue) -> Option<T>,
    default: T,
) -> Option<T> {
    match field {
        None => Some(default),
        Some(v) => read(v),
    }
}

/// Reads every item with `read`; `None` as soon as one item is not accepted.
pub open spec fn all_of<T>(
    items: Seq<JsonValue>,
    read: spec_fn(JsonValue) -> Option<T>,
) -> Option<Seq<T>> {
    if forall|i: int| 0 <= i < items.len() ==> read(#[trigger] items[i]) is Some {
        Some(Seq::new(items.len(), |i: int| read(items[i])->0))
    } else {
        None
    }
}

impl JsonValue {
    /// The items of an array.
    pub open spec fn as_items(self) -> Option<Seq<JsonValue>> {
        match self {
            JsonValue::Array(items) => Some(items),
            _ => None,
        }
    }

    /// The member `key` of an object; `None` for a missing member and for
    /// anything that is not an object.
    pub open spec fn get(self, key: Seq<char>) -> Option<JsonValue> {
        match self {
            JsonValue::Object(members) => member(members, key),
            _ => None,
        }
    }

    /// The characters of a string.
    pub open spec fn as_text(self) -> Option<Seq<char>> {
        match self {
            JsonValue::String(text) => Some(text),
            _ => None,
        }
    }

    /// The value of an integer between zero and `u64::MAX`.
    pub open spec fn as_uint(self) -> Option<u64> {
        match self {
            JsonValue::Uint(n) => Some(n),
            _ => None,
        }
    }

    /// The value of `true` or `false`.
    pub open spec fn as_flag(self) -> Option<bool> {
        match self {
            JsonValue::Bool(b) => Some(b),
            _ => None,
        }
    }

    /// The strings of an array that holds nothing but strings.
    pub open spec fn as_texts(self) -> Option<Seq<Seq<char>>> {
        match self {
            JsonValue::Array(items) => if forall|i: int|
                0 <= i < items.len() ==> (#[trigger] items[i]) is String {
                Some(Seq::new(items.len(), |i: int| items[i]->String_0))
            } else {
                None
            },
            _ => None,
        }
    }

    /// The members of an object.
    pub open spec fn as_members(self) -> Option<Seq<(Seq<char>, JsonValue)>> {
        match self {
            JsonValue::Object(members) => Some(members),
            _ => None,
        }
    }

    /// The members of an object whose values are all strings.
    pub open spec fn as_text_members(self) -> Option<Seq<(Seq<char>, Seq<char>)>> {
        match self {
            JsonValue::Object(members) => if forall|i: int|
                0 <= i < members.len() ==> (#[trigger] members[i]).1 is String {
                Some(Seq::new(members.len(), |i: int| (members[i].0, members[i].1->String_0)))
            } else {
                None
            },
            _ => None,
        }
    }
}

impl Json {
    /// The member `key` of an object; `None` for a missing member and for
    /// anything that is not an object.
    pub fn get(&self, key: &str) -> (found: Option<&Json>)
        ensures
            found.deep_view() == self@.get(key@),
    {
        match self {
            Json::Object(members) => {
                let ghost all = self@->Object_0;
                let mut i: usize = members.len();
                proof {
                    assert(all.take(all.len() as int) =~= all);
                }
                while i > 0
                    invariant
                        i <= members@.len(),
                        self@ == JsonValue::Object(all),
                        all.len() == members@.len(),
                        forall|k: int|
                            0 <= k < all.len() ==> all[k] == (members@[k].0@, members@[k].1@),
                        member(all, key@) == member(all.take(i as int), key@),
                    decreases i,
                {
                    i = i - 1;
                    let entry = &members[i];
                    proof {
                        let upto = all.take(i + 1);
                        assert(upto.last() == all[i as int]);
                        assert(upto.drop_last() =~= all.take(i as int));
                        assert(all[i as int] == (entry.0@, entry.1@));
                    }
                    if str_eq(entry.0.as_str(), key) {
                        return Some(&entry.1);
                    }
                }
                proof {
                    assert(all.take(0).len() == 0);
                }
                None
            },
            _ => None,
        }
    }

    /// The characters of a string; `None` for anything else.
    pub fn to_text(&self) -> (text: Option<String>)
        ensures
            text.deep_view() == self@.as_text(),
    {
        match self {
            Json::String(s) => Some(s.clone()),
            _ => None,
        }
    }

    /// The value of an integer between zero and `u64::MAX`; `None` for
    /// anything else.
    pub fn to_uint(&self) -> (n: Option<u64>)
        ensures
            n == self@.as_uint(),
    {
        match self {
            Json::Uint(n) => Some(*n),
            _ => None,
        }
    }

    /// The value of `true` or `false`; `None` for anything else.
    pub fn to_flag(&self) -> (b: Option<bool>)
        ensures
            b == self@.as_flag(),
    {
        match self {
            Json::Bool(b) => Some(*b),
            _ => None,
        }
    }

    /// The strings of an array that holds nothing but strings; `None` for
    /// anything else.
    pub fn to_texts(&self) -> (texts: Option<Vec<String>>)
        ensures
            texts.deep_view() == self@.as_texts(),
    {
        match self {
            Json::Array(items) => {
                let ghost all = self@->Array_0;
                let mut out: Vec<String> = Vec::new();
                let mut i: usize = 0;
                while i < items.len()
                    invariant
                        i <= items@.len(),
                        self@ == JsonValue::Array(all),
                        all.len() == items@.len(),
                        forall|k: int| 0 <= k < all.len() ==> all[k] == items@[k]@,
                        forall|k: int| 0 <= k < i ==> (#[trigger] all[k]) is String,
                        out@.len() == i,
                        forall|k: int| 0 <= k < i ==> (#[trigger] out@[k])@ == all[k]->String_0,
                    decreases items@.len() - i,
                {
                    assert(all[i as int] == items@[i as int]@);
                    match &items[i] {
                        Json::String(s) => {
                            out.push(s.clone());
                        },
                        _ => {
                            assert(!(all[i as int] is String));
                            return None;
                        },
                    }
                    i = i + 1;
                }
                assert(out.deep_view() =~= Seq::new(all.len(), |k: int| all[k]->String_0));
                Some(out)
            },
            _ => None,
        }
    }

    /// The members of an object whose values are all strings; `None` for
    /// anything else.
    pub fn to_text_members(&self) -> (pairs: Option<Vec<(String, String)>>)
        ensures
            pairs.deep_view() == self@.as_text_members(),
    {
        match self {
            Json::Object(members) => {
                let ghost all = self@->Object_0;
                let mut out: Vec<(String, String)> = Vec::new();
                let mut i: usize = 0;
                while i < members.len()
                    invariant
                        i <= members@.len(),
                        self@ == JsonValue::Object(all),
                        all.len() == members@.len(),
                        forall|k: int|
                            0 <= k < all.len() ==> all[k] == (members@[k].0@, members@[k].1@),
                        forall|k: int| 0 <= k < i ==> (#[trigger] all[k]).1 is String,
                        out@.len() == i,
                        forall|k: int|
                            0 <= k < i ==> (#[trigger] out@[k]).0@ == all[k].0 && out@[k].1@
                                == all[k].1->String_0,
                    decreases members@.len() - i,
                {
                    let entry = &members[i];
                    assert(all[i as int] == (entry.0@, entry.1@));
                    match &entry.1 {
                        Json::String(s) => {
                            out.push((entry.0.clone(), s.clone()));
                        },
                        _ => {
                            assert(!(all[i as int].1 is String));
                            return None;
                        },
                    }
                    i = i + 1;
                }
                assert(out.deep_view() =~= Seq::new(
                    all.len(),
                    |k: int| (all[k].0, all[k].1->String_0),
                ));
                Some(out)
            },
            _ => None,
        }
    }

    /// A copy of the document.
    pub fn duplicate(&self) -> (copy: Json)
        ensures
            copy@ == self@,
        decreases self,
    {
        match self {
            Json::Null => Json::Null,
            Json::Bool(b) => Json::Bool(*b),
            Json::Uint(n) => Json::Uint(*n),
            Json::Number(text) => Json::Number(text.clone()),
            Json::String(text) => Json::String(text.clone()),
            Json::Array(items) => {
                let mut out: Vec<Json> = Vec::new();
                let mut i: usize = 0;
                while i < items.len()
                    invariant
                        i <= items@.len(),
                        *self == Json::Array(*items),
                        out@.len() == i,
                        forall|k: int| 0 <= k < i ==> out@[k]@ == items@[k]@,
                    decreases items@.len() - i,
                {
                    assert(decreases_to!(*self => self->Array_0));
                    out.push(items[i].duplicate());
                    i = i + 1;
                }
                let copy = Json::Array(out);
                assert(copy@->Array_0 =~= self@->Array_0);
                copy
            },
            Json::Object(members) => {
                let mut out: Vec<(String, Json)> = Vec::new();
                let mut i: usize = 0;
                while i < members.len()
                    invariant
                        i <= members@.len(),
                        *self == Json::Object(*members),
                        out@.len() == i,
                        forall|k: int|
                            0 <= k < i ==> out@[k].0@ == members@[k].0@ && out@[k].1@
                                == members@[k].1@,
                    decreases members@.len() - i,
                {
                    let entry = &members[i];
                    assert(decreases_to!(*self => self->Object_0));
                    out.push((entry.0.clone(), entry.1.duplicate()));
                    i = i + 1;
                }
                let copy = Json::Object(out);
                assert(copy@->Object_0 =~= self@->Object_0);
                copy
            },
        }
    }

    /// The members of an object; `None` for anything else.
    pub fn to_members(&self) -> (pairs: Option<Vec<(String, Json)>>)
        ensures
            pairs.deep_view() == self@.as_members(),
    {
        match self {
            Json::Object(_) => {
                match self.duplicate() {
                    Json::Object(members) => {
                        assert(members.deep_view() =~= self@->Object_0);
                        Some(members)
                    },
                    _ => None,
                }
            },
            _ => None,
        }
    }
}

} // verus!
