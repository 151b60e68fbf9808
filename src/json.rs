//! A JSON tree as the engine reads and writes it.
//!
//! Text is turned into this tree, and back, at the edge of the program; the
//! engine looks up, copies and replaces fields.

use vstd::prelude::*;

verus! {

/// A JSON value. Object fields keep their order; a lookup finds the first
/// field with the key.
#[derive(Debug, PartialEq)]
pub enum JsonValue {
    Null,
    Bool(bool),
    /// A number that fits in an `i64`.
    Int(i64),
    /// Any other number, in its JSON text.
    Number(String),
    Str(String),
    Array(Vec<JsonValue>),
    Object(Vec<(String, JsonValue)>),
}

/// The mathematical model of a [`JsonValue`].
pub enum Json {
    Null,
    Bool(bool),
    Int(i64),
    Number(Seq<char>),
    Str(Seq<char>),
    Array(Seq<Json>),
    Object(Seq<(Seq<char>, Json)>),
}

/// The value of the first field named `key`.
pub open spec fn field_of(fields: Seq<(Seq<char>, Json)>, key: Seq<char>) -> Option<Json>
    decreases fields.len(),
{
    if fields.len() == 0 {
        None
    } else if fields[0].0 == key {
        Some(fields[0].1)
    } else {
        field_of(fields.drop_first(), key)
    }
}

impl Json {
    /// The field `key` of an object; `None` for any other value.
    pub open spec fn get(self, key: Seq<char>) -> Option<Json> {
        match self {
            Json::Object(fields) => field_of(fields, key),
            _ => None,
        }
    }

    /// The field `outer` of an object, then its field `inner`.
    pub open spec fn get2(self, outer: Seq<char>, inner: Seq<char>) -> Option<Json> {
        match self.get(outer) {
            Some(v) => v.get(inner),
            None => None,
        }
    }
}

pub open spec fn json_view(v: JsonValue) -> Json
    decreases v,
{
    match v {
        JsonValue::Null => Json::Null,
        JsonValue::Bool(b) => Json::Bool(b),
        JsonValue::Int(n) => Json::Int(n),
        JsonValue::Number(s) => Json::Number(s@),
        JsonValue::Str(s) => Json::Str(s@),
        JsonValue::Array(items) => {
            proof {
                lemma_items_decrease(v);
            }
            Json::Array(
                Seq::new(
                    items@.len(),
                    |i: int|
                        if 0 <= i < items@.len() {
                            json_view(items@[i])
                        } else {
                            Json::Null
                        },
                ),
            )
        },
        JsonValue::Object(fields) => {
            proof {
                lemma_fields_decrease(v);
            }
            Json::Object(
                Seq::new(
                    fields@.len(),
                    |i: int|
                        if 0 <= i < fields@.len() {
                            (fields@[i].0@, json_view(fields@[i].1))
                        } else {
                            (Seq::empty(), Json::Null)
                        },
                ),
            )
        },
    }
}

pub proof fn lemma_items_decrease(v: JsonValue)
    requires
        v is Array,
    ensures
        forall|i: int|
            0 <= i < v->Array_0@.len() ==> decreases_to!(v => v->Array_0@[i]),
{
    broadcast use vstd::std_specs::vec::axiom_vec_decreases_to_view, vstd::seq::axiom_seq_index_decreases;

    match v {
        JsonValue::Array(items) => {
            assert forall|i: int| 0 <= i < items@.len() implies decreases_to!(v => items@[i]) by {
                assert(decreases_to!(items => items@));
                assert(decreases_to!(items@ => items@[i]));
            }
        },
        _ => {},
    }
}

pub proof fn lemma_fields_decrease(v: JsonValue)
    requires
        v is Object,
    ensures
        forall|i: int|
            0 <= i < v->Object_0@.len() ==> decreases_to!(v => v->Object_0@[i].1),
{
    broadcast use vstd::std_specs::vec::axiom_vec_decreases_to_view, vstd::seq::axiom_seq_index_decreases;

    match v {
        JsonValue::Object(fields) => {
            assert forall|i: int| 0 <= i < fields@.len() implies decreases_to!(v => fields@[i].1) by {
                assert(decreases_to!(fields => fields@));
                assert(decreases_to!(fields@ => fields@[i]));
                assert(decreases_to!(fields@[i] => fields@[i].1));
            }
        },
        _ => {},
    }
}

impl View for JsonValue {
    type V = Json;

    open spec fn view(&self) -> Json {
        json_view(*self)
    }
}

/// The model of an object's fields.
pub open spec fn fields_view(fields: Seq<(String, JsonValue)>) -> Seq<(Seq<char>, Json)> {
    Seq::new(fields.len(), |i: int| (fields[i].0@, fields[i].1@))
}

pub proof fn lemma_object_view(fields: Vec<(String, JsonValue)>)
    ensures
        JsonValue::Object(fields)@ == Json::Object(fields_view(fields@)),
{
    assert(JsonValue::Object(fields)@->Object_0 =~= fields_view(fields@));
}

pub proof fn lemma_array_view(items: Vec<JsonValue>)
    ensures
        JsonValue::Array(items)@ == Json::Array(items@.map_values(|v: JsonValue| v@)),
{
    assert(JsonValue::Array(items)@->Array_0 =~= items@.map_values(|v: JsonValue| v@));
}

/// The first field named `key` is at `i`.
pub open spec fn first_field_at(fields: Seq<(Seq<char>, Json)>, key: Seq<char>, i: int) -> bool {
    &&& 0 <= i < fields.len()
    &&& fields[i].0 == key
    &&& forall|j: int| 0 <= j < i ==> fields[j].0 != key
}

pub proof fn lemma_field_of_first(fields: Seq<(Seq<char>, Json)>, key: Seq<char>, i: int)
    requires
        first_field_at(fields, key, i),
    ensures
        field_of(fields, key) == Some(fields[i].1),
    decreases i,
{
    if i > 0 {
        assert(fields[0].0 != key);
        lemma_field_of_first(fields.drop_first(), key, i - 1);
    }
}

pub proof fn lemma_field_of_absent(fields: Seq<(Seq<char>, Json)>, key: Seq<char>)
    requires
        forall|j: int| 0 <= j < fields.len() ==> fields[j].0 != key,
    ensures
        field_of(fields, key) is None,
    decreases fields.len(),
{
    if fields.len() > 0 {
        assert(fields[0].0 != key);
        lemma_field_of_absent(fields.drop_first(), key);
    }
}

/// Replacing the pair at `i` by one with the same key leaves the other keys' values.
pub proof fn lemma_field_of_update(
    fields: Seq<(Seq<char>, Json)>,
    i: int,
    p: (Seq<char>, Json),
    key: Seq<char>,
)
    requires
        0 <= i < fields.len(),
        fields[i].0 == p.0,
        key != p.0,
    ensures
        field_of(fields.update(i, p), key) == field_of(fields, key),
    decreases i,
{
    let u = fields.update(i, p);
    if i == 0 {
        assert(u.drop_first() =~= fields.drop_first());
    } else {
        assert(u.drop_first() =~= fields.drop_first().update(i - 1, p));
        lemma_field_of_update(fields.drop_first(), i - 1, p, key);
    }
}

/// Appending a pair finds it only where no earlier field has its key.
pub proof fn lemma_field_of_push(fields: Seq<(Seq<char>, Json)>, p: (Seq<char>, Json), key: Seq<char>)
    ensures
        field_of(fields.push(p), key) == (if field_of(fields, key) is Some {
            field_of(fields, key)
        } else if p.0 == key {
            Some(p.1)
        } else {
            None
        }),
    decreases fields.len(),
{
    if fields.len() == 0 {
        assert(fields.push(p)[0] == p);
        assert(fields.push(p).drop_first() =~= Seq::<(Seq<char>, Json)>::empty());
        assert(field_of(Seq::<(Seq<char>, Json)>::empty(), key) is None);
    } else {
        assert(fields.push(p)[0] == fields[0]);
        assert(fields.push(p).drop_first() =~= fields.drop_first().push(p));
        lemma_field_of_push(fields.drop_first(), p, key);
    }
}

/// Whether two strings hold the same characters.
pub fn str_eq(a: &str, b: &str) -> (r: bool)
    ensures
        r == (a@ == b@),
{
    let n = a.unicode_len();
    if n != b.unicode_len() {
        return false;
    }
    let mut i: usize = 0;
    while i < n
        invariant
            n == a@.len(),
            n == b@.len(),
            i <= n,
            forall|j: int| 0 <= j < i ==> a@[j] == b@[j],
        decreases n - i,
    {
        if a.get_char(i) != b.get_char(i) {
            return false;
        }
        i = i + 1;
    }
    assert(a@ =~= b@);
    true
}

/// Where the first field named `key` stands, if any.
pub fn find_field(fields: &Vec<(String, JsonValue)>, key: &str) -> (r: Option<usize>)
    ensures
        match r {
            Some(i) => first_field_at(fields_view(fields@), key@, i as int),
            None => field_of(fields_view(fields@), key@) is None,
        },
        r matches Some(i) ==> field_of(fields_view(fields@), key@) == Some(fields@[i as int].1@),
{
    let ghost fv = fields_view(fields@);
    let n = fields.len();
    let mut i: usize = 0;
    while i < n
        invariant
            n == fields@.len(),
            fv == fields_view(fields@),
            i <= n,
            forall|j: int| 0 <= j < i ==> fv[j].0 != key@,
        decreases n - i,
    {
        if str_eq(fields[i].0.as_str(), key) {
            proof {
                lemma_field_of_first(fv, key@, i as int);
            }
            return Some(i);
        }
        i = i + 1;
    }
    proof {
        lemma_field_of_absent(fv, key@);
    }
    None
}

/// Sets the field `key` to `value`: the first field of that name is replaced
/// in place, or a new field is appended.
pub fn set_field(fields: &mut Vec<(String, JsonValue)>, key: String, value: JsonValue)
    ensures
        field_of(fields_view(final(fields)@), key@) == Some(value@),
        forall|k: Seq<char>|
            k != key@ ==> field_of(fields_view(final(fields)@), k) == field_of(
                fields_view(old(fields)@),
                k,
            ),
        field_of(fields_view(old(fields)@), key@) == Some(value@) ==> fields_view(final(fields)@)
            == fields_view(old(fields)@),
{
    let ghost k0 = key@;
    let ghost v0 = value@;
    let ghost before = fields_view(fields@);
    match find_field(fields, key.as_str()) {
        Some(i) => {
            let _ = fields.remove(i);
            fields.insert(i, (key, value));
            proof {
                let p = (k0, v0);
                assert(fields_view(fields@) =~= before.update(i as int, p));
                if field_of(before, k0) == Some(v0) {
                    assert(before[i as int] == p);
                    assert(before.update(i as int, p) =~= before);
                }
                lemma_field_of_first(fields_view(fields@), k0, i as int);
                assert forall|k: Seq<char>| k != k0 implies field_of(fields_view(fields@), k)
                    == field_of(before, k) by {
                    lemma_field_of_update(before, i as int, p, k);
                }
            }
        },
        None => {
            fields.push((key, value));
            proof {
                let p = (k0, v0);
                assert(fields_view(fields@) =~= before.push(p));
                assert forall|k: Seq<char>| k != k0 implies field_of(fields_view(fields@), k)
                    == field_of(before, k) by {
                    lemma_field_of_push(before, p, k);
                }
                lemma_field_of_push(before, p, k0);
            }
        },
    }
}

impl JsonValue {
    /// The field `key` of an object.
    pub fn get(&self, key: &str) -> (r: Option<&JsonValue>)
        ensures
            match r {
                Some(v) => self@.get(key@) == Some(v@),
                None => self@.get(key@) is None,
            },
    {
        match self {
            JsonValue::Object(fields) => {
                proof {
                    lemma_object_view(*fields);
                }
                match find_field(fields, key) {
                    Some(i) => Some(&fields[i].1),
                    None => None,
                }
            },
            _ => None,
        }
    }

    pub fn as_i64(&self) -> (r: Option<i64>)
        ensures
            r == (match self@ {
                Json::Int(n) => Some(n),
                _ => None,
            }),
    {
        match self {
            JsonValue::Int(n) => Some(*n),
            _ => None,
        }
    }

    pub fn as_str(&self) -> (r: Option<&str>)
        ensures
            match r {
                Some(s) => self@ == Json::Str(s@),
                None => !(self@ is Str),
            },
    {
        match self {
            JsonValue::Str(s) => Some(s.as_str()),
            _ => None,
        }
    }

    /// A copy of the whole tree.
    pub fn deep_copy(&self) -> (r: JsonValue)
        ensures
            r@ == self@,
        decreases self,
    {
        match self {
            JsonValue::Null => JsonValue::Null,
            JsonValue::Bool(b) => JsonValue::Bool(*b),
            JsonValue::Int(n) => JsonValue::Int(*n),
            JsonValue::Number(s) => JsonValue::Number(s.clone()),
            JsonValue::Str(s) => JsonValue::Str(s.clone()),
            JsonValue::Array(items) => {
                proof {
                    lemma_items_decrease(*self);
                    lemma_array_view(*items);
                }
                let mut out: Vec<JsonValue> = Vec::new();
                let n = items.len();
                let mut i: usize = 0;
                while i < n
                    invariant
                        n == items@.len(),
                        i <= n,
                        out@.len() == i,
                        forall|j: int| 0 <= j < i ==> out@[j]@ == items@[j]@,
                        forall|j: int| 0 <= j < n ==> decreases_to!(*self => items@[j]),
                    decreases n - i,
                {
                    out.push(items[i].deep_copy());
                    i = i + 1;
                }
                proof {
                    lemma_array_view(out);
                    assert(out@.map_values(|v: JsonValue| v@) =~= items@.map_values(
                        |v: JsonValue| v@,
                    ));
                }
                JsonValue::Array(out)
            },
            JsonValue::Object(fields) => {
                proof {
                    lemma_fields_decrease(*self);
                    lemma_object_view(*fields);
                }
                let mut out: Vec<(String, JsonValue)> = Vec::new();
                let n = fields.len();
                let mut i: usize = 0;
                while i < n
                    invariant
                        n == fields@.len(),
                        i <= n,
                        out@.len() == i,
                        forall|j: int|
                            0 <= j < i ==> out@[j].0@ == fields@[j].0@ && out@[j].1@
                                == fields@[j].1@,
                        forall|j: int| 0 <= j < n ==> decreases_to!(*self => fields@[j].1),
                    decreases n - i,
                {
                    let k = fields[i].0.clone();
                    let v = fields[i].1.deep_copy();
                    out.push((k, v));
                    i = i + 1;
                }
                proof {
                    lemma_object_view(out);
                    assert(fields_view(out@) =~= fields_view(fields@));
                }
                JsonValue::Object(out)
            },
        }
    }
}

} // verus!
