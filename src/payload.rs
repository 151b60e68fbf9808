//! The typed overlay on a list's payload: the engine keeps a few `__Value`
//! sub-fields of the payload in step with the list's own fields.

use vstd::prelude::*;
use vstd::string::StringExecFns;
use crate::json::{
    field_of, fields_view, find_field, lemma_object_view, set_field, Json, JsonValue,
};

verus! {

/// `new_prop` is `old_prop` with its `__Value` field set to `value`.
pub open spec fn value_replaced(old_prop: Json, new_prop: Json, value: Json) -> bool {
    &&& new_prop is Object
    &&& new_prop.get("__Value"@) == Some(value)
    &&& forall|k: Seq<char>| k != "__Value"@ ==> new_prop.get(k) == old_prop.get(k)
}

/// A fresh property object: `{"__Type": ty, "__Value": value}`.
pub open spec fn fresh_prop(ty: Seq<char>, value: Json) -> Json {
    Json::Object(seq![("__Type"@, Json::Str(ty)), ("__Value"@, value)])
}

/// Builds `{"__Type": ty, "__Value": value}`.
pub fn make_prop(ty: &str, value: JsonValue) -> (r: JsonValue)
    ensures
        r@ == fresh_prop(ty@, value@),
{
    let ghost v0 = value@;
    let mut fields: Vec<(String, JsonValue)> = Vec::new();
    fields.push((String::from_str("__Type"), JsonValue::Str(String::from_str(ty))));
    fields.push((String::from_str("__Value"), value));
    proof {
        lemma_object_view(fields);
        assert(fields_view(fields@) =~= seq![("__Type"@, Json::Str(ty@)), ("__Value"@, v0)]);
    }
    JsonValue::Object(fields)
}

/// Sets `__Value` inside the object-valued field `name`. Fails, changing
/// nothing, where `name` is missing or is not an object.
pub fn set_prop_value(fields: &mut Vec<(String, JsonValue)>, name: &str, value: JsonValue) -> (ok:
    bool)
    ensures
        ok == (field_of(fields_view(old(fields)@), name@) matches Some(p) && p is Object),
        ok ==> value_replaced(
            field_of(fields_view(old(fields)@), name@).unwrap(),
            field_of(fields_view(final(fields)@), name@).unwrap(),
            value@,
        ),
        ok ==> field_of(fields_view(final(fields)@), name@) is Some,
        !ok ==> fields_view(final(fields)@) == fields_view(old(fields)@),
        forall|k: Seq<char>|
            k != name@ ==> field_of(fields_view(final(fields)@), k) == field_of(
                fields_view(old(fields)@),
                k,
            ),
        value_in_place(field_of(fields_view(old(fields)@), name@), value@) ==> fields_view(
            final(fields)@,
        ) == fields_view(old(fields)@),
{
    let ghost before = fields_view(fields@);
    let ghost v0 = value@;
    match find_field(fields, name) {
        Some(i) => {
            let (key, prop) = fields.remove(i);
            match prop {
                JsonValue::Object(mut inner) => {
                    proof {
                        lemma_object_view(inner);
                    }
                    set_field(&mut inner, String::from_str("__Value"), value);
                    let new_prop = JsonValue::Object(inner);
                    proof {
                        lemma_object_view(inner);
                    }
                    fields.insert(i, (key, new_prop));
                    proof {
                        let p = (name@, new_prop@);
                        assert(fields_view(fields@) =~= before.update(i as int, p));
                        if value_in_place(field_of(before, name@), v0) {
                            assert(before[i as int] == p);
                            assert(before.update(i as int, p) =~= before);
                        }
                        crate::json::lemma_field_of_first(fields_view(fields@), name@, i as int);
                        assert forall|k: Seq<char>| k != name@ implies field_of(
                            fields_view(fields@),
                            k,
                        ) == field_of(before, k) by {
                            crate::json::lemma_field_of_update(before, i as int, p, k);
                        }
                    }
                    true
                },
                other => {
                    fields.insert(i, (key, other));
                    proof {
                        assert(fields_view(fields@) =~= before);
                    }
                    false
                },
            }
        },
        None => false,
    }
}

/// The property already holds `value`: it is an object whose `__Value` is
/// `value`.
pub open spec fn value_in_place(prop: Option<Json>, value: Json) -> bool {
    prop matches Some(p) && p is Object && p.get("__Value"@) == Some(value)
}

/// Sets `__Value` of the object-valued field `name`; where `name` is missing
/// or holds something other than an object, it becomes a fresh property of
/// type `ty`. Nothing changes where the value is in place already.
pub fn set_or_insert_prop(
    fields: &mut Vec<(String, JsonValue)>,
    name: &str,
    ty: &str,
    value: JsonValue,
)
    ensures
        prop_normalized(
            field_of(fields_view(old(fields)@), name@),
            field_of(fields_view(final(fields)@), name@),
            ty@,
            value@,
        ),
        forall|k: Seq<char>|
            k != name@ ==> field_of(fields_view(final(fields)@), k) == field_of(
                fields_view(old(fields)@),
                k,
            ),
        value_in_place(field_of(fields_view(old(fields)@), name@), value@) ==> fields_view(
            final(fields)@,
        ) == fields_view(old(fields)@),
{
    let is_object = match find_field(fields, name) {
        Some(i) => match &fields[i].1 {
            JsonValue::Object(_) => true,
            _ => false,
        },
        None => false,
    };
    if is_object {
        let _ = set_prop_value(fields, name, value);
    } else {
        let prop = make_prop(ty, value);
        set_field(fields, String::from_str(name), prop);
    }
}

/// The property `new` is what normalising the property `old` to `value`
/// gives: the old one with its `__Value` replaced where it was an object,
/// else a fresh property of type `ty`.
pub open spec fn prop_normalized(old: Option<Json>, new: Option<Json>, ty: Seq<char>, value: Json) -> bool {
    match old {
        Some(p) if p is Object => new matches Some(q) && value_replaced(p, q, value),
        _ => new == Some(fresh_prop(ty, value)),
    }
}

/// After normalisation the property holds its value.
pub proof fn lemma_normalized_in_place(old: Option<Json>, new: Option<Json>, ty: Seq<char>, value: Json)
    requires
        prop_normalized(old, new, ty, value),
    ensures
        value_in_place(new, value),
{
    reveal_strlit("__Type");
    reveal_strlit("__Value");
    if !(old matches Some(p) && p is Object) {
        let f = seq![("__Type"@, Json::Str(ty)), ("__Value"@, value)];
        assert("__Type"@.len() == 6 && "__Value"@.len() == 7);
        assert(f[0].0 != "__Value"@);
        assert(f.drop_first()[0] == ("__Value"@, value));
        reveal_with_fuel(field_of, 2);
    }
}

} // verus!
