//! Todo lists and the events that carry them.

use vstd::prelude::*;
use vstd::string::StringExecFns;
use crate::json::{fields_view, field_of, lemma_object_view, Json, JsonValue};
use crate::payload::{
    lemma_normalized_in_place, prop_normalized, set_or_insert_prop, set_prop_value, value_in_place,
    value_replaced,
};

verus! {

/// The external issue id of a list that has no issue yet.
pub const NO_ISSUE: i64 = -1;

/// The unit of synchronisation.
#[derive(Debug, PartialEq)]
pub struct TodoList {
    pub list_id: i64,
    pub list_name: String,
    /// The external tracker's issue number, or [`NO_ISSUE`].
    pub github_issue_id: i64,
    /// The list's contents, which the engine does not interpret but for a
    /// few normalised sub-fields.
    pub list: JsonValue,
    pub deleted: bool,
}

/// The model of a [`TodoList`].
pub struct ListModel {
    pub list_id: i64,
    pub list_name: Seq<char>,
    pub github_issue_id: i64,
    pub payload: Json,
    pub deleted: bool,
}

impl View for TodoList {
    type V = ListModel;

    open spec fn view(&self) -> ListModel {
        ListModel {
            list_id: self.list_id,
            list_name: self.list_name@,
            github_issue_id: self.github_issue_id,
            payload: self.list@,
            deleted: self.deleted,
        }
    }
}

impl Default for TodoList {
    fn default() -> (r: TodoList)
        ensures
            r.list_id == -1,
            r.list_name@ == "Todo List"@,
            r.github_issue_id == NO_ISSUE,
            r.list@ == Json::Null,
            !r.deleted,
    {
        TodoList {
            list_id: -1,
            list_name: String::from_str("Todo List"),
            github_issue_id: NO_ISSUE,
            list: JsonValue::Null,
            deleted: false,
        }
    }
}

/// A list's payload after normalisation: `bIsNetworkedTodoList` is 1,
/// `NetworkedTodoListID` and `GithubIssueID` mirror the list's own fields,
/// each created as a fresh property where it was missing or not an object;
/// nothing else moves.
pub open spec fn payload_normalized(old: Json, new: Json, list_id: i64, issue_id: i64) -> bool {
    &&& new is Object
    &&& prop_normalized(old.get("bIsNetworkedTodoList"@), new.get("bIsNetworkedTodoList"@), "BoolProperty"@, Json::Int(1))
    &&& prop_normalized(old.get("NetworkedTodoListID"@), new.get("NetworkedTodoListID"@), "IntProperty"@, Json::Int(list_id))
    &&& prop_normalized(old.get("GithubIssueID"@), new.get("GithubIssueID"@), "IntProperty"@, Json::Int(issue_id))
    &&& forall|k: Seq<char>|
        k != "bIsNetworkedTodoList"@ && k != "NetworkedTodoListID"@ && k != "GithubIssueID"@
            ==> new.get(k) == old.get(k)
}

/// The payload after its `GithubIssueID` property is set to `id`: where
/// that property is an object its `__Value` is replaced, else the payload is
/// kept; no other field changes.
pub open spec fn value_replaced_or_kept(old: Json, new: Json, id: i64) -> bool {
    &&& (old.get("GithubIssueID"@) matches Some(p) && p is Object) ==> new is Object && value_replaced(
        old.get("GithubIssueID"@).unwrap(),
        new.get("GithubIssueID"@).unwrap(),
        Json::Int(id),
    ) && new.get("GithubIssueID"@) is Some
    &&& !(old.get("GithubIssueID"@) matches Some(p) && p is Object) ==> new == old
    &&& forall|k: Seq<char>| k != "GithubIssueID"@ ==> new.get(k) == old.get(k)
}

/// Normalisation can be done on this payload: it is an object.
pub open spec fn normalizable(payload: Json) -> bool {
    payload is Object
}

/// The payload's three normalised properties already hold the values that
/// normalisation would give them.
pub open spec fn ids_in_place(payload: Json, list_id: i64, issue_id: i64) -> bool {
    &&& payload is Object
    &&& value_in_place(payload.get("bIsNetworkedTodoList"@), Json::Int(1))
    &&& value_in_place(payload.get("NetworkedTodoListID"@), Json::Int(list_id))
    &&& value_in_place(payload.get("GithubIssueID"@), Json::Int(issue_id))
}

/// The list a `TodoListUpdate` message describes, if it has the required
/// fields: `ListID` (integer), `ListName` (string) and `SerializedList`;
/// `GithubIssueID` defaults to [`NO_ISSUE`] and `Deleted` to false.
pub open spec fn decode_list(msg: Json) -> Option<ListModel> {
    match (msg.get("ListID"@), msg.get("ListName"@), msg.get("SerializedList"@)) {
        (Some(Json::Int(id)), Some(Json::Str(name)), Some(payload)) => Some(
            ListModel {
                list_id: id,
                list_name: name,
                github_issue_id: match msg.get("GithubIssueID"@) {
                    Some(Json::Int(g)) => g,
                    _ => NO_ISSUE,
                },
                payload: payload,
                deleted: match msg.get("Deleted"@) {
                    Some(Json::Bool(b)) => b,
                    _ => false,
                },
            },
        ),
        _ => None,
    }
}

/// The wire form of a list, without its `MessageType`.
pub open spec fn list_message(l: ListModel) -> Json {
    Json::Object(
        seq![
            ("ListID"@, Json::Int(l.list_id)),
            ("ListName"@, Json::Str(l.list_name)),
            ("GithubIssueID"@, Json::Int(l.github_issue_id)),
            ("SerializedList"@, l.payload),
            ("Deleted"@, Json::Bool(l.deleted)),
        ],
    )
}

/// The issue id a list resolves to: its own where it has one, else the one
/// the store holds for it, where that is not negative.
pub open spec fn resolved_issue_id(own: i64, stored: Option<i64>) -> Option<i64> {
    if own > -1 {
        Some(own)
    } else {
        match stored {
            Some(g) if g >= 0 => Some(g),
            _ => None,
        }
    }
}

/// Decides the issue id of a list from its own and from what the store holds.
pub fn resolve_issue_id(own: i64, stored: Option<i64>) -> (r: Option<i64>)
    ensures
        r == resolved_issue_id(own, stored),
{
    if own > -1 {
        return Some(own);
    }
    match stored {
        Some(g) => if g >= 0 {
            Some(g)
        } else {
            None
        },
        None => None,
    }
}

impl TodoList {
    /// A copy of the list.
    pub fn copy(&self) -> (r: TodoList)
        ensures
            r@ == self@,
    {
        TodoList {
            list_id: self.list_id,
            list_name: self.list_name.clone(),
            github_issue_id: self.github_issue_id,
            list: self.list.deep_copy(),
            deleted: self.deleted,
        }
    }

    /// The wire form of the list, without its `MessageType`.
    pub fn to_websocket_message(&self) -> (r: JsonValue)
        ensures
            r@ == list_message(self@),
    {
        let mut fields: Vec<(String, JsonValue)> = Vec::new();
        fields.push((String::from_str("ListID"), JsonValue::Int(self.list_id)));
        fields.push((String::from_str("ListName"), JsonValue::Str(self.list_name.clone())));
        fields.push((String::from_str("GithubIssueID"), JsonValue::Int(self.github_issue_id)));
        fields.push((String::from_str("SerializedList"), self.list.deep_copy()));
        fields.push((String::from_str("Deleted"), JsonValue::Bool(self.deleted)));
        proof {
            lemma_object_view(fields);
            assert(fields_view(fields@) =~= list_message(self@)->Object_0);
        }
        JsonValue::Object(fields)
    }

    /// Reads a list from a `TodoListUpdate` message.
    pub fn from_websocket_message(msg_json: &JsonValue) -> (r: Option<TodoList>)
        ensures
            match r {
                Some(l) => decode_list(msg_json@) == Some(l@),
                None => decode_list(msg_json@) is None,
            },
    {
        let list_id = match msg_json.get("ListID") {
            Some(v) => match v.as_i64() {
                Some(n) => n,
                None => return None,
            },
            None => return None,
        };
        let list_name = match msg_json.get("ListName") {
            Some(v) => match v.as_str() {
                Some(s) => s,
                None => return None,
            },
            None => return None,
        };
        let payload = match msg_json.get("SerializedList") {
            Some(v) => v.deep_copy(),
            None => return None,
        };
        let github_issue_id = match msg_json.get("GithubIssueID") {
            Some(v) => match v.as_i64() {
                Some(n) => n,
                None => NO_ISSUE,
            },
            None => NO_ISSUE,
        };
        let deleted = match msg_json.get("Deleted") {
            Some(JsonValue::Bool(b)) => *b,
            _ => false,
        };
        Some(
            TodoList {
                list_id,
                list_name: String::from_str(list_name),
                github_issue_id,
                list: payload,
                deleted,
            },
        )
    }

    /// Sets the issue id, and the `__Value` of the payload's `GithubIssueID`
    /// property. The payload is left as it is, and `None` returned, where it
    /// has no such property object.
    pub fn set_github_id(&mut self, id: i64) -> (r: Option<()>)
        ensures
            final(self).github_issue_id == id,
            final(self).list_id == old(self).list_id,
            final(self).list_name@ == old(self).list_name@,
            final(self).deleted == old(self).deleted,
            r is Some == (old(self).list@.get("GithubIssueID"@) matches Some(p) && p is Object),
            r is Some ==> final(self).list@ is Object && value_replaced(
                old(self).list@.get("GithubIssueID"@).unwrap(),
                final(self).list@.get("GithubIssueID"@).unwrap(),
                Json::Int(id),
            ) && final(self).list@.get("GithubIssueID"@) is Some,
            r is None ==> final(self).list@ == old(self).list@,
            forall|k: Seq<char>|
                k != "GithubIssueID"@ ==> final(self).list@.get(k) == old(self).list@.get(k),
    {
        self.github_issue_id = id;
        let mut payload = JsonValue::Null;
        core::mem::swap(&mut self.list, &mut payload);
        match payload {
            JsonValue::Object(mut fields) => {
                proof {
                    lemma_object_view(fields);
                }
                let ok = set_prop_value(&mut fields, "GithubIssueID", JsonValue::Int(id));
                proof {
                    lemma_object_view(fields);
                }
                self.list = JsonValue::Object(fields);
                if ok {
                    Some(())
                } else {
                    None
                }
            },
            other => {
                self.list = other;
                None
            },
        }
    }
}

/// Normalises the payload's sub-fields to the list's id and issue id; `None`
/// where the payload is not an object. A list whose sub-fields are in place
/// already comes back unchanged, so normalising twice gives what normalising
/// once does.
pub fn fix_ids(list: TodoList) -> (r: Option<TodoList>)
    ensures
        r is Some <==> normalizable(list.list@),
        r matches Some(n) ==> {
            &&& n.list_id == list.list_id
            &&& n.list_name@ == list.list_name@
            &&& n.github_issue_id == list.github_issue_id
            &&& n.deleted == list.deleted
            &&& payload_normalized(list.list@, n.list@, list.list_id, list.github_issue_id)
            &&& ids_in_place(n.list@, n.list_id, n.github_issue_id)
        },
        ids_in_place(list.list@, list.list_id, list.github_issue_id) ==> (r matches Some(n) && n@
            == list@),
{
    let ghost old_list = list@;
    let TodoList { list_id, list_name, github_issue_id, list: payload, deleted } = list;
    match payload {
        JsonValue::Object(mut fields) => {
            proof {
                lemma_object_view(fields);
            }
            let ghost f0 = fields_view(fields@);
            set_or_insert_prop(&mut fields, "bIsNetworkedTodoList", "BoolProperty", JsonValue::Int(1));
            let ghost f1 = fields_view(fields@);
            set_or_insert_prop(&mut fields, "NetworkedTodoListID", "IntProperty", JsonValue::Int(list_id));
            let ghost f2 = fields_view(fields@);
            set_or_insert_prop(&mut fields, "GithubIssueID", "IntProperty", JsonValue::Int(github_issue_id));
            proof {
                lemma_object_view(fields);
                let f3 = fields_view(fields@);
                let (a, b, c) = ("bIsNetworkedTodoList"@, "NetworkedTodoListID"@, "GithubIssueID"@);
                reveal_strlit("bIsNetworkedTodoList");
                reveal_strlit("NetworkedTodoListID");
                reveal_strlit("GithubIssueID");
                assert(a.len() == 20 && b.len() == 19 && c.len() == 13);
                assert(a != b && a != c && b != c);
                assert(field_of(f3, a) == field_of(f1, a));
                assert(field_of(f3, b) == field_of(f2, b));
                assert(field_of(f1, b) == field_of(f0, b));
                assert(field_of(f2, c) == field_of(f0, c));
                assert(field_of(f2, c) == field_of(f1, c));
                assert forall|k: Seq<char>| k != a && k != b && k != c implies field_of(f3, k)
                    == field_of(f0, k) by {}
                lemma_normalized_in_place(field_of(f0, a), field_of(f3, a), "BoolProperty"@, Json::Int(1));
                lemma_normalized_in_place(field_of(f0, b), field_of(f3, b), "IntProperty"@, Json::Int(list_id));
                lemma_normalized_in_place(
                    field_of(f0, c),
                    field_of(f3, c),
                    "IntProperty"@,
                    Json::Int(github_issue_id),
                );
                if ids_in_place(old_list.payload, list_id, github_issue_id) {
                    assert(f1 == f0);
                    assert(f2 == f1);
                    assert(f3 == f2);
                }
            }
            Some(TodoList { list_id, list_name, github_issue_id, list: JsonValue::Object(fields), deleted })
        },
        _ => None,
    }
}

/// The list a stored document describes: `ListName` (string), `ListID`
/// (integer) and `SerializedList` (object) are required; `GithubIssueID`
/// defaults to [`NO_ISSUE`] and `Deleted` to false.
pub open spec fn decode_document(doc: Json) -> Option<ListModel> {
    match (doc.get("ListID"@), doc.get("ListName"@), doc.get("SerializedList"@)) {
        (Some(Json::Int(id)), Some(Json::Str(name)), Some(payload)) => if payload is Object {
            Some(
                ListModel {
                    list_id: id,
                    list_name: name,
                    github_issue_id: match doc.get("GithubIssueID"@) {
                        Some(Json::Int(g)) => g,
                        _ => NO_ISSUE,
                    },
                    payload: payload,
                    deleted: match doc.get("Deleted"@) {
                        Some(Json::Bool(b)) => b,
                        _ => false,
                    },
                },
            )
        } else {
            None
        },
        _ => None,
    }
}

impl TodoList {
    /// The stored document of the list; `None` where the payload is not an
    /// object, since a document's fields must be.
    pub fn to_bson(&self) -> (r: Option<JsonValue>)
        ensures
            r is Some <==> self.list@ is Object,
            r matches Some(d) ==> d@ == list_message(self@),
    {
        match &self.list {
            JsonValue::Object(_) => Some(self.to_websocket_message()),
            _ => None,
        }
    }

    /// Reads a stored document.
    pub fn from_bson(doc: &JsonValue) -> (r: Option<TodoList>)
        ensures
            match r {
                Some(l) => decode_document(doc@) == Some(l@),
                None => decode_document(doc@) is None,
            },
    {
        match doc.get("SerializedList") {
            Some(JsonValue::Object(_)) => TodoList::from_websocket_message(doc),
            _ => None,
        }
    }
}

/// The issue id kept inside a stored document's payload, at
/// `SerializedList.GithubIssueID.__Value`, where it is not negative.
pub fn get_db_list_github_id(doc: &JsonValue) -> (r: Option<i64>)
    ensures
        r == (match doc@.get("SerializedList"@) {
            Some(p) => match p.get2("GithubIssueID"@, "__Value"@) {
                Some(Json::Int(g)) => if g >= 0 {
                    Some(g)
                } else {
                    None
                },
                _ => None,
            },
            None => None,
        }),
{
    let value = match doc.get("SerializedList") {
        Some(p) => match p.get("GithubIssueID") {
            Some(prop) => match prop.get("__Value") {
                Some(v) => v.as_i64(),
                None => None,
            },
            None => None,
        },
        None => None,
    };
    match value {
        Some(g) => if g >= 0 {
            Some(g)
        } else {
            None
        },
        None => None,
    }
}

} // verus!
