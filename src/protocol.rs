//! The wire protocol: what a client's frame asks for, the id of a new list,
//! and the snapshot a new connection receives.

use vstd::prelude::*;
use vstd::string::StringExecFns;
use crate::event::{update_message, update_message_of, ServerEvent};
use crate::json::{field_of, fields_view, lemma_object_view, Json, JsonValue};
use crate::payload::{prop_normalized, set_or_insert_prop};
use crate::todo_list::{decode_list, ListModel, TodoList, NO_ISSUE};

verus! {

/// What a well-formed client message asks for.
#[derive(Debug, PartialEq)]
pub enum ClientMessage {
    /// A full replace of one list.
    Update(TodoList),
    /// A soft delete of the list with this id.
    Delete(i64),
    /// A new list; the message itself still has to be read once an id is
    /// allocated.
    NewList,
}

/// The model of a decoded message.
pub enum MessageModel {
    Update(ListModel),
    Delete(i64),
    NewList,
}

/// What a frame decodes to; `None` for a frame that is dropped: no
/// `MessageType` string, an unknown one, or a required field missing.
pub open spec fn decode_frame(msg: Json) -> Option<MessageModel> {
    match msg.get("MessageType"@) {
        Some(Json::Str(t)) => if t == "TodoListUpdate"@ {
            match decode_list(msg) {
                Some(l) => Some(MessageModel::Update(l)),
                None => None,
            }
        } else if t == "TodoListDelete"@ {
            match msg.get("ListID"@) {
                Some(Json::Int(id)) => Some(MessageModel::Delete(id)),
                _ => None,
            }
        } else if t == "NewTodoList"@ {
            Some(MessageModel::NewList)
        } else {
            None
        },
        _ => None,
    }
}

impl ClientMessage {
    pub open spec fn model(&self) -> MessageModel {
        match self {
            ClientMessage::Update(l) => MessageModel::Update(l@),
            ClientMessage::Delete(id) => MessageModel::Delete(*id),
            ClientMessage::NewList => MessageModel::NewList,
        }
    }
}

/// Reads a client frame.
pub fn decode_message(msg_json: &JsonValue) -> (r: Option<ClientMessage>)
    ensures
        match r {
            Some(m) => decode_frame(msg_json@) == Some(m.model()),
            None => decode_frame(msg_json@) is None,
        },
{
    let message_type = match msg_json.get("MessageType") {
        Some(v) => match v.as_str() {
            Some(s) => s,
            None => return None,
        },
        None => return None,
    };
    if crate::json::str_eq(message_type, "TodoListUpdate") {
        match TodoList::from_websocket_message(msg_json) {
            Some(list) => Some(ClientMessage::Update(list)),
            None => None,
        }
    } else if crate::json::str_eq(message_type, "TodoListDelete") {
        match msg_json.get("ListID") {
            Some(v) => match v.as_i64() {
                Some(id) => Some(ClientMessage::Delete(id)),
                None => None,
            },
            None => None,
        }
    } else if crate::json::str_eq(message_type, "NewTodoList") {
        Some(ClientMessage::NewList)
    } else {
        None
    }
}

/// The largest id of a non-empty sequence.
pub open spec fn max_id(ids: Seq<i64>) -> int
    decreases ids.len(),
{
    if ids.len() <= 1 {
        ids[0] as int
    } else {
        let rest = max_id(ids.drop_last());
        if ids.last() > rest {
            ids.last() as int
        } else {
            rest
        }
    }
}

/// One more than the largest id; 0 where there is none.
pub open spec fn next_list_id(ids: Seq<i64>) -> int {
    if ids.len() == 0 {
        0
    } else {
        max_id(ids) + 1
    }
}

/// The id for a new list: one more than the largest existing id, deleted
/// lists included, and 0 where there is none. `None` where the largest id
/// is `i64::MAX`, so no larger one exists.
pub fn allocate_list_id(ids: &Vec<i64>) -> (r: Option<i64>)
    ensures
        r is Some <==> next_list_id(ids@) <= i64::MAX,
        r matches Some(id) ==> id == next_list_id(ids@),
{
    let n = ids.len();
    if n == 0 {
        return Some(0);
    }
    let mut max: i64 = ids[0];
    let mut i: usize = 1;
    assert(ids@.subrange(0, 1).len() == 1);
    while i < n
        invariant
            n == ids@.len(),
            1 <= i <= n,
            max == max_id(ids@.subrange(0, i as int)),
        decreases n - i,
    {
        assert(ids@.subrange(0, i as int + 1).drop_last() =~= ids@.subrange(0, i as int));
        if ids[i] > max {
            max = ids[i];
        }
        i = i + 1;
    }
    assert(ids@.subrange(0, n as int) =~= ids@);
    if max == i64::MAX {
        None
    } else {
        Some(max + 1)
    }
}

/// Every id is below the next one, so a new id is never one in use,
/// deleted lists included.
pub proof fn lemma_next_list_id_fresh(ids: Seq<i64>, j: int)
    requires
        0 <= j < ids.len(),
    ensures
        ids[j] < next_list_id(ids),
    decreases ids.len(),
{
    if j < ids.len() - 1 {
        lemma_next_list_id_fresh(ids.drop_last(), j);
    }
}

/// A `NewTodoList` message can become a list: it has a `ListName` string
/// and an object `SerializedList`.
pub open spec fn new_list_readable(msg: Json) -> bool {
    &&& msg.get("ListName"@) matches Some(Json::Str(_))
    &&& msg.get("SerializedList"@) matches Some(p) && p is Object
}

/// Builds the list a `NewTodoList` message asks for, under the id `new_id`:
/// the payload's networked flag is set to 1 and its id property to `new_id`
/// (each made a fresh property where it is missing or not an object), and
/// the rest is read as a `TodoListUpdate` would be.
pub fn new_list_from_message(msg_json: &JsonValue, new_id: i64) -> (r: Option<TodoList>)
    ensures
        r is Some <==> new_list_readable(msg_json@),
        r matches Some(l) ==> {
            let p = msg_json@.get("SerializedList"@).unwrap();
            &&& l.list_id == new_id
            &&& Json::Str(l.list_name@) == msg_json@.get("ListName"@).unwrap()
            &&& l.github_issue_id == (match msg_json@.get("GithubIssueID"@) {
                Some(Json::Int(g)) => g,
                _ => NO_ISSUE,
            })
            &&& l.deleted == (match msg_json@.get("Deleted"@) {
                Some(Json::Bool(b)) => b,
                _ => false,
            })
            &&& l.list@ is Object
            &&& prop_normalized(
                p.get("bIsNetworkedTodoList"@),
                l.list@.get("bIsNetworkedTodoList"@),
                "BoolProperty"@,
                Json::Int(1),
            )
            &&& prop_normalized(
                p.get("NetworkedTodoListID"@),
                l.list@.get("NetworkedTodoListID"@),
                "IntProperty"@,
                Json::Int(new_id),
            )
            &&& forall|k: Seq<char>|
                k != "bIsNetworkedTodoList"@ && k != "NetworkedTodoListID"@ ==> l.list@.get(k)
                    == p.get(k)
        },
{
    proof {
        reveal_strlit("bIsNetworkedTodoList");
        reveal_strlit("NetworkedTodoListID");
        assert("bIsNetworkedTodoList"@.len() == 20 && "NetworkedTodoListID"@.len() == 19);
    }
    let list_name = match msg_json.get("ListName") {
        Some(v) => match v.as_str() {
            Some(s) => s,
            None => return None,
        },
        None => return None,
    };
    let payload = match msg_json.get("SerializedList") {
        Some(v) => v.deep_copy(),
        None => return None,
    };
    let mut fields = match payload {
        JsonValue::Object(fields) => fields,
        _ => return None,
    };
    proof {
        lemma_object_view(fields);
    }
    set_or_insert_prop(&mut fields, "bIsNetworkedTodoList", "BoolProperty", JsonValue::Int(1));
    set_or_insert_prop(&mut fields, "NetworkedTodoListID", "IntProperty", JsonValue::Int(new_id));
    proof {
        lemma_object_view(fields);
    }
    let github_issue_id = match msg_json.get("GithubIssueID") {
        Some(v) => match v.as_i64() {
            Some(n) => n,
            None => NO_ISSUE,
        },
        None => NO_ISSUE,
    };
    let deleted = match msg_json.get("Deleted") {
        Some(JsonValue::Bool(b)) => *b,
        _ => false,
    };
    Some(
        TodoList {
            list_id: new_id,
            list_name: String::from_str(list_name),
            github_issue_id,
            list: JsonValue::Object(fields),
            deleted,
        },
    )
}

/// The snapshot of a list of stored lists: one `TodoListUpdate` message per
/// list that is not deleted, in the same order.
pub open spec fn snapshot(lists: Seq<ListModel>) -> Seq<Json>
    decreases lists.len(),
{
    if lists.len() == 0 {
        Seq::empty()
    } else {
        let rest = snapshot(lists.drop_last());
        if lists.last().deleted {
            rest
        } else {
            rest.push(update_message(lists.last()))
        }
    }
}

/// Snapshot completeness: the snapshot holds exactly one `TodoListUpdate`
/// message per list that is not deleted, in store order, and none for a
/// deleted list.
pub proof fn lemma_snapshot_complete(lists: Seq<ListModel>)
    ensures
        snapshot(lists) == update_messages(live_lists(lists)),
        snapshot(lists).len() == live_lists(lists).len(),
    decreases lists.len(),
{
    reveal(Seq::filter);
    if lists.len() > 0 {
        lemma_snapshot_complete(lists.drop_last());
        let rest = live_lists(lists.drop_last());
        if !lists.last().deleted {
            assert(live_lists(lists) == rest.push(lists.last()));
            assert(update_messages(rest.push(lists.last())) =~= update_messages(rest).push(
                update_message(lists.last()),
            ));
        } else {
            assert(live_lists(lists) == rest);
        }
    } else {
        assert(update_messages(live_lists(lists)) =~= Seq::<Json>::empty());
    }
}

/// An update message names its list's id, says it is an update, and
/// carries the list's deleted flag.
pub proof fn lemma_update_message_fields(l: ListModel)
    ensures
        update_message(l).get("MessageType"@) == Some(Json::Str("TodoListUpdate"@)),
        update_message(l).get("ListID"@) == Some(Json::Int(l.list_id)),
        update_message(l).get("Deleted"@) == Some(Json::Bool(l.deleted)),
{
    reveal_strlit("ListID");
    reveal_strlit("ListName");
    reveal_strlit("GithubIssueID");
    reveal_strlit("SerializedList");
    reveal_strlit("Deleted");
    reveal_strlit("MessageType");
    assert("ListID"@.len() == 6 && "ListName"@.len() == 8 && "GithubIssueID"@.len() == 13);
    assert("SerializedList"@.len() == 14 && "Deleted"@.len() == 7 && "MessageType"@.len() == 11);
    let f = update_message(l)->Object_0;
    assert(f.len() == 6);
    assert(f.drop_first().drop_first().drop_first().drop_first()[0] == f[4]);
    assert(f.drop_first().drop_first().drop_first().drop_first().drop_first()[0] == f[5]);
    reveal_with_fuel(field_of, 7);
}

/// Each snapshot message is the `TodoListUpdate` message of a stored list
/// that is not deleted: it carries that list's id and `Deleted: false`.
/// Where ids are distinct, no deleted list has the id of a message.
pub proof fn lemma_snapshot_messages(lists: Seq<ListModel>, k: int)
    requires
        0 <= k < snapshot(lists).len(),
    ensures
        exists|i: int|
            0 <= i < lists.len() && !lists[i].deleted && snapshot(lists)[k] == update_message(lists[i]),
        snapshot(lists)[k].get("MessageType"@) == Some(Json::Str("TodoListUpdate"@)),
        snapshot(lists)[k].get("Deleted"@) == Some(Json::Bool(false)),
        lists.map_values(|l: ListModel| l.list_id).no_duplicates() ==> forall|j: int|
            0 <= j < lists.len() && lists[j].deleted ==> snapshot(lists)[k].get("ListID"@) != Some(
                Json::Int(lists[j].list_id),
            ),
    decreases lists.len(),
{
    let rest = lists.drop_last();
    let sr = snapshot(rest);
    if k < sr.len() {
        lemma_snapshot_messages(rest, k);
        let i = choose|i: int| 0 <= i < rest.len() && !rest[i].deleted && sr[k] == update_message(rest[i]);
        assert(lists[i] == rest[i]);
        if lists.map_values(|l: ListModel| l.list_id).no_duplicates() {
            assert(rest.map_values(|l: ListModel| l.list_id) =~= lists.map_values(
                |l: ListModel| l.list_id,
            ).drop_last());
            assert forall|j: int| 0 <= j < lists.len() && lists[j].deleted implies sr[k].get("ListID"@)
                != Some(Json::Int(lists[j].list_id)) by {
                lemma_update_message_fields(rest[i]);
                if j == lists.len() - 1 {
                    assert(lists.map_values(|l: ListModel| l.list_id)[i] != lists.map_values(
                        |l: ListModel| l.list_id,
                    )[j]);
                } else {
                    assert(rest[j] == lists[j]);
                }
            }
        }
    } else {
        let i = lists.len() - 1;
        assert(!lists[i].deleted && snapshot(lists)[k] == update_message(lists[i]));
        lemma_update_message_fields(lists[i]);
        assert forall|j: int| 0 <= j < lists.len() && lists[j].deleted && lists.map_values(
            |l: ListModel| l.list_id,
        ).no_duplicates() implies snapshot(lists)[k].get("ListID"@) != Some(
            Json::Int(lists[j].list_id),
        ) by {
            assert(lists.map_values(|l: ListModel| l.list_id)[i] != lists.map_values(
                |l: ListModel| l.list_id,
            )[j]);
        }
    }
    let i = choose|i: int|
        0 <= i < lists.len() && !lists[i].deleted && snapshot(lists)[k] == update_message(lists[i]);
    lemma_update_message_fields(lists[i]);
}

/// The lists that are not deleted, in order.
pub open spec fn live_lists(lists: Seq<ListModel>) -> Seq<ListModel> {
    lists.filter(|l: ListModel| !l.deleted)
}

/// One `TodoListUpdate` message per list.
pub open spec fn update_messages(lists: Seq<ListModel>) -> Seq<Json> {
    lists.map_values(|l: ListModel| update_message(l))
}

/// The models of a sequence of lists.
pub open spec fn list_models(lists: Seq<TodoList>) -> Seq<ListModel> {
    lists.map_values(|l: TodoList| l@)
}

/// The messages a new connection is sent before anything else.
pub fn snapshot_messages(lists: &Vec<TodoList>) -> (r: Vec<JsonValue>)
    ensures
        r@.map_values(|m: JsonValue| m@) == snapshot(list_models(lists@)),
{
    let mut out: Vec<JsonValue> = Vec::new();
    let n = lists.len();
    let mut i: usize = 0;
    while i < n
        invariant
            n == lists@.len(),
            i <= n,
            out@.map_values(|m: JsonValue| m@) == snapshot(list_models(lists@.subrange(0, i as int))),
        decreases n - i,
    {
        let ghost before = out@;
        assert(list_models(lists@.subrange(0, i as int + 1)).drop_last() =~= list_models(
            lists@.subrange(0, i as int),
        ));
        assert(list_models(lists@.subrange(0, i as int + 1)).last() == lists@[i as int]@);
        if !lists[i].deleted {
            out.push(update_message_of(&lists[i]));
            assert(out@.map_values(|m: JsonValue| m@) =~= before.map_values(|m: JsonValue| m@).push(
                update_message(lists@[i as int]@),
            ));
        }
        i = i + 1;
    }
    assert(lists@.subrange(0, n as int) =~= lists@);
    out
}

/// The event a decoded update or delete publishes.
pub fn event_of(msg: ClientMessage) -> (r: Option<ServerEvent>)
    ensures
        match msg.model() {
            MessageModel::Update(l) => r matches Some(e) && e@ == crate::event::EventModel::Update(l),
            MessageModel::Delete(id) => r matches Some(e) && e@ == crate::event::EventModel::Delete(id),
            MessageModel::NewList => r is None,
        },
{
    match msg {
        ClientMessage::Update(list) => Some(ServerEvent::TodoListUpdate { list }),
        ClientMessage::Delete(id) => Some(ServerEvent::TodoListDelete { id }),
        ClientMessage::NewList => None,
    }
}

} // verus!
