//! The events that travel on the bus, and the step that normalises an
//! update before it is handed to the subscribers.

use vstd::prelude::*;
use vstd::string::StringExecFns;
use crate::json::{fields_view, lemma_object_view, Json, JsonValue};
use crate::todo_list::{
    fix_ids, list_message, normalizable, payload_normalized, resolve_issue_id, resolved_issue_id,
    ListModel, TodoList,
};

verus! {

/// What the bus carries.
#[derive(Debug, PartialEq)]
pub enum ServerEvent {
    TodoListUpdate { list: TodoList },
    TodoListDelete { id: i64 },
}

/// The model of a [`ServerEvent`].
pub enum EventModel {
    Update(ListModel),
    Delete(i64),
}

impl View for ServerEvent {
    type V = EventModel;

    open spec fn view(&self) -> EventModel {
        match self {
            ServerEvent::TodoListUpdate { list } => EventModel::Update(list@),
            ServerEvent::TodoListDelete { id } => EventModel::Delete(*id),
        }
    }
}

/// The list after the pre-transform: the resolved issue id is taken where
/// there is one, and the payload is normalised to the list's fields.
pub open spec fn pretransformed_list(old: ListModel, new: ListModel, stored: Option<i64>) -> bool {
    let issue = match resolved_issue_id(old.github_issue_id, stored) {
        Some(g) => g,
        None => old.github_issue_id,
    };
    &&& new.list_id == old.list_id
    &&& new.list_name == old.list_name
    &&& new.deleted == old.deleted
    &&& new.github_issue_id == issue
    &&& payload_normalized(old.payload, new.payload, old.list_id, issue)
}

/// The message sent to the peers for an event; `None` for an update of a
/// deleted list, which the peers are not told of.
pub open spec fn peer_message(e: EventModel) -> Option<Json> {
    match e {
        EventModel::Update(l) => if l.deleted {
            None
        } else {
            Some(update_message(l))
        },
        EventModel::Delete(id) => Some(
            Json::Object(seq![("MessageType"@, Json::Str("TodoListDelete"@)), ("ListID"@, Json::Int(id))]),
        ),
    }
}

/// A `TodoListUpdate` message for a list.
pub open spec fn update_message(l: ListModel) -> Json {
    Json::Object(list_message(l)->Object_0.push(("MessageType"@, Json::Str("TodoListUpdate"@))))
}

impl ServerEvent {
    /// The name of the event's variant.
    pub fn get_event_enum_name(&self) -> (r: String)
        ensures
            r@ == (match self@ {
                EventModel::Update(_) => "TodoListUpdate"@,
                EventModel::Delete(_) => "TodoListDelete"@,
            }),
    {
        match self {
            ServerEvent::TodoListUpdate { .. } => String::from_str("TodoListUpdate"),
            ServerEvent::TodoListDelete { .. } => String::from_str("TodoListDelete"),
        }
    }

    /// A copy of the event, for one more subscriber.
    pub fn copy(&self) -> (r: ServerEvent)
        ensures
            r@ == self@,
    {
        match self {
            ServerEvent::TodoListUpdate { list } => ServerEvent::TodoListUpdate { list: list.copy() },
            ServerEvent::TodoListDelete { id } => ServerEvent::TodoListDelete { id: *id },
        }
    }
}

/// Runs the pre-transform on an event. `stored_issue_id` is what the store
/// holds as the list's issue id. A delete passes unchanged; an update whose
/// payload is not an object gives `None` and is not published.
pub fn pretransform_event(event: ServerEvent, stored_issue_id: Option<i64>) -> (r: Option<ServerEvent>)
    ensures
        match event@ {
            EventModel::Delete(id) => r matches Some(e) && e@ == EventModel::Delete(id),
            EventModel::Update(old) => {
                &&& (r is Some <==> normalizable(old.payload))
                &&& r matches Some(e) ==> (e@ matches EventModel::Update(new)
                    && pretransformed_list(old, new, stored_issue_id))
            },
        },
{
    match event {
        ServerEvent::TodoListUpdate { mut list } => {
            if let Some(github_issue_id) = resolve_issue_id(list.github_issue_id, stored_issue_id) {
                list.github_issue_id = github_issue_id;
            }
            match fix_ids(list) {
                Some(fixed) => Some(ServerEvent::TodoListUpdate { list: fixed }),
                None => None,
            }
        },
        ServerEvent::TodoListDelete { id } => Some(ServerEvent::TodoListDelete { id }),
    }
}

/// The `TodoListUpdate` message for a list.
pub fn update_message_of(list: &TodoList) -> (r: JsonValue)
    ensures
        r@ == update_message(list@),
{
    let msg = list.to_websocket_message();
    match msg {
        JsonValue::Object(mut fields) => {
            proof {
                lemma_object_view(fields);
            }
            let ghost before = fields_view(fields@);
            fields.push((String::from_str("MessageType"), JsonValue::Str(String::from_str("TodoListUpdate"))));
            proof {
                lemma_object_view(fields);
                assert(fields_view(fields@) =~= before.push(("MessageType"@, Json::Str("TodoListUpdate"@))));
            }
            JsonValue::Object(fields)
        },
        other => {
            proof {
                assert(false);
            }
            other
        },
    }
}

/// What the rebroadcast subscriber sends to every peer for an event.
pub fn peer_message_of(event: &ServerEvent) -> (r: Option<JsonValue>)
    ensures
        match r {
            Some(m) => peer_message(event@) == Some(m@),
            None => peer_message(event@) is None,
        },
{
    match event {
        ServerEvent::TodoListUpdate { list } => {
            if list.deleted {
                None
            } else {
                Some(update_message_of(list))
            }
        },
        ServerEvent::TodoListDelete { id } => {
            let mut fields: Vec<(String, JsonValue)> = Vec::new();
            fields.push((String::from_str("MessageType"), JsonValue::Str(String::from_str("TodoListDelete"))));
            fields.push((String::from_str("ListID"), JsonValue::Int(*id)));
            proof {
                lemma_object_view(fields);
                assert(fields_view(fields@) =~= seq![
                    ("MessageType"@, Json::Str("TodoListDelete"@)),
                    ("ListID"@, Json::Int(*id)),
                ]);
            }
            Some(JsonValue::Object(fields))
        },
    }
}

} // verus!
