use todo_sync::config::{get_github_repo, hook, initialize, Config, GithubConfig, Keys, PortBindConfig, Secrets};
use todo_sync::event::{peer_message_of, pretransform_event, update_message_of, ServerEvent};
use todo_sync::gateway::{is_authorized, ConnState, Connection, SWITCHING_PROTOCOLS, UNAUTHORIZED};
use todo_sync::json::{set_field, JsonValue};
use todo_sync::mirror::{
    issue_created_event, issue_number, mirror_delete, mirror_update, task_to_string, GithubIssue,
    MirrorAction,
};
use todo_sync::protocol::{allocate_list_id, decode_message, event_of, new_list_from_message, snapshot_messages, ClientMessage};
use todo_sync::registry::ConnectionRegistry;
use todo_sync::store::ListStore;
use todo_sync::todo_list::{fix_ids, resolve_issue_id, TodoList, NO_ISSUE};
use todo_sync::token::{should_refresh, token_refresh_due, AccessToken};

fn s(t: &str) -> String {
    t.to_string()
}

fn obj(fields: Vec<(&str, JsonValue)>) -> JsonValue {
    JsonValue::Object(fields.into_iter().map(|(k, v)| (k.to_string(), v)).collect())
}

fn prop(ty: &str, value: JsonValue) -> JsonValue {
    obj(vec![("__Type", JsonValue::Str(s(ty))), ("__Value", value)])
}

fn list(id: i64, name: &str, deleted: bool) -> TodoList {
    TodoList {
        list_id: id,
        list_name: s(name),
        github_issue_id: NO_ISSUE,
        list: obj(vec![]),
        deleted,
    }
}

fn update_frame(id: i64, name: &str) -> JsonValue {
    obj(vec![
        ("MessageType", JsonValue::Str(s("TodoListUpdate"))),
        ("ListID", JsonValue::Int(id)),
        ("ListName", JsonValue::Str(s(name))),
        ("SerializedList", obj(vec![])),
    ])
}

fn field<'a>(v: &'a JsonValue, key: &str) -> Option<&'a JsonValue> {
    v.get(key)
}

#[test]
fn allocates_one_above_largest_id() {
    assert_eq!(allocate_list_id(&vec![0, 3, 5]), Some(6));
    assert_eq!(allocate_list_id(&vec![5, 0, 3]), Some(6));
    assert_eq!(allocate_list_id(&vec![]), Some(0));
    assert_eq!(allocate_list_id(&vec![-7]), Some(-6));
    assert_eq!(allocate_list_id(&vec![-5, -9]), Some(-4));
    assert_eq!(allocate_list_id(&vec![i64::MAX]), None);
}

#[test]
fn allocation_counts_soft_deleted_lists() {
    let mut store = ListStore::new();
    store.upsert(list(0, "a", false));
    store.upsert(list(3, "b", false));
    store.upsert(list(5, "c", false));
    assert!(store.soft_delete(5));
    assert_eq!(allocate_list_id(&store.all_ids()), Some(6));
}

#[test]
fn decodes_each_message_type() {
    match decode_message(&update_frame(4, "Week")) {
        Some(ClientMessage::Update(l)) => {
            assert_eq!(l.list_id, 4);
            assert_eq!(l.list_name, "Week");
            assert_eq!(l.github_issue_id, NO_ISSUE);
            assert!(!l.deleted);
        }
        other => panic!("unexpected {:?}", other),
    }
    let del = obj(vec![("MessageType", JsonValue::Str(s("TodoListDelete"))), ("ListID", JsonValue::Int(9))]);
    assert_eq!(decode_message(&del), Some(ClientMessage::Delete(9)));
    let new = obj(vec![("MessageType", JsonValue::Str(s("NewTodoList")))]);
    assert_eq!(decode_message(&new), Some(ClientMessage::NewList));
}

#[test]
fn drops_malformed_messages() {
    let bogus = obj(vec![("MessageType", JsonValue::Str(s("Bogus")))]);
    assert_eq!(decode_message(&bogus), None);
    assert_eq!(decode_message(&obj(vec![("ListID", JsonValue::Int(1))])), None);
    let no_name = obj(vec![
        ("MessageType", JsonValue::Str(s("TodoListUpdate"))),
        ("ListID", JsonValue::Int(1)),
        ("SerializedList", obj(vec![])),
    ]);
    assert_eq!(decode_message(&no_name), None);
    let bad_id = obj(vec![("MessageType", JsonValue::Str(s("TodoListDelete"))), ("ListID", JsonValue::Str(s("1")))]);
    assert_eq!(decode_message(&bad_id), None);
}

#[test]
fn update_reads_optional_fields() {
    let frame = obj(vec![
        ("MessageType", JsonValue::Str(s("TodoListUpdate"))),
        ("ListID", JsonValue::Int(2)),
        ("ListName", JsonValue::Str(s("x"))),
        ("SerializedList", JsonValue::Int(7)),
        ("GithubIssueID", JsonValue::Int(12)),
        ("Deleted", JsonValue::Bool(true)),
    ]);
    let l = TodoList::from_websocket_message(&frame).unwrap();
    assert_eq!(l.github_issue_id, 12);
    assert!(l.deleted);
    assert_eq!(l.list, JsonValue::Int(7));
}

#[test]
fn bogus_frame_then_update_keeps_connection_open() {
    let mut c = Connection::new(1);
    c.upgrade_requested();
    assert_eq!(c.authenticate(Some("secret"), "secret"), SWITCHING_PROTOCOLS);
    let snap = c.sync(&vec![]);
    assert!(snap.is_empty());
    assert_eq!(c.state(), ConnState::Open);
    let bogus = obj(vec![("MessageType", JsonValue::Str(s("Bogus")))]);
    assert_eq!(c.on_text_frame(Some(&bogus)), None);
    assert_eq!(c.state(), ConnState::Open);
    assert_eq!(c.on_text_frame(None), None);
    assert_eq!(c.state(), ConnState::Open);
    match c.on_text_frame(Some(&update_frame(3, "ok"))) {
        Some(ClientMessage::Update(l)) => assert_eq!(l.list_id, 3),
        other => panic!("unexpected {:?}", other),
    }
    assert_eq!(c.state(), ConnState::Open);
    c.close();
    c.close();
    assert_eq!(c.state(), ConnState::Closed);
}

#[test]
fn refuses_bad_or_missing_secret() {
    let mut c = Connection::new(2);
    c.upgrade_requested();
    assert_eq!(c.authenticate(Some("wrong"), "secret"), UNAUTHORIZED);
    assert_eq!(c.state(), ConnState::Closed);
    let mut d = Connection::new(3);
    d.upgrade_requested();
    assert_eq!(d.authenticate(None, "secret"), UNAUTHORIZED);
    assert_eq!(d.state(), ConnState::Closed);
    assert!(is_authorized(Some("k"), "k"));
    assert!(!is_authorized(Some("k "), "k"));
}

#[test]
fn snapshot_has_one_update_per_live_list() {
    let lists = vec![list(1, "a", false), list(2, "b", true), list(3, "c", false)];
    let mut c = Connection::new(4);
    c.upgrade_requested();
    c.authenticate(Some("k"), "k");
    let msgs = c.sync(&lists);
    assert_eq!(msgs.len(), 2);
    assert_eq!(field(&msgs[0], "ListID"), Some(&JsonValue::Int(1)));
    assert_eq!(field(&msgs[1], "ListID"), Some(&JsonValue::Int(3)));
    for m in &msgs {
        assert_eq!(field(m, "MessageType"), Some(&JsonValue::Str(s("TodoListUpdate"))));
        assert_eq!(field(m, "Deleted"), Some(&JsonValue::Bool(false)));
    }
    assert!(snapshot_messages(&vec![list(1, "a", true)]).is_empty());
}

#[test]
fn broadcast_skips_originator() {
    let mut reg: ConnectionRegistry<&str> = ConnectionRegistry::new();
    reg.register(1, "a");
    reg.register(2, "b");
    reg.register(3, "c");
    assert_eq!(reg.recipients(Some(2)), vec![1, 3]);
    assert_eq!(reg.recipients(None), vec![1, 2, 3]);
    assert_eq!(reg.recipients(Some(9)), vec![1, 2, 3]);
    reg.register(2, "b2");
    assert_eq!(reg.len(), 3);
    assert_eq!(reg.get(2), Some(&"b2"));
    reg.unregister(2);
    reg.unregister(2);
    assert_eq!(reg.len(), 2);
    assert!(!reg.contains(2));
    assert_eq!(reg.get(2), None);
    assert_eq!(reg.recipients(Some(1)), vec![3]);
}

#[test]
fn upsert_twice_stores_one_record() {
    let mut store = ListStore::new();
    let mut l = list(7, "x", false);
    l.github_issue_id = 3;
    store.upsert(l.copy());
    store.upsert(l.copy());
    let all = store.get_all(true);
    assert_eq!(all.len(), 1);
    assert_eq!(all[0], l);
    let mut renamed = l.copy();
    renamed.list_name = s("y");
    store.upsert(renamed);
    assert_eq!(store.get_one(7, false).unwrap().list_name, "y");
    assert_eq!(store.get_all(false).len(), 1);
}

#[test]
fn soft_delete_hides_by_default() {
    let mut store = ListStore::new();
    store.upsert(list(1, "a", false));
    store.upsert(list(2, "b", false));
    assert!(store.soft_delete(1));
    assert!(!store.soft_delete(42));
    let live = store.get_all(false);
    assert_eq!(live.len(), 1);
    assert_eq!(live[0].list_id, 2);
    let all = store.get_all(true);
    assert_eq!(all.len(), 2);
    assert!(all.iter().any(|l| l.list_id == 1 && l.deleted));
    assert_eq!(store.get_one(1, false), None);
    assert!(store.get_one(1, true).unwrap().deleted);
    assert_eq!(store.get_external_ref(1), Some(NO_ISSUE));
    assert_eq!(store.get_external_ref(5), None);
}

#[test]
fn pretransform_creates_and_fills_properties() {
    let l = list(8, "n", false);
    let e = pretransform_event(ServerEvent::TodoListUpdate { list: l }, Some(21)).unwrap();
    match e {
        ServerEvent::TodoListUpdate { list } => {
            assert_eq!(list.github_issue_id, 21);
            assert_eq!(field(&list.list, "bIsNetworkedTodoList"), Some(&prop("BoolProperty", JsonValue::Int(1))));
            assert_eq!(field(&list.list, "NetworkedTodoListID"), Some(&prop("IntProperty", JsonValue::Int(8))));
            assert_eq!(field(&list.list, "GithubIssueID"), Some(&prop("IntProperty", JsonValue::Int(21))));
        }
        other => panic!("unexpected {:?}", other),
    }
}

#[test]
fn pretransform_replaces_existing_values() {
    let mut l = list(4, "n", false);
    l.github_issue_id = 5;
    l.list = obj(vec![
        ("GithubIssueID", obj(vec![("__Type", JsonValue::Str(s("IntProperty"))), ("__Value", JsonValue::Int(2147483647))])),
        ("Tasks", JsonValue::Array(vec![])),
    ]);
    let e = pretransform_event(ServerEvent::TodoListUpdate { list: l }, Some(99)).unwrap();
    match e {
        ServerEvent::TodoListUpdate { list } => {
            assert_eq!(list.github_issue_id, 5);
            assert_eq!(field(&list.list, "GithubIssueID"), Some(&prop("IntProperty", JsonValue::Int(5))));
            assert_eq!(field(&list.list, "Tasks"), Some(&JsonValue::Array(vec![])));
        }
        other => panic!("unexpected {:?}", other),
    }
    let mut bad = list(1, "b", false);
    bad.list = JsonValue::Null;
    assert_eq!(pretransform_event(ServerEvent::TodoListUpdate { list: bad }, None), None);
    let mut scalar_prop = list(1, "b", false);
    scalar_prop.list = obj(vec![("NetworkedTodoListID", JsonValue::Int(5))]);
    let fixed = fix_ids(scalar_prop).unwrap();
    assert_eq!(field(&fixed.list, "NetworkedTodoListID"), Some(&prop("IntProperty", JsonValue::Int(1))));
    assert_eq!(
        pretransform_event(ServerEvent::TodoListDelete { id: 3 }, None),
        Some(ServerEvent::TodoListDelete { id: 3 })
    );
}

#[test]
fn resolves_issue_ids() {
    assert_eq!(resolve_issue_id(4, Some(9)), Some(4));
    assert_eq!(resolve_issue_id(-1, Some(9)), Some(9));
    assert_eq!(resolve_issue_id(-1, Some(-1)), None);
    assert_eq!(resolve_issue_id(-1, None), None);
    assert_eq!(resolve_issue_id(0, None), Some(0));
}

#[test]
fn new_list_gets_id_and_flags() {
    let msg = obj(vec![
        ("MessageType", JsonValue::Str(s("NewTodoList"))),
        ("ListName", JsonValue::Str(s("Fresh"))),
        (
            "SerializedList",
            obj(vec![
                ("bIsNetworkedTodoList", prop("BoolProperty", JsonValue::Int(0))),
                ("NetworkedTodoListID", prop("IntProperty", JsonValue::Int(-1))),
            ]),
        ),
    ]);
    let id = allocate_list_id(&vec![0, 3, 5]).unwrap();
    let l = new_list_from_message(&msg, id).unwrap();
    assert_eq!(l.list_id, 6);
    assert_eq!(l.list_name, "Fresh");
    assert_eq!(field(&l.list, "bIsNetworkedTodoList"), Some(&prop("BoolProperty", JsonValue::Int(1))));
    assert_eq!(field(&l.list, "NetworkedTodoListID"), Some(&prop("IntProperty", JsonValue::Int(6))));
    assert_eq!(new_list_from_message(&obj(vec![("ListName", JsonValue::Str(s("a")))]), 1), None);
}

#[test]
fn rebroadcast_messages() {
    let e = ServerEvent::TodoListDelete { id: 4 };
    assert_eq!(
        peer_message_of(&e),
        Some(obj(vec![("MessageType", JsonValue::Str(s("TodoListDelete"))), ("ListID", JsonValue::Int(4))]))
    );
    assert_eq!(peer_message_of(&ServerEvent::TodoListUpdate { list: list(1, "a", true) }), None);
    let m = peer_message_of(&ServerEvent::TodoListUpdate { list: list(1, "a", false) }).unwrap();
    assert_eq!(m, update_message_of(&list(1, "a", false)));
    assert_eq!(field(&m, "ListName"), Some(&JsonValue::Str(s("a"))));
    assert_eq!(ServerEvent::TodoListDelete { id: 1 }.get_event_enum_name(), "TodoListDelete");
    assert_eq!(event_of(ClientMessage::Delete(2)), Some(ServerEvent::TodoListDelete { id: 2 }));
    assert_eq!(event_of(ClientMessage::NewList), None);
}

fn text(src: &str) -> JsonValue {
    obj(vec![("SourceString", JsonValue::Str(s(src)))])
}

fn task(name: &str, status: &str, description: Option<&str>) -> JsonValue {
    let mut fields = vec![
        ("TaskName", prop("TextProperty", text(name))),
        ("TaskStatus", prop("NameProperty", JsonValue::Str(s(status)))),
    ];
    match description {
        Some(d) => fields.push(("TaskDescription", prop("TextProperty", text(d)))),
        None => fields.push(("TaskDescription", prop("TextProperty", obj(vec![("Flags", JsonValue::Int(0))])))),
    }
    obj(fields)
}

#[test]
fn renders_tasks() {
    assert_eq!(task_to_string(&task("Finish", "Done", None)), "- [x] Finish");
    assert_eq!(task_to_string(&task("Sound", "Todo", Some("a\nb"))), "- [ ] Sound\n\ta\n\tb");
    assert_eq!(task_to_string(&JsonValue::Null), "- [ ] ");
}

#[test]
fn list_reads_as_issue() {
    let mut l = list(1, "March", false);
    l.list = obj(vec![("Tasks", prop("ArrayProperty", JsonValue::Array(vec![task("A", "Done", None), task("B", "None", None)])))]);
    let issue = l.to_github_issue();
    assert_eq!(issue, GithubIssue { title: s("March"), body: s("- [x] A\n- [ ] B"), state: s("open") });
    l.deleted = true;
    assert_eq!(l.to_github_issue().state, "closed");
    assert_eq!(l.get_task_array().map(|t| t.len()), Some(2));
    assert_eq!(list(2, "e", false).to_github_issue().body, "");
}

#[test]
fn disabled_mirror_makes_no_call() {
    assert_eq!(mirror_update(false, &list(1, "a", false), Some(4)), MirrorAction::Skip);
    assert_eq!(mirror_update(false, &list(1, "a", false), None), MirrorAction::Skip);
    assert_eq!(mirror_delete(false, Some(list(1, "a", false)), Some(4)), MirrorAction::Skip);
}

#[test]
fn mirror_decisions() {
    match mirror_update(true, &list(1, "a", false), None) {
        MirrorAction::Create(i) => assert_eq!(i.state, "open"),
        other => panic!("unexpected {:?}", other),
    }
    assert_eq!(mirror_update(true, &list(1, "a", true), None), MirrorAction::Skip);
    match mirror_update(true, &list(1, "a", false), Some(12)) {
        MirrorAction::Update { issue_id, .. } => assert_eq!(issue_id, 12),
        other => panic!("unexpected {:?}", other),
    }
    match mirror_delete(true, Some(list(1, "a", false)), Some(12)) {
        MirrorAction::Update { issue_id, issue } => {
            assert_eq!(issue_id, 12);
            assert_eq!(issue.state, "closed");
        }
        other => panic!("unexpected {:?}", other),
    }
    assert_eq!(mirror_delete(true, None, Some(12)), MirrorAction::Skip);
}

#[test]
fn created_issue_is_published_back() {
    let mut l = list(3, "a", false);
    l.list = obj(vec![("GithubIssueID", prop("IntProperty", JsonValue::Int(-1)))]);
    assert_eq!(issue_number(&obj(vec![("number", JsonValue::Int(17))])), Some(17));
    assert_eq!(issue_number(&obj(vec![])), None);
    match issue_created_event(&l, 17) {
        ServerEvent::TodoListUpdate { list } => {
            assert_eq!(list.github_issue_id, 17);
            assert_eq!(field(&list.list, "GithubIssueID"), Some(&prop("IntProperty", JsonValue::Int(17))));
        }
        other => panic!("unexpected {:?}", other),
    }
    let mut plain = list(3, "a", false);
    assert_eq!(plain.set_github_id(5), None);
    assert_eq!(plain.github_issue_id, 5);
}

#[test]
fn set_field_replaces_first_or_appends() {
    let mut f = vec![(s("a"), JsonValue::Int(1)), (s("b"), JsonValue::Int(2))];
    set_field(&mut f, s("a"), JsonValue::Int(3));
    assert_eq!(f, vec![(s("a"), JsonValue::Int(3)), (s("b"), JsonValue::Int(2))]);
    set_field(&mut f, s("c"), JsonValue::Null);
    assert_eq!(f.len(), 3);
    let tree = JsonValue::Object(f);
    let copy = tree.deep_copy();
    assert_eq!(copy, tree);
}

#[test]
fn token_refresh_window() {
    let t = AccessToken { token: s("x"), expires_at: s("2024-01-01T00:00:00Z") };
    assert_eq!(t.get_expiration_timestamp(), Some(1704067200));
    assert_eq!(token_refresh_due(&t, 1704067170), Some(true));
    assert_eq!(token_refresh_due(&t, 1704067169), Some(false));
    assert_eq!(AccessToken::default().get_expiration_timestamp(), None);
    assert!(should_refresh(100, 70));
    assert!(!should_refresh(101, 70));
    assert!(should_refresh(i64::MIN, i64::MAX));
    assert!(!should_refresh(i64::MAX, i64::MIN));
}

fn config() -> Config {
    Config {
        mongodb_connection_string: s("mongodb://localhost"),
        websocket: PortBindConfig { address: s("0.0.0.0"), port: 8080 },
        github: GithubConfig {
            enabled: true,
            app_id: 11,
            app_key_file: s("key.pem"),
            app_name: Some(s("bot")),
            repo: s("org/repo"),
        },
    }
}

#[test]
fn state_hands_out_copies() {
    let state = initialize(config(), Secrets { keys: Keys { todolist_auth_key: s("k") } });
    let c = state.read_config().unwrap();
    assert_eq!(c.websocket.port, 8080);
    assert_eq!(c.mongodb_connection_string, "mongodb://localhost");
    let g = get_github_repo(&state).unwrap();
    assert_eq!(g.repo, "org/repo");
    assert_eq!(g.app_name, Some(s("bot")));
    assert_eq!(state.github_state.access_token.token, "");
    assert_eq!(hook(&JsonValue::Null), Ok(s("Hello from rust and mongoDB")));
}

#[test]
fn stored_documents_round_trip() {
    let mut l = list(5, "doc", false);
    l.github_issue_id = 8;
    let doc = l.to_bson().unwrap();
    assert_eq!(field(&doc, "ListID"), Some(&JsonValue::Int(5)));
    assert_eq!(TodoList::from_bson(&doc), Some(l.copy()));
    let mut scalar = list(1, "x", false);
    scalar.list = JsonValue::Int(3);
    assert_eq!(scalar.to_bson(), None);
    let bare = obj(vec![
        ("ListID", JsonValue::Int(2)),
        ("ListName", JsonValue::Str(s("b"))),
        ("SerializedList", obj(vec![("GithubIssueID", prop("IntProperty", JsonValue::Int(44)))])),
    ]);
    let read = TodoList::from_bson(&bare).unwrap();
    assert_eq!(read.github_issue_id, NO_ISSUE);
    assert!(!read.deleted);
    assert_eq!(todo_sync::todo_list::get_db_list_github_id(&bare), Some(44));
    let no_payload = obj(vec![("ListID", JsonValue::Int(2)), ("ListName", JsonValue::Str(s("b"))), ("SerializedList", JsonValue::Null)]);
    assert_eq!(TodoList::from_bson(&no_payload), None);
}

#[test]
fn normalising_twice_changes_nothing() {
    let mut l = list(9, "twice", false);
    l.github_issue_id = 4;
    l.list = obj(vec![
        ("Tasks", JsonValue::Array(vec![])),
        ("GithubIssueID", obj(vec![("__Value", JsonValue::Int(0)), ("Extra", JsonValue::Bool(true))])),
    ]);
    let once = fix_ids(l).unwrap();
    let twice = fix_ids(once.copy()).unwrap();
    assert_eq!(twice, once);
}

#[test]
fn new_list_replaces_scalar_properties() {
    let msg = obj(vec![
        ("MessageType", JsonValue::Str(s("NewTodoList"))),
        ("ListName", JsonValue::Str(s("Fresh"))),
        (
            "SerializedList",
            obj(vec![("bIsNetworkedTodoList", JsonValue::Int(5)), ("NetworkedTodoListID", JsonValue::Str(s("x")))]),
        ),
    ]);
    let l = new_list_from_message(&msg, 3).unwrap();
    assert_eq!(field(&l.list, "bIsNetworkedTodoList"), Some(&prop("BoolProperty", JsonValue::Int(1))));
    assert_eq!(field(&l.list, "NetworkedTodoListID"), Some(&prop("IntProperty", JsonValue::Int(3))));
}
