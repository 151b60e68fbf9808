//! The issue mirror's decisions: how a list reads as an issue, and what the
//! mirror does for each event.

use vstd::prelude::*;
use vstd::string::StringExecFns;
use crate::json::{Json, JsonValue};
use crate::todo_list::{resolve_issue_id, resolved_issue_id, value_replaced_or_kept, ListModel, TodoList};
use crate::event::{EventModel, ServerEvent};

verus! {

/// An issue of the external tracker, as the mirror writes it.
#[derive(Debug, PartialEq)]
pub struct GithubIssue {
    pub title: String,
    pub body: String,
    /// `open` or `closed`.
    pub state: String,
}

/// Relies on `String::push`: appends one character.
#[verifier::external_body]
pub(crate) fn push_char(s: &mut String, c: char)
    ensures
        final(s)@ == old(s)@.push(c),
{
    s.push(c)
}

/// `s` with a tab after every line break.
pub open spec fn indent(s: Seq<char>) -> Seq<char>
    decreases s.len(),
{
    if s.len() == 0 {
        Seq::empty()
    } else if s.last() == '\n' {
        indent(s.drop_last()) + seq!['\n', '\t']
    } else {
        indent(s.drop_last()).push(s.last())
    }
}

/// The string at `name.__Value.SourceString` of a task.
pub open spec fn task_text(task: Json, name: Seq<char>) -> Option<Seq<char>> {
    match task.get2(name, "__Value"@) {
        Some(v) => match v.get("SourceString"@) {
            Some(Json::Str(s)) => Some(s),
            _ => None,
        },
        None => None,
    }
}

/// A task is checked when its `TaskStatus.__Value` is `Done`.
pub open spec fn task_checked(task: Json) -> bool {
    task.get2("TaskStatus"@, "__Value"@) == Some(Json::Str("Done"@))
}

/// One task as a line of the issue: a checkbox, the title, and the
/// description, if any, indented under it.
pub open spec fn task_line(task: Json) -> Seq<char> {
    let title = match task_text(task, "TaskName"@) {
        Some(t) => t,
        None => Seq::empty(),
    };
    let head = "- ["@ + (if task_checked(task) {
        "x"@
    } else {
        " "@
    }) + "] "@ + title;
    match task_text(task, "TaskDescription"@) {
        Some(d) => head + "\n\t"@ + indent(d),
        None => head,
    }
}

/// Renders one task as a line of the issue body.
pub fn task_to_string(task: &JsonValue) -> (r: String)
    ensures
        r@ == task_line(task@),
{
    let task_checked = match task.get("TaskStatus") {
        Some(status) => match status.get("__Value") {
            Some(v) => match v.as_str() {
                Some(s) => crate::json::str_eq(s, "Done"),
                None => false,
            },
            None => false,
        },
        None => false,
    };
    let mut task_string = String::new();
    task_string.append("- [");
    task_string.append(if task_checked { "x" } else { " " });
    task_string.append("] ");
    match source_string(task, "TaskName") {
        Some(title) => task_string.append(title),
        None => {},
    }
    match source_string(task, "TaskDescription") {
        Some(description) => {
            task_string.append("\n\t");
            append_indented(&mut task_string, description);
        },
        None => {},
    }
    proof {
        assert(task_string@ =~= task_line(task@));
    }
    task_string
}

/// The string at `name.__Value.SourceString`.
fn source_string<'a>(task: &'a JsonValue, name: &str) -> (r: Option<&'a str>)
    ensures
        match r {
            Some(s) => task_text(task@, name@) == Some(s@),
            None => task_text(task@, name@) is None,
        },
{
    match task.get(name) {
        Some(prop) => match prop.get("__Value") {
            Some(v) => match v.get("SourceString") {
                Some(s) => s.as_str(),
                None => None,
            },
            None => None,
        },
        None => None,
    }
}

/// Appends `s` with a tab after every line break.
fn append_indented(out: &mut String, s: &str)
    ensures
        final(out)@ == old(out)@ + indent(s@),
{
    let n = s.unicode_len();
    let mut i: usize = 0;
    while i < n
        invariant
            n == s@.len(),
            i <= n,
            out@ == old(out)@ + indent(s@.subrange(0, i as int)),
        decreases n - i,
    {
        let c = s.get_char(i);
        assert(s@.subrange(0, i as int + 1).drop_last() =~= s@.subrange(0, i as int));
        push_char(out, c);
        if c == '\n' {
            push_char(out, '\t');
        }
        assert(out@ =~= old(out)@ + indent(s@.subrange(0, i as int + 1)));
        i = i + 1;
    }
    assert(s@.subrange(0, n as int) =~= s@);
}

/// Lines joined by line breaks.
pub open spec fn joined(lines: Seq<Seq<char>>) -> Seq<char>
    decreases lines.len(),
{
    if lines.len() == 0 {
        Seq::empty()
    } else if lines.len() == 1 {
        lines[0]
    } else {
        joined(lines.drop_last()) + "\n"@ + lines.last()
    }
}

/// The tasks of a payload: `Tasks.__Value`, where it is an array.
pub open spec fn task_array(payload: Json) -> Seq<Json> {
    match payload.get2("Tasks"@, "__Value"@) {
        Some(Json::Array(tasks)) => tasks,
        _ => Seq::empty(),
    }
}

/// The issue body of a payload: one line per task.
pub open spec fn issue_body(payload: Json) -> Seq<char> {
    joined(task_array(payload).map_values(|t: Json| task_line(t)))
}

/// The model of an issue: title, body and state.
pub open spec fn issue_of(l: ListModel) -> (Seq<char>, Seq<char>, Seq<char>) {
    (l.list_name, issue_body(l.payload), if l.deleted {
        "closed"@
    } else {
        "open"@
    })
}

impl GithubIssue {
    pub open spec fn model(&self) -> (Seq<char>, Seq<char>, Seq<char>) {
        (self.title@, self.body@, self.state@)
    }
}

impl TodoList {
    /// The tasks of the payload, if it has a task array.
    pub fn get_task_array(&self) -> (r: Option<&Vec<JsonValue>>)
        ensures
            match r {
                Some(v) => self.list@.get2("Tasks"@, "__Value"@) matches Some(Json::Array(t)) && t
                    == v@.map_values(|j: JsonValue| j@),
                None => !(self.list@.get2("Tasks"@, "__Value"@) matches Some(Json::Array(_))),
            },
    {
        match self.list.get("Tasks") {
            Some(tasks) => match tasks.get("__Value") {
                Some(JsonValue::Array(items)) => {
                    proof {
                        crate::json::lemma_array_view(*items);
                    }
                    Some(items)
                },
                _ => None,
            },
            None => None,
        }
    }

    /// The issue that mirrors the list.
    pub fn to_github_issue(&self) -> (r: GithubIssue)
        ensures
            r.model() == issue_of(self@),
    {
        let ghost tasks = task_array(self.list@);
        let mut body = String::new();
        match self.get_task_array() {
            Some(items) => {
                let n = items.len();
                let mut i: usize = 0;
                while i < n
                    invariant
                        n == items@.len(),
                        tasks == items@.map_values(|j: JsonValue| j@),
                        i <= n,
                        body@ == joined(tasks.subrange(0, i as int).map_values(|t: Json| task_line(t))),
                    decreases n - i,
                {
                    let line = task_to_string(&items[i]);
                    let ghost lines = tasks.subrange(0, i as int + 1).map_values(|t: Json| task_line(t));
                    assert(lines.drop_last() =~= tasks.subrange(0, i as int).map_values(
                        |t: Json| task_line(t),
                    ));
                    if i > 0 {
                        body.append("\n");
                    }
                    body.append(line.as_str());
                    assert(body@ =~= joined(lines));
                    i = i + 1;
                }
                assert(tasks.subrange(0, n as int) =~= tasks);
            },
            None => {
                assert(tasks.map_values(|t: Json| task_line(t)) =~= Seq::<Seq<char>>::empty());
            },
        }
        GithubIssue {
            title: self.list_name.clone(),
            body,
            state: if self.deleted {
                String::from_str("closed")
            } else {
                String::from_str("open")
            },
        }
    }
}

/// What the mirror does for one event.
#[derive(Debug, PartialEq)]
pub enum MirrorAction {
    /// No call to the tracker.
    Skip,
    /// Open a new issue; once its number is known, publish it with
    /// [`issue_created_event`].
    Create(GithubIssue),
    /// Rewrite the issue with this number.
    Update { issue_id: i64, issue: GithubIssue },
}

/// The model of a [`MirrorAction`].
pub enum MirrorModel {
    Skip,
    Create((Seq<char>, Seq<char>, Seq<char>)),
    Update(i64, (Seq<char>, Seq<char>, Seq<char>)),
}

impl MirrorAction {
    pub open spec fn model(&self) -> MirrorModel {
        match self {
            MirrorAction::Skip => MirrorModel::Skip,
            MirrorAction::Create(i) => MirrorModel::Create(i.model()),
            MirrorAction::Update { issue_id, issue } => MirrorModel::Update(*issue_id, issue.model()),
        }
    }
}

/// The mirror's decision for a list: nothing where the mirror is off;
/// rewrite the issue where the list has one (closed where it is deleted);
/// else open one, unless the list is deleted.
pub open spec fn mirror_decision(enabled: bool, l: ListModel, stored: Option<i64>) -> MirrorModel {
    if !enabled {
        MirrorModel::Skip
    } else {
        match resolved_issue_id(l.github_issue_id, stored) {
            Some(g) => MirrorModel::Update(g, issue_of(l)),
            None => if l.deleted {
                MirrorModel::Skip
            } else {
                MirrorModel::Create(issue_of(l))
            },
        }
    }
}

/// Decides what the mirror does for an updated list. `stored_issue_id` is
/// the issue id the store holds for the list.
pub fn mirror_update(enabled: bool, list: &TodoList, stored_issue_id: Option<i64>) -> (r: MirrorAction)
    ensures
        r.model() == mirror_decision(enabled, list@, stored_issue_id),
{
    if !enabled {
        return MirrorAction::Skip;
    }
    match resolve_issue_id(list.github_issue_id, stored_issue_id) {
        Some(issue_id) => MirrorAction::Update { issue_id, issue: list.to_github_issue() },
        None => if list.deleted {
            MirrorAction::Skip
        } else {
            MirrorAction::Create(list.to_github_issue())
        },
    }
}

/// Decides what the mirror does for a deleted list: the stored list, read
/// with deleted lists included, is closed on the tracker.
pub fn mirror_delete(enabled: bool, stored_list: Option<TodoList>, stored_issue_id: Option<i64>) -> (r:
    MirrorAction)
    ensures
        match stored_list {
            Some(l) => r.model() == mirror_decision(
                enabled,
                ListModel { deleted: true, ..l@ },
                stored_issue_id,
            ),
            None => r.model() == MirrorModel::Skip,
        },
{
    match stored_list {
        Some(mut list) => {
            list.deleted = true;
            mirror_update(enabled, &list, stored_issue_id)
        },
        None => MirrorAction::Skip,
    }
}

/// With the mirror switched off, no event leads to a call to the tracker.
pub proof fn lemma_mirror_gating(l: ListModel, stored: Option<i64>)
    ensures
        mirror_decision(false, l, stored) == MirrorModel::Skip,
        mirror_decision(false, ListModel { deleted: true, ..l }, stored) == MirrorModel::Skip,
{
}

/// The number of a newly opened issue, from the tracker's answer.
pub fn issue_number(response: &JsonValue) -> (r: Option<i64>)
    ensures
        r == (match response@.get("number"@) {
            Some(Json::Int(n)) => Some(n),
            _ => None,
        }),
{
    match response.get("number") {
        Some(v) => v.as_i64(),
        None => None,
    }
}

/// The follow-up update that tells the store and the peers the number of
/// the issue just opened for `list`.
pub fn issue_created_event(list: &TodoList, number: i64) -> (r: ServerEvent)
    ensures
        r@ matches EventModel::Update(n) && {
            &&& n.github_issue_id == number
            &&& n.list_id == list.list_id
            &&& n.list_name == list.list_name@
            &&& n.deleted == list.deleted
            &&& value_replaced_or_kept(list.list@, n.payload, number)
        },
{
    let mut new_list = list.copy();
    let _ = new_list.set_github_id(number);
    ServerEvent::TodoListUpdate { list: new_list }
}

} // verus!
