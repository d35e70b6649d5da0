//! Request bodies of the dashboard's task and SOP endpoints, and the rules
//! they follow.
use vstd::prelude::*;
use crate::text::push_str;
use crate::tui::subsystems::eq_str;

verus! {

/// A task's status.
#[derive(Debug, Clone, Copy, PartialEq, Eq, Structural)]
pub enum TaskStatus {
    Todo,
    InProgress,
    Review,
    Done,
}

/// The status a name stands for (exactly `Todo`, `InProgress`, `Review`
/// or `Done`).
pub open spec fn status_named(s: Seq<char>) -> Option<TaskStatus> {
    if s == "Todo"@ {
        Some(TaskStatus::Todo)
    } else if s == "InProgress"@ {
        Some(TaskStatus::InProgress)
    } else if s == "Review"@ {
        Some(TaskStatus::Review)
    } else if s == "Done"@ {
        Some(TaskStatus::Done)
    } else {
        None
    }
}

/// The status a name stands for.
pub fn task_status_from_str(s: &str) -> (r: Option<TaskStatus>)
    ensures
        r == status_named(s@),
{
    if eq_str(s, "Todo") {
        Some(TaskStatus::Todo)
    } else if eq_str(s, "InProgress") {
        Some(TaskStatus::InProgress)
    } else if eq_str(s, "Review") {
        Some(TaskStatus::Review)
    } else if eq_str(s, "Done") {
        Some(TaskStatus::Done)
    } else {
        None
    }
}

/// The status a new task gets: the one named, `Todo` where none is named
/// or the name is unknown.
pub fn status_for_new_task(status: &Option<String>) -> (r: TaskStatus)
    ensures
        r == match status {
            Some(s) => match status_named(s@) {
                Some(t) => t,
                None => TaskStatus::Todo,
            },
            None => TaskStatus::Todo,
        },
{
    match status {
        Some(s) => match task_status_from_str(s.as_str()) {
            Some(t) => t,
            None => TaskStatus::Todo,
        },
        None => TaskStatus::Todo,
    }
}

/// The query of the task list: an optional status filter.
#[derive(Debug, Clone)]
pub struct TasksQuery {
    pub status: Option<String>,
}

/// The body of a task creation or update.
#[derive(Debug, Clone)]
pub struct TaskBody {
    pub title: Option<String>,
    pub description: Option<String>,
    pub status: Option<String>,
    pub parent_id: Option<String>,
    pub assigned_hand: Option<String>,
}

/// The body of a SOP creation or update.
#[derive(Debug, Clone)]
pub struct SopCreateBody {
    pub name: String,
    pub yaml: String,
}

/// The memory content a SOP is stored as: a front matter with its name,
/// then its YAML.
pub open spec fn sop_text(name: Seq<char>, yaml: Seq<char>) -> Seq<char> {
    "---\nname: "@ + name + "\n---\n"@ + yaml
}

/// The memory content of a SOP.
pub fn sop_content(body: &SopCreateBody) -> (r: String)
    ensures
        r@ == sop_text(body.name@, body.yaml@),
{
    let mut r = String::new();
    push_str(&mut r, "---\nname: ");
    push_str(&mut r, body.name.as_str());
    push_str(&mut r, "\n---\n");
    push_str(&mut r, body.yaml.as_str());
    r
}

} // verus!
