//! Task, project and tag records, and the import of tasks fetched from an
//! external issue tracker.

use vstd::prelude::*;

verus! {

/// A stored task.
#[derive(Clone, Debug)]
pub struct Task {
    pub id: i64,
    pub title: String,
    pub description: Option<String>,
    /// Epoch second the task is due at.
    pub due_date: Option<i64>,
    pub priority: i32,
    /// Workflow state label, "todo" for fresh tasks.
    pub status: String,
    pub project_id: Option<i64>,
    pub parent_id: Option<i64>,
    /// Manual sort position within its list.
    pub position: i32,
    /// Identity on the external platform a task was imported from.
    pub external_id: Option<String>,
    /// Which external platform the task came from.
    pub source: Option<String>,
    /// Epoch second the task row was created at.
    pub created_at: i64,
    /// Epoch second the task was completed at.
    pub completed_at: Option<i64>,
    pub tags: Vec<Tag>,
}

/// A stored project.
#[derive(Clone, Debug)]
pub struct Project {
    pub id: i64,
    pub name: String,
    pub color: Option<String>,
}

/// A stored tag.
#[derive(Clone, Debug)]
pub struct Tag {
    pub id: i64,
    pub name: String,
    pub color: Option<String>,
}

/// A task fetched from an external platform, before being imported.
#[derive(Clone, Debug)]
pub struct ExternalTask {
    /// Identity on the platform, unique together with the source label.
    pub id: String,
    pub title: String,
    pub description: Option<String>,
    pub status: String,
    pub url: String,
    /// Labels the issue carries on the platform.
    pub labels: Vec<String>,
    /// Project or repository the issue belongs to on the platform.
    pub project: Option<String>,
    /// Set once the store has been asked whether this id was imported before.
    pub already_imported: bool,
}

/// Convert a fetched external task plus its source label into a task record
/// ready to insert: a fresh "todo" task of priority 1 keyed by the external
/// id and source, with everything else left for the store to fill in.
pub fn to_db_task(et: ExternalTask, source: &str) -> (r: Task)
    ensures
        r.id == 0,
        r.title == et.title,
        r.description == et.description,
        r.due_date is None,
        r.priority == 1,
        r.status@ == "todo"@,
        r.project_id is None,
        r.parent_id is None,
        r.position == 0,
        r.external_id == Some(et.id),
        r.source matches Some(s) && s@ == source@,
        r.created_at == 0,
        r.completed_at is None,
        r.tags@ == Seq::<Tag>::empty(),
{
    Task {
        id: 0,
        title: et.title,
        description: et.description,
        due_date: None,
        priority: 1,
        status: "todo".to_owned(),
        project_id: None,
        parent_id: None,
        position: 0,
        external_id: Some(et.id),
        source: Some(source.to_owned()),
        created_at: 0,
        completed_at: None,
        tags: Vec::new(),
    }
}

} // verus!
