//! The task, its status, what can go wrong, and the events that carry news.

use vstd::prelude::*;

use crate::identifier;
use crate::identifier::Uuid;
use crate::json::JsonObject;
use crate::text;

verus! {

// Status.

/// Where a task stands.
#[derive(Debug, Clone, Copy, PartialEq, Eq, Structural)]
pub enum TaskStatus {
    Todo,
    InProgress,
    Done,
    Cancelled,
}

/// How a status is written, on the wire and in the table.
pub open spec fn status_text(status: TaskStatus) -> Seq<char> {
    match status {
        TaskStatus::Todo => "todo"@,
        TaskStatus::InProgress => "in_progress"@,
        TaskStatus::Done => "done"@,
        TaskStatus::Cancelled => "cancelled"@,
    }
}

/// The status that a text spells, if it spells one.
pub open spec fn status_of_text(s: Seq<char>) -> Option<TaskStatus> {
    if s == "todo"@ {
        Some(TaskStatus::Todo)
    } else if s == "in_progress"@ {
        Some(TaskStatus::InProgress)
    } else if s == "done"@ {
        Some(TaskStatus::Done)
    } else if s == "cancelled"@ {
        Some(TaskStatus::Cancelled)
    } else {
        None
    }
}

impl Default for TaskStatus {
    fn default() -> (status: TaskStatus)
        ensures
            status == TaskStatus::Todo,
    {
        TaskStatus::Todo
    }
}

impl TaskStatus {
    /// The status in words.
    pub fn to_string(&self) -> (written: String)
        ensures
            written@ == status_text(*self),
    {
        match self {
            TaskStatus::Todo => "todo".to_owned(),
            TaskStatus::InProgress => "in_progress".to_owned(),
            TaskStatus::Done => "done".to_owned(),
            TaskStatus::Cancelled => "cancelled".to_owned(),
        }
    }

    /// The status that a text spells; any other text is refused by name.
    pub fn from_str(s: &str) -> (status: Result<TaskStatus, DomainError>)
        ensures
            match status {
                Ok(status) => status_of_text(s@) == Some(status),
                Err(e) => status_of_text(s@) is None && e@ == ErrorView::InvalidStatus(s@),
            },
    {
        if text::same_text(s, "todo") {
            Ok(TaskStatus::Todo)
        } else if text::same_text(s, "in_progress") {
            Ok(TaskStatus::InProgress)
        } else if text::same_text(s, "done") {
            Ok(TaskStatus::Done)
        } else if text::same_text(s, "cancelled") {
            Ok(TaskStatus::Cancelled)
        } else {
            Err(DomainError::InvalidStatus(s.to_owned()))
        }
    }
}

/// What is written is read back: a status in words spells that status, and no
/// other text does.
pub proof fn law_written_status_is_read_back(status: TaskStatus, s: Seq<char>)
    ensures
        status_of_text(status_text(status)) == Some(status),
        status_of_text(s) == Some(status) ==> s == status_text(status),
{
    reveal_strlit("todo");
    reveal_strlit("in_progress");
    reveal_strlit("done");
    reveal_strlit("cancelled");
    assert("todo"@.len() == 4);
    assert("done"@.len() == 4);
    assert("todo"@[0] != "done"@[0]);
    assert("in_progress"@.len() == 11);
    assert("cancelled"@.len() == 9);
}

// Tasks.

/// A point in time, in microseconds since the Unix epoch.
#[derive(Debug, Clone, Copy, PartialEq, Eq, Structural)]
pub struct Timestamp {
    pub micros: i64,
}

/// A task of one user.
#[derive(Debug)]
pub struct Task {
    /// Unique task identifier
    pub id: Uuid,
    /// Owner user id
    pub user_id: Uuid,
    /// Optional parent task id (for subtasks)
    pub parent_id: Option<Uuid>,
    /// Short title
    pub title: String,
    /// Detailed description
    pub description: String,
    /// Current status
    pub status: TaskStatus,
    /// Estimated time in minutes
    pub estimated_mins: i32,
    /// Accumulated tracked time in minutes
    pub spent_mins: i32,
    /// Soft-delete flag
    pub is_deleted: bool,
    pub created_at: Timestamp,
    pub updated_at: Timestamp,
}

/// What a task says, text by its characters.
pub struct TaskView {
    pub id: Uuid,
    pub user_id: Uuid,
    pub parent_id: Option<Uuid>,
    pub title: Seq<char>,
    pub description: Seq<char>,
    pub status: TaskStatus,
    pub estimated_mins: i32,
    pub spent_mins: i32,
    pub is_deleted: bool,
    pub created_at: Timestamp,
    pub updated_at: Timestamp,
}

impl View for Task {
    type V = TaskView;

    open spec fn view(&self) -> TaskView {
        TaskView {
            id: self.id,
            user_id: self.user_id,
            parent_id: self.parent_id,
            title: self.title@,
            description: self.description@,
            status: self.status,
            estimated_mins: self.estimated_mins,
            spent_mins: self.spent_mins,
            is_deleted: self.is_deleted,
            created_at: self.created_at,
            updated_at: self.updated_at,
        }
    }
}

impl Clone for Task {
    fn clone(&self) -> (copy: Task)
        ensures
            copy == *self,
    {
        Task {
            id: self.id,
            user_id: self.user_id,
            parent_id: self.parent_id,
            title: self.title.clone(),
            description: self.description.clone(),
            status: self.status,
            estimated_mins: self.estimated_mins,
            spent_mins: self.spent_mins,
            is_deleted: self.is_deleted,
            created_at: self.created_at,
            updated_at: self.updated_at,
        }
    }
}

/// What a list of tasks says.
pub open spec fn task_views(tasks: Seq<Task>) -> Seq<TaskView> {
    tasks.map_values(|t: Task| t@)
}

// Errors.

/// Why the service refuses a request.
#[derive(Debug)]
pub enum DomainError {
    NotFound(Uuid),
    Forbidden(Uuid),
    InvalidStatus(String),
    CircularReference,
    SelfReference,
    Validation(String),
    /// What the database reported, in its words.
    Database(String),
    /// What the message bus reported, in its words.
    Messaging(String),
}

/// What an error says, text by its characters.
pub enum ErrorView {
    NotFound(Uuid),
    Forbidden(Uuid),
    InvalidStatus(Seq<char>),
    CircularReference,
    SelfReference,
    Validation(Seq<char>),
    Database(Seq<char>),
    Messaging(Seq<char>),
}

impl View for DomainError {
    type V = ErrorView;

    open spec fn view(&self) -> ErrorView {
        match *self {
            DomainError::NotFound(id) => ErrorView::NotFound(id),
            DomainError::Forbidden(id) => ErrorView::Forbidden(id),
            DomainError::InvalidStatus(s) => ErrorView::InvalidStatus(s@),
            DomainError::CircularReference => ErrorView::CircularReference,
            DomainError::SelfReference => ErrorView::SelfReference,
            DomainError::Validation(s) => ErrorView::Validation(s@),
            DomainError::Database(s) => ErrorView::Database(s@),
            DomainError::Messaging(s) => ErrorView::Messaging(s@),
        }
    }
}

/// An error in words.
pub open spec fn error_text(e: ErrorView) -> Seq<char> {
    match e {
        ErrorView::NotFound(id) => "Task not found: "@ + identifier::uuid_text(id.bits),
        ErrorView::Forbidden(id) => "Access denied for task: "@ + identifier::uuid_text(id.bits),
        ErrorView::InvalidStatus(s) => "Invalid status value: '"@ + s + "'"@,
        ErrorView::CircularReference => "Circular parent reference detected"@,
        ErrorView::SelfReference => "Cannot set parent to itself"@,
        ErrorView::Validation(s) => "Validation error: "@ + s,
        ErrorView::Database(s) => "Database error: "@ + s,
        ErrorView::Messaging(s) => "Messaging error: "@ + s,
    }
}

impl DomainError {
    /// The error in words.
    pub fn to_string(&self) -> (message: String)
        ensures
            message@ == error_text(self@),
    {
        match self {
            DomainError::NotFound(id) => text::joined("Task not found: ", id.to_string().as_str()),
            DomainError::Forbidden(id) => text::joined(
                "Access denied for task: ",
                id.to_string().as_str(),
            ),
            DomainError::InvalidStatus(s) => text::joined(
                text::joined("Invalid status value: '", s.as_str()).as_str(),
                "'",
            ),
            DomainError::CircularReference => "Circular parent reference detected".to_owned(),
            DomainError::SelfReference => "Cannot set parent to itself".to_owned(),
            DomainError::Validation(s) => text::joined("Validation error: ", s.as_str()),
            DomainError::Database(s) => text::joined("Database error: ", s.as_str()),
            DomainError::Messaging(s) => text::joined("Messaging error: ", s.as_str()),
        }
    }
}

// Events.

/// News of a task that was created.
#[derive(Debug, Clone, Copy)]
pub struct TaskCreatedEvent {
    pub task_id: Uuid,
    pub user_id: Uuid,
}

/// News of a task that was changed, with the new values.
#[derive(Debug)]
pub struct TaskUpdatedEvent {
    pub task_id: Uuid,
    pub changes: JsonObject,
}

/// News of a task that was deleted.
#[derive(Debug, Clone, Copy)]
pub struct TaskDeletedEvent {
    pub task_id: Uuid,
}

/// Incoming event from Users Service
#[derive(Debug, Clone, Copy)]
pub struct UserDeletedEvent {
    pub user_id: Uuid,
}

/// Incoming event from Timer Service
#[derive(Debug, Clone, Copy)]
pub struct TimerStoppedEvent {
    pub timer_id: Uuid,
    pub task_id: Uuid,
    pub duration_seconds: i64,
}

} // verus!
