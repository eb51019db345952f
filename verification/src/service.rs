//! The rules of the service.
//!
//! Every operation is a chain of states.  A state says what to ask of the
//! tasks table or of the message bus; its `resume` takes the reply and gives
//! the next state, until the operation is `Done`.

use vstd::prelude::*;

use crate::domain;
use crate::domain::{
    DomainError, ErrorView, Task, TaskCreatedEvent, TaskDeletedEvent, TaskStatus, TaskUpdatedEvent,
    TimerStoppedEvent, UserDeletedEvent,
};
use crate::identifier;
use crate::identifier::Uuid;
use crate::infrastructure::nats;
use crate::infrastructure::nats::{Message, TaskEvent};
use crate::json;
use crate::json::{JsonField, JsonModel, JsonObject};
use crate::repository;
use crate::repository::{CreateRowView, PatchView, TaskCreateRow, TaskPatchRow};
use crate::text;
use crate::tree;
use crate::tree::TaskTree;

verus! {

// What callers hand in.

/// A task to be created.
#[derive(Debug)]
pub struct CreateTaskInput {
    pub user_id: Uuid,
    pub parent_id: Option<Uuid>,
    pub title: String,
    pub description: String,
    pub estimated_mins: i32,
}

/// New values for some fields of a task.
#[derive(Debug)]
pub struct UpdateTaskInput {
    pub title: Option<String>,
    pub description: Option<String>,
    pub status: Option<TaskStatus>,
    pub estimated_mins: Option<i32>,
    /// `Some(None)` takes the parent away.
    pub parent_id: Option<Option<Uuid>>,
}

/// The rules of the service, operation by operation.
pub struct TaskService;

// What operations have in common.

/// A task that was looked up on behalf of a user: it has to be there, and to
/// be theirs.
pub open spec fn owned(
    task_id: Uuid,
    user_id: Uuid,
    reply: Result<Option<Task>, DomainError>,
) -> Result<Task, DomainError> {
    match reply {
        Err(e) => Err(e),
        Ok(None) => Err(DomainError::NotFound(task_id)),
        Ok(Some(task)) => if task.user_id != user_id {
            Err(DomainError::Forbidden(task_id))
        } else {
            Ok(task)
        },
    }
}

/// A task looked up on behalf of a user.
#[derive(Debug)]
pub struct OwnershipCheck {
    pub task_id: Uuid,
    pub user_id: Uuid,
}

impl OwnershipCheck {
    /// Asks for the task of this identifier.
    pub fn find_by_id(&self) -> (id: Uuid)
        ensures
            id == self.task_id,
    {
        self.task_id
    }

    /// The task, if it is there and belongs to the user.
    pub fn resume(self, reply: Result<Option<Task>, DomainError>) -> (task: Result<
        Task,
        DomainError,
    >)
        ensures
            task == owned(self.task_id, self.user_id, reply),
    {
        match reply {
            Err(e) => Err(e),
            Ok(None) => Err(DomainError::NotFound(self.task_id)),
            Ok(Some(task)) => {
                if task.user_id != self.user_id {
                    Err(DomainError::Forbidden(self.task_id))
                } else {
                    Ok(task)
                }
            },
        }
    }
}

/// News to be published before an operation ends with `outcome`.
#[derive(Debug)]
pub struct Announcement<T> {
    pub event: TaskEvent,
    pub outcome: T,
}

impl<T> Announcement<T> {
    /// The message to publish, and what is left once that was tried.
    pub fn publish(self) -> (parts: (Message, Announced<T>))
        ensures
            parts.0.subject@ == nats::subject_of(self.event),
            json::json_fields(parts.0.payload) == nats::payload_of(self.event),
            parts.1.outcome == self.outcome,
    {
        (nats::publish_event(self.event), Announced { outcome: self.outcome })
    }
}

/// An operation that ends once its news was published, or could not be.
#[derive(Debug)]
pub struct Announced<T> {
    pub outcome: T,
}

impl<T> Announced<T> {
    /// The outcome stands, whether or not the news got out.
    pub fn resume(self, reply: Result<(), DomainError>) -> (outcome: Result<T, DomainError>)
        ensures
            outcome == Ok::<T, DomainError>(self.outcome),
    {
        Ok(self.outcome)
    }
}

// Creating a task.

/// The most characters that a title may have.
pub const MAX_TITLE: usize = 500;

/// Why a title is refused, if it is.
pub open spec fn title_refusal(title: Seq<char>) -> Option<ErrorView> {
    let t = text::trimmed(title);
    if t.len() == 0 {
        Some(ErrorView::Validation("title must not be empty"@))
    } else if t.len() > MAX_TITLE {
        Some(ErrorView::Validation("title exceeds 500 characters"@))
    } else {
        None
    }
}

/// A task that is ready to be inserted, but for its identifier.
#[derive(Debug)]
pub struct TaskDraft {
    pub user_id: Uuid,
    pub parent_id: Option<Uuid>,
    pub title: String,
    pub description: String,
    pub estimated_mins: i32,
}

/// What a draft says.
pub struct DraftView {
    pub user_id: Uuid,
    pub parent_id: Option<Uuid>,
    pub title: Seq<char>,
    pub description: Seq<char>,
    pub estimated_mins: i32,
}

impl View for TaskDraft {
    type V = DraftView;

    open spec fn view(&self) -> DraftView {
        DraftView {
            user_id: self.user_id,
            parent_id: self.parent_id,
            title: self.title@,
            description: self.description@,
            estimated_mins: self.estimated_mins,
        }
    }
}

/// The draft of an input: texts trimmed, the estimate not below zero.
pub open spec fn draft_of(input: CreateTaskInput) -> DraftView {
    DraftView {
        user_id: input.user_id,
        parent_id: input.parent_id,
        title: text::trimmed(input.title@),
        description: text::trimmed(input.description@),
        estimated_mins: if input.estimated_mins < 0 {
            0
        } else {
            input.estimated_mins
        },
    }
}

/// The row of a draft under a given identifier: a task yet to do.
pub open spec fn row_of(draft: DraftView, id: Uuid) -> CreateRowView {
    CreateRowView {
        id,
        user_id: draft.user_id,
        parent_id: draft.parent_id,
        title: draft.title,
        description: draft.description,
        status: TaskStatus::Todo,
        estimated_mins: draft.estimated_mins,
    }
}

impl TaskDraft {
    /// The row of this draft under a given identifier.
    pub fn into_row(self, id: Uuid) -> (row: TaskCreateRow)
        ensures
            row@ == row_of(self@, id),
    {
        TaskCreateRow {
            id,
            user_id: self.user_id,
            parent_id: self.parent_id,
            title: self.title,
            description: self.description,
            status: TaskStatus::Todo,
            estimated_mins: self.estimated_mins,
        }
    }

    /// On to the insertion, under a fresh identifier.
    fn into_insertion(self) -> (step: CreateTask)
        ensures
            inserts(self@, step),
    {
        let id = Uuid::new_v4();
        CreateTask::Insert(InsertTask { row: self.into_row(id) })
    }
}

/// How far the creation of a task has come.
#[derive(Debug)]
pub enum CreateTask {
    /// Look up the parent by its identifier.
    FindParent(CheckParent),
    /// Insert a row.
    Insert(InsertTask),
    /// Publish the news.
    Publish(Announcement<Task>),
    /// Nothing left to do.
    Done(Result<Task, DomainError>),
}

/// A draft that waits for its parent to be looked up.
#[derive(Debug)]
pub struct CheckParent {
    pub parent_id: Uuid,
    pub draft: TaskDraft,
}

/// A row that waits for its insertion.
#[derive(Debug)]
pub struct InsertTask {
    pub row: TaskCreateRow,
}

/// The next thing is to insert the row of a draft, under a random identifier.
pub open spec fn inserts(draft: DraftView, step: CreateTask) -> bool {
    match step {
        CreateTask::Insert(state) => state.row@ == row_of(draft, state.row.id)
            && identifier::is_version_4(state.row.id.bits),
        _ => false,
    }
}

/// The operation ends with a refusal.
pub open spec fn create_refused(step: CreateTask, refusal: ErrorView) -> bool {
    match step {
        CreateTask::Done(Err(e)) => e@ == refusal,
        _ => false,
    }
}

/// How the creation of a task begins: a title that is empty or too long is
/// refused; a parent is looked up, where one is named; else the row goes in.
pub open spec fn create_begins(input: CreateTaskInput, step: CreateTask) -> bool {
    match title_refusal(input.title@) {
        Some(refusal) => create_refused(step, refusal),
        None => match input.parent_id {
            Some(parent_id) => match step {
                CreateTask::FindParent(state) => state.parent_id == parent_id && state.draft@
                    == draft_of(input),
                _ => false,
            },
            None => inserts(draft_of(input), step),
        },
    }
}

/// How the creation of a task goes on once the parent is looked up: it has to
/// be there, and to belong to the same user.
pub open spec fn create_has_parent(
    state: CheckParent,
    reply: Result<Option<Task>, DomainError>,
    step: CreateTask,
) -> bool {
    match owned(state.parent_id, state.draft.user_id, reply) {
        Ok(_) => inserts(state.draft@, step),
        Err(e) => step == CreateTask::Done(Err(e)),
    }
}

/// How the creation of a task goes on once the row is in: the news of the task
/// as stored.
pub open spec fn create_is_stored(reply: Result<Task, DomainError>) -> CreateTask {
    match reply {
        Ok(task) => CreateTask::Publish(
            Announcement {
                event: TaskEvent::Created(
                    TaskCreatedEvent { task_id: task.id, user_id: task.user_id },
                ),
                outcome: task,
            },
        ),
        Err(e) => CreateTask::Done(Err(e)),
    }
}

impl TaskService {
    /// Create a new task, validate parent ownership, publish event.
    pub fn create_task(input: CreateTaskInput) -> (step: CreateTask)
        ensures
            create_begins(input, step),
    {
        let title = input.title.as_str().trim().to_owned();
        let length = title.as_str().unicode_len();
        if length == 0 {
            return CreateTask::Done(
                Err(DomainError::Validation("title must not be empty".to_owned())),
            );
        }
        if length > MAX_TITLE {
            return CreateTask::Done(
                Err(DomainError::Validation("title exceeds 500 characters".to_owned())),
            );
        }
        let draft = TaskDraft {
            user_id: input.user_id,
            parent_id: input.parent_id,
            title,
            description: input.description.as_str().trim().to_owned(),
            estimated_mins: if input.estimated_mins < 0 {
                0
            } else {
                input.estimated_mins
            },
        };
        match input.parent_id {
            Some(parent_id) => CreateTask::FindParent(CheckParent { parent_id, draft }),
            None => draft.into_insertion(),
        }
    }
}

impl CheckParent {
    /// Asks for the task of this identifier.
    pub fn find_by_id(&self) -> (id: Uuid)
        ensures
            id == self.parent_id,
    {
        self.parent_id
    }

    /// Goes on with the parent that was found.
    pub fn resume(self, reply: Result<Option<Task>, DomainError>) -> (step: CreateTask)
        ensures
            create_has_parent(self, reply, step),
    {
        let check = OwnershipCheck { task_id: self.parent_id, user_id: self.draft.user_id };
        match check.resume(reply) {
            Ok(_) => self.draft.into_insertion(),
            Err(e) => CreateTask::Done(Err(e)),
        }
    }
}

impl InsertTask {
    /// Asks for this row to be inserted.
    pub fn create(&self) -> (row: &TaskCreateRow)
        ensures
            *row == self.row,
    {
        &self.row
    }

    /// Goes on with the task as stored.
    pub fn resume(self, reply: Result<Task, DomainError>) -> (step: CreateTask)
        ensures
            step == create_is_stored(reply),
    {
        match reply {
            Ok(task) => {
                let event = TaskCreatedEvent { task_id: task.id, user_id: task.user_id };
                CreateTask::Publish(
                    Announcement { event: TaskEvent::Created(event), outcome: task },
                )
            },
            Err(e) => CreateTask::Done(Err(e)),
        }
    }
}

// Reading tasks.

/// A list of the tasks of a user, below a parent or without one.
#[derive(Debug)]
pub struct TaskListing {
    pub user_id: Uuid,
    pub parent_id: Option<Uuid>,
}

impl TaskListing {
    /// Asks for the tasks of this user with this parent.
    pub fn find_by_user_and_parent(&self) -> (request: (Uuid, Option<Uuid>))
        ensures
            request == (self.user_id, self.parent_id),
    {
        (self.user_id, self.parent_id)
    }

    /// The tasks as they were found.
    pub fn resume(self, reply: Result<Vec<Task>, DomainError>) -> (tasks: Result<
        Vec<Task>,
        DomainError,
    >)
        ensures
            tasks == reply,
    {
        reply
    }
}

/// How far the reading of a subtree has come.
#[derive(Debug)]
pub enum GetTaskTree {
    /// Collect the identifiers of the subtree.
    FindSubtree(SubtreeLookup),
    /// Fetch the tasks of the subtree.
    Fetch(SubtreeFetch),
    /// Nothing left to do.
    Done(Result<TaskTree, DomainError>),
}

/// A root whose subtree is to be found.
#[derive(Debug)]
pub struct SubtreeLookup {
    pub root: Task,
}

/// A root whose subtree is to be fetched.
#[derive(Debug)]
pub struct SubtreeFetch {
    pub root: Task,
    pub ids: Vec<Uuid>,
}

/// A root that is looked up on behalf of a user, to find its subtree.
#[derive(Debug)]
pub struct RootLookup {
    pub task_id: Uuid,
    pub user_id: Uuid,
}

/// How the reading of a subtree goes on once the root is looked up.
pub open spec fn tree_has_root(
    task_id: Uuid,
    user_id: Uuid,
    reply: Result<Option<Task>, DomainError>,
) -> GetTaskTree {
    match owned(task_id, user_id, reply) {
        Ok(root) => GetTaskTree::FindSubtree(SubtreeLookup { root }),
        Err(e) => GetTaskTree::Done(Err(e)),
    }
}

/// How the reading of a subtree ends: with the tree that the fetched tasks
/// make below the root.
pub open spec fn tree_is_built(
    root: Task,
    reply: Result<Vec<Task>, DomainError>,
    step: GetTaskTree,
) -> bool {
    match reply {
        Ok(tasks) => match step {
            GetTaskTree::Done(Ok(built)) => tree::tree_view(built) == tree::tree_of(
                domain::task_views(tasks@),
                root@,
            ),
            _ => false,
        },
        Err(e) => step == GetTaskTree::Done(Err(e)),
    }
}

impl TaskService {
    /// Get a task by id; enforce ownership.
    pub fn get_task(task_id: Uuid, user_id: Uuid) -> (step: OwnershipCheck)
        ensures
            step == (OwnershipCheck { task_id, user_id }),
    {
        OwnershipCheck { task_id, user_id }
    }

    /// List direct children (or root tasks) for a user.
    pub fn list_tasks(user_id: Uuid, parent_id: Option<Uuid>) -> (step: TaskListing)
        ensures
            step == (TaskListing { user_id, parent_id }),
    {
        TaskListing { user_id, parent_id }
    }

    /// Build the full subtree rooted at `task_id`.
    pub fn get_task_tree(task_id: Uuid, user_id: Uuid) -> (step: RootLookup)
        ensures
            step == (RootLookup { task_id, user_id }),
    {
        RootLookup { task_id, user_id }
    }
}

impl RootLookup {
    /// Asks for the task of this identifier.
    pub fn find_by_id(&self) -> (id: Uuid)
        ensures
            id == self.task_id,
    {
        self.task_id
    }

    /// Goes on with the root that was found.
    pub fn resume(self, reply: Result<Option<Task>, DomainError>) -> (step: GetTaskTree)
        ensures
            step == tree_has_root(self.task_id, self.user_id, reply),
    {
        let check = OwnershipCheck { task_id: self.task_id, user_id: self.user_id };
        match check.resume(reply) {
            Ok(root) => GetTaskTree::FindSubtree(SubtreeLookup { root }),
            Err(e) => GetTaskTree::Done(Err(e)),
        }
    }
}

impl SubtreeLookup {
    /// Asks for the identifiers of the subtree that this identifier is the root of.
    pub fn find_subtree_ids(&self) -> (root_id: Uuid)
        ensures
            root_id == self.root.id,
    {
        self.root.id
    }

    /// Goes on with the identifiers of the subtree.
    pub fn resume(self, reply: Result<Vec<Uuid>, DomainError>) -> (step: GetTaskTree)
        ensures
            step == match reply {
                Ok(ids) => GetTaskTree::Fetch(SubtreeFetch { root: self.root, ids }),
                Err(e) => GetTaskTree::Done(Err(e)),
            },
    {
        match reply {
            Ok(ids) => GetTaskTree::Fetch(SubtreeFetch { root: self.root, ids }),
            Err(e) => GetTaskTree::Done(Err(e)),
        }
    }
}

impl SubtreeFetch {
    /// Asks for the tasks of these identifiers.
    pub fn find_by_ids(&self) -> (ids: &Vec<Uuid>)
        ensures
            *ids == self.ids,
    {
        &self.ids
    }

    /// Ends with the tree of the tasks that were fetched.
    pub fn resume(self, reply: Result<Vec<Task>, DomainError>) -> (step: GetTaskTree)
        ensures
            tree_is_built(self.root, reply, step),
    {
        match reply {
            Ok(tasks) => GetTaskTree::Done(Ok(tree::build_tree(self.root, &tasks))),
            Err(e) => GetTaskTree::Done(Err(e)),
        }
    }
}

// Updating a task.

/// How far the update of a task has come.
#[derive(Debug)]
pub enum UpdateTask {
    /// Look up the new parent by its identifier.
    FindParent(CheckNewParent),
    /// Collect the identifiers of the task's subtree.
    FindSubtree(CheckSubtree),
    /// Write the patch.
    Write(WritePatch),
    /// Publish the news.
    Publish(Announcement<Task>),
    /// Nothing left to do.
    Done(Result<Task, DomainError>),
}

/// A patch that waits for its task to be looked up.
#[derive(Debug)]
pub struct CheckTask {
    pub task_id: Uuid,
    pub user_id: Uuid,
    pub patch: TaskPatchRow,
}

/// A patch that waits for its new parent to be looked up.
#[derive(Debug)]
pub struct CheckNewParent {
    pub task_id: Uuid,
    pub user_id: Uuid,
    pub new_parent_id: Uuid,
    pub patch: TaskPatchRow,
}

/// A patch that waits for the subtree of its task.
#[derive(Debug)]
pub struct CheckSubtree {
    pub task_id: Uuid,
    pub new_parent_id: Uuid,
    pub patch: TaskPatchRow,
}

/// A patch that may be written.
#[derive(Debug)]
pub struct WritePatch {
    pub task_id: Uuid,
    pub patch: TaskPatchRow,
}

/// The patch of an input: field by field the same.
pub open spec fn patch_of(input: UpdateTaskInput) -> TaskPatchRow {
    TaskPatchRow {
        title: input.title,
        description: input.description,
        status: input.status,
        estimated_mins: input.estimated_mins,
        parent_id: input.parent_id,
    }
}

/// How an update goes on once the task is looked up: it has to be there and to
/// belong to the user; a new parent has to be another task, and is looked up.
pub open spec fn update_has_task(
    state: CheckTask,
    reply: Result<Option<Task>, DomainError>,
) -> UpdateTask {
    match owned(state.task_id, state.user_id, reply) {
        Err(e) => UpdateTask::Done(Err(e)),
        Ok(_) => match state.patch.parent_id {
            Some(Some(new_parent_id)) => if new_parent_id == state.task_id {
                UpdateTask::Done(Err(DomainError::SelfReference))
            } else {
                UpdateTask::FindParent(
                    CheckNewParent {
                        task_id: state.task_id,
                        user_id: state.user_id,
                        new_parent_id,
                        patch: state.patch,
                    },
                )
            },
            _ => UpdateTask::Write(WritePatch { task_id: state.task_id, patch: state.patch }),
        },
    }
}

/// How an update goes on once the new parent is looked up: it has to be there
/// and to belong to the user.
pub open spec fn update_has_parent(
    state: CheckNewParent,
    reply: Result<Option<Task>, DomainError>,
) -> UpdateTask {
    match owned(state.new_parent_id, state.user_id, reply) {
        Err(e) => UpdateTask::Done(Err(e)),
        Ok(_) => UpdateTask::FindSubtree(
            CheckSubtree {
                task_id: state.task_id,
                new_parent_id: state.new_parent_id,
                patch: state.patch,
            },
        ),
    }
}

/// How an update goes on once the subtree is known: the new parent must not be
/// in it.
pub open spec fn update_has_subtree(
    state: CheckSubtree,
    reply: Result<Vec<Uuid>, DomainError>,
) -> UpdateTask {
    match reply {
        Err(e) => UpdateTask::Done(Err(e)),
        Ok(ids) => if ids@.contains(state.new_parent_id) {
            UpdateTask::Done(Err(DomainError::CircularReference))
        } else {
            UpdateTask::Write(WritePatch { task_id: state.task_id, patch: state.patch })
        },
    }
}

/// The changes of a patch as they are published: the four plain fields, `null`
/// for those that it leaves alone.
pub open spec fn changes_of(patch: PatchView) -> Map<Seq<char>, JsonModel> {
    json::no_fields().insert("title"@, json::optional_text(patch.title)).insert(
        "description"@,
        json::optional_text(patch.description),
    ).insert(
        "status"@,
        json::optional_text(repository::optional_status_text(patch.status)),
    ).insert("estimated_mins"@, json::optional_number(patch.estimated_mins))
}

/// How an update goes on once the patch is written: the news of the change.
pub open spec fn update_is_written(
    state: WritePatch,
    reply: Result<Task, DomainError>,
    step: UpdateTask,
) -> bool {
    match reply {
        Err(e) => step == UpdateTask::Done(Err(e)),
        Ok(task) => match step {
            UpdateTask::Publish(news) => news.outcome == task && match news.event {
                TaskEvent::Updated(event) => event.task_id == state.task_id && json::json_fields(
                    event.changes,
                ) == changes_of(state.patch@),
                _ => false,
            },
            _ => false,
        },
    }
}

/// A text field, `null` where there is none.
fn text_field(value: &Option<String>) -> (field: JsonField)
    ensures
        field@ == json::optional_text(repository::optional_view(*value)),
{
    match value {
        Some(s) => JsonField::Text(s.clone()),
        None => JsonField::Null,
    }
}

/// The changes of a patch as they are published.
pub fn changes(patch: &TaskPatchRow) -> (object: JsonObject)
    ensures
        json::json_fields(object) == changes_of(patch@),
{
    let status: Option<String> = match &patch.status {
        Some(status) => Some(status.to_string()),
        None => None,
    };
    let estimated_mins = match patch.estimated_mins {
        Some(n) => JsonField::Number(n as i64),
        None => JsonField::Null,
    };
    let mut object = json::empty_object();
    json::set_field(&mut object, "title", text_field(&patch.title));
    json::set_field(&mut object, "description", text_field(&patch.description));
    json::set_field(&mut object, "status", text_field(&status));
    json::set_field(&mut object, "estimated_mins", estimated_mins);
    object
}

impl TaskService {
    /// Partial update with ownership check.
    pub fn update_task(task_id: Uuid, user_id: Uuid, input: UpdateTaskInput) -> (step: CheckTask)
        ensures
            step == (CheckTask { task_id, user_id, patch: patch_of(input) }),
    {
        let patch = TaskPatchRow {
            title: input.title,
            description: input.description,
            status: input.status,
            estimated_mins: input.estimated_mins,
            parent_id: input.parent_id,
        };
        CheckTask { task_id, user_id, patch }
    }
}

impl CheckTask {
    /// Asks for the task of this identifier.
    pub fn find_by_id(&self) -> (id: Uuid)
        ensures
            id == self.task_id,
    {
        self.task_id
    }

    /// Goes on with the task that was found.
    pub fn resume(self, reply: Result<Option<Task>, DomainError>) -> (step: UpdateTask)
        ensures
            step == update_has_task(self, reply),
    {
        let check = OwnershipCheck { task_id: self.task_id, user_id: self.user_id };
        match check.resume(reply) {
            Err(e) => UpdateTask::Done(Err(e)),
            Ok(_) => match self.patch.parent_id {
                Some(Some(new_parent_id)) => {
                    if new_parent_id == self.task_id {
                        UpdateTask::Done(Err(DomainError::SelfReference))
                    } else {
                        UpdateTask::FindParent(
                            CheckNewParent {
                                task_id: self.task_id,
                                user_id: self.user_id,
                                new_parent_id,
                                patch: self.patch,
                            },
                        )
                    }
                },
                _ => UpdateTask::Write(WritePatch { task_id: self.task_id, patch: self.patch }),
            },
        }
    }
}

impl CheckNewParent {
    /// Asks for the task of this identifier.
    pub fn find_by_id(&self) -> (id: Uuid)
        ensures
            id == self.new_parent_id,
    {
        self.new_parent_id
    }

    /// Goes on with the new parent that was found.
    pub fn resume(self, reply: Result<Option<Task>, DomainError>) -> (step: UpdateTask)
        ensures
            step == update_has_parent(self, reply),
    {
        let check = OwnershipCheck { task_id: self.new_parent_id, user_id: self.user_id };
        match check.resume(reply) {
            Err(e) => UpdateTask::Done(Err(e)),
            Ok(_) => UpdateTask::FindSubtree(
                CheckSubtree {
                    task_id: self.task_id,
                    new_parent_id: self.new_parent_id,
                    patch: self.patch,
                },
            ),
        }
    }
}

/// Whether an identifier is in a list.
fn is_listed(ids: &Vec<Uuid>, id: Uuid) -> (listed: bool)
    ensures
        listed == ids@.contains(id),
{
    let mut i: usize = 0;
    while i < ids.len()
        invariant
            i <= ids.len(),
            forall|j: int| 0 <= j < i ==> ids[j] != id,
        decreases ids.len() - i,
    {
        if ids[i] == id {
            assert(ids@[i as int] == id);
            return true;
        }
        i = i + 1;
    }
    false
}

impl CheckSubtree {
    /// Asks for the identifiers of the subtree that this identifier is the root of.
    pub fn find_subtree_ids(&self) -> (root_id: Uuid)
        ensures
            root_id == self.task_id,
    {
        self.task_id
    }

    /// Goes on with the identifiers of the subtree.
    pub fn resume(self, reply: Result<Vec<Uuid>, DomainError>) -> (step: UpdateTask)
        ensures
            step == update_has_subtree(self, reply),
    {
        match reply {
            Err(e) => UpdateTask::Done(Err(e)),
            Ok(ids) => {
                if is_listed(&ids, self.new_parent_id) {
                    UpdateTask::Done(Err(DomainError::CircularReference))
                } else {
                    UpdateTask::Write(WritePatch { task_id: self.task_id, patch: self.patch })
                }
            },
        }
    }
}

impl WritePatch {
    /// Asks for this patch to be written to the task of this identifier.
    pub fn update(&self) -> (request: (Uuid, &TaskPatchRow))
        ensures
            request.0 == self.task_id && *request.1 == self.patch,
    {
        (self.task_id, &self.patch)
    }

    /// Goes on with the task as stored.
    pub fn resume(self, reply: Result<Task, DomainError>) -> (step: UpdateTask)
        ensures
            update_is_written(self, reply, step),
    {
        match reply {
            Err(e) => UpdateTask::Done(Err(e)),
            Ok(task) => {
                let event = TaskUpdatedEvent {
                    task_id: self.task_id,
                    changes: changes(&self.patch),
                };
                UpdateTask::Publish(
                    Announcement { event: TaskEvent::Updated(event), outcome: task },
                )
            },
        }
    }
}

// Deleting a task.

/// How far the deletion of a task has come.
#[derive(Debug)]
pub enum DeleteTask {
    /// Mark the task deleted.
    Write(MarkDeleted),
    /// Publish the news.
    Publish(Announcement<()>),
    /// Nothing left to do.
    Done(Result<(), DomainError>),
}

/// A deletion that waits for its task to be looked up.
#[derive(Debug)]
pub struct CheckDeletion {
    pub task_id: Uuid,
    pub user_id: Uuid,
}

/// A deletion that may be written.
#[derive(Debug)]
pub struct MarkDeleted {
    pub task_id: Uuid,
}

/// How a deletion goes on once the task is looked up: it has to be there and
/// to belong to the user.
pub open spec fn delete_has_task(
    state: CheckDeletion,
    reply: Result<Option<Task>, DomainError>,
) -> DeleteTask {
    match owned(state.task_id, state.user_id, reply) {
        Err(e) => DeleteTask::Done(Err(e)),
        Ok(_) => DeleteTask::Write(MarkDeleted { task_id: state.task_id }),
    }
}

/// How a deletion goes on once it is written: the news of it.
pub open spec fn delete_is_written(
    state: MarkDeleted,
    reply: Result<(), DomainError>,
) -> DeleteTask {
    match reply {
        Err(e) => DeleteTask::Done(Err(e)),
        Ok(_) => DeleteTask::Publish(
            Announcement {
                event: TaskEvent::Deleted(TaskDeletedEvent { task_id: state.task_id }),
                outcome: (),
            },
        ),
    }
}

impl TaskService {
    /// Soft-delete with ownership check.
    pub fn delete_task(task_id: Uuid, user_id: Uuid) -> (step: CheckDeletion)
        ensures
            step == (CheckDeletion { task_id, user_id }),
    {
        CheckDeletion { task_id, user_id }
    }
}

impl CheckDeletion {
    /// Asks for the task of this identifier.
    pub fn find_by_id(&self) -> (id: Uuid)
        ensures
            id == self.task_id,
    {
        self.task_id
    }

    /// Goes on with the task that was found.
    pub fn resume(self, reply: Result<Option<Task>, DomainError>) -> (step: DeleteTask)
        ensures
            step == delete_has_task(self, reply),
    {
        let check = OwnershipCheck { task_id: self.task_id, user_id: self.user_id };
        match check.resume(reply) {
            Err(e) => DeleteTask::Done(Err(e)),
            Ok(_) => DeleteTask::Write(MarkDeleted { task_id: self.task_id }),
        }
    }
}

impl MarkDeleted {
    /// Asks for the task of this identifier to be marked deleted.
    pub fn soft_delete(&self) -> (id: Uuid)
        ensures
            id == self.task_id,
    {
        self.task_id
    }

    /// Goes on once the task is marked.
    pub fn resume(self, reply: Result<(), DomainError>) -> (step: DeleteTask)
        ensures
            step == delete_is_written(self, reply),
    {
        match reply {
            Err(e) => DeleteTask::Done(Err(e)),
            Ok(_) => {
                let event = TaskDeletedEvent { task_id: self.task_id };
                DeleteTask::Publish(
                    Announcement { event: TaskEvent::Deleted(event), outcome: () },
                )
            },
        }
    }
}

// Events from other services.

/// All tasks of a user, to be marked deleted.
#[derive(Debug)]
pub struct UserDeletion {
    pub user_id: Uuid,
}

impl UserDeletion {
    /// Asks for all tasks of this user to be marked deleted.
    pub fn soft_delete_by_user(&self) -> (user_id: Uuid)
        ensures
            user_id == self.user_id,
    {
        self.user_id
    }

    /// Ends, however many tasks there were.
    pub fn resume(self, reply: Result<u64, DomainError>) -> (done: Result<(), DomainError>)
        ensures
            done == match reply {
                Ok(_) => Ok::<(), DomainError>(()),
                Err(e) => Err(e),
            },
    {
        match reply {
            Ok(_) => Ok(()),
            Err(e) => Err(e),
        }
    }
}

/// How far the booking of a stopped timer has come.
#[derive(Debug)]
pub enum TimerBooking {
    /// Add minutes to the time spent on a task.
    Add(AddMinutes),
    /// Nothing left to do.
    Done(Result<(), DomainError>),
}

/// Minutes to be added to the time spent on a task.
#[derive(Debug)]
pub struct AddMinutes {
    pub task_id: Uuid,
    pub minutes: i32,
}

impl AddMinutes {
    /// Asks for minutes to be added to the time spent on a task.
    pub fn add_spent_mins(&self) -> (request: (Uuid, i32))
        ensures
            request == (self.task_id, self.minutes),
    {
        (self.task_id, self.minutes)
    }

    /// Ends once the minutes are added.
    pub fn resume(self, reply: Result<(), DomainError>) -> (done: Result<(), DomainError>)
        ensures
            done == reply,
    {
        reply
    }
}

/// The whole minutes of a number of seconds, rounded towards zero.
pub open spec fn whole_minutes(seconds: int) -> int {
    if seconds >= 0 {
        seconds / 60
    } else {
        -((-seconds) / 60)
    }
}

/// How a stopped timer is booked: by its whole minutes.  Less than a minute books
/// nothing, and neither do more minutes than a task can hold.
pub open spec fn timer_is_booked(event: TimerStoppedEvent, step: TimerBooking) -> bool {
    let minutes = whole_minutes(event.duration_seconds as int);
    if 1 <= minutes <= i32::MAX {
        step matches TimerBooking::Add(add) && add.task_id == event.task_id && add.minutes
            == minutes
    } else {
        step == TimerBooking::Done(Ok(()))
    }
}

impl TaskService {
    /// Handle `user.deleted` — soft-delete all tasks belonging to the user.
    pub fn handle_user_deleted(event: UserDeletedEvent) -> (step: UserDeletion)
        ensures
            step == (UserDeletion { user_id: event.user_id }),
    {
        UserDeletion { user_id: event.user_id }
    }

    /// Handle `timer.stopped` — add tracked minutes to task.spent_mins.
    pub fn handle_timer_stopped(event: TimerStoppedEvent) -> (step: TimerBooking)
        ensures
            timer_is_booked(event, step),
    {
        let minutes: i64 = event.duration_seconds / 60;
        assert(minutes == whole_minutes(event.duration_seconds as int));
        if 1 <= minutes && minutes <= i32::MAX as i64 {
            TimerBooking::Add(AddMinutes { task_id: event.task_id, minutes: minutes as i32 })
        } else {
            TimerBooking::Done(Ok(()))
        }
    }
}

} // verus!
