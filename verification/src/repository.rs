//! The tasks table: what is asked of it, and what its replies mean.
//!
//! Each method of [`PgTaskRepository`] gives the statement and the parameters
//! to run; each `.._reply` turns what came back into a result.

use vstd::prelude::*;

use crate::domain;
use crate::domain::{DomainError, ErrorView, Task, TaskStatus, TaskView, Timestamp};
use crate::identifier::Uuid;

verus! {

// Rows that go in.

/// The columns of a task to be inserted.
#[derive(Debug)]
pub struct TaskCreateRow {
    pub id: Uuid,
    pub user_id: Uuid,
    pub parent_id: Option<Uuid>,
    pub title: String,
    pub description: String,
    pub status: TaskStatus,
    pub estimated_mins: i32,
}

/// What an insertion says.
pub struct CreateRowView {
    pub id: Uuid,
    pub user_id: Uuid,
    pub parent_id: Option<Uuid>,
    pub title: Seq<char>,
    pub description: Seq<char>,
    pub status: TaskStatus,
    pub estimated_mins: i32,
}

impl View for TaskCreateRow {
    type V = CreateRowView;

    open spec fn view(&self) -> CreateRowView {
        CreateRowView {
            id: self.id,
            user_id: self.user_id,
            parent_id: self.parent_id,
            title: self.title@,
            description: self.description@,
            status: self.status,
            estimated_mins: self.estimated_mins,
        }
    }
}

/// New values for some columns of a task.
#[derive(Debug)]
pub struct TaskPatchRow {
    pub title: Option<String>,
    pub description: Option<String>,
    pub status: Option<TaskStatus>,
    pub estimated_mins: Option<i32>,
    /// `Some(None)` takes the parent away.
    pub parent_id: Option<Option<Uuid>>,
}

/// What a patch says.
pub struct PatchView {
    pub title: Option<Seq<char>>,
    pub description: Option<Seq<char>>,
    pub status: Option<TaskStatus>,
    pub estimated_mins: Option<i32>,
    pub parent_id: Option<Option<Uuid>>,
}

/// What an optional text says.
pub open spec fn optional_view(value: Option<String>) -> Option<Seq<char>> {
    match value {
        Some(s) => Some(s@),
        None => None,
    }
}

impl View for TaskPatchRow {
    type V = PatchView;

    open spec fn view(&self) -> PatchView {
        PatchView {
            title: optional_view(self.title),
            description: optional_view(self.description),
            status: self.status,
            estimated_mins: self.estimated_mins,
            parent_id: self.parent_id,
        }
    }
}

// Rows that come out.

/// A row of the table, column by column.
#[derive(Debug)]
pub struct TaskRow {
    pub id: Uuid,
    pub user_id: Uuid,
    pub parent_id: Option<Uuid>,
    pub title: String,
    pub description: String,
    pub status: String,
    pub estimated_mins: i32,
    pub spent_mins: i32,
    pub is_deleted: bool,
    pub created_at: Timestamp,
    pub updated_at: Timestamp,
}

/// The task that a row stands for, once its status is read.
pub open spec fn row_task(row: TaskRow, status: TaskStatus) -> TaskView {
    TaskView {
        id: row.id,
        user_id: row.user_id,
        parent_id: row.parent_id,
        title: row.title@,
        description: row.description@,
        status,
        estimated_mins: row.estimated_mins,
        spent_mins: row.spent_mins,
        is_deleted: row.is_deleted,
        created_at: row.created_at,
        updated_at: row.updated_at,
    }
}

/// What comes of reading a row: the task, or a refusal of its status.
pub open spec fn row_reads_as(row: TaskRow, read: Result<Task, DomainError>) -> bool {
    match domain::status_of_text(row.status@) {
        Some(status) => read is Ok && read->Ok_0@ == row_task(row, status),
        None => read is Err && read->Err_0@ == ErrorView::InvalidStatus(row.status@),
    }
}

impl Task {
    /// The task that a row stands for; a status in other words is refused.
    pub fn try_from(row: TaskRow) -> (task: Result<Task, DomainError>)
        ensures
            row_reads_as(row, task),
    {
        match TaskStatus::from_str(row.status.as_str()) {
            Ok(status) => Ok(
                Task {
                    id: row.id,
                    user_id: row.user_id,
                    parent_id: row.parent_id,
                    title: row.title,
                    description: row.description,
                    status,
                    estimated_mins: row.estimated_mins,
                    spent_mins: row.spent_mins,
                    is_deleted: row.is_deleted,
                    created_at: row.created_at,
                    updated_at: row.updated_at,
                },
            ),
            Err(e) => Err(e),
        }
    }
}

// Statements.

/// A parameter of a statement.
#[derive(Debug)]
pub enum Bind {
    Id(Uuid),
    OptionalId(Option<Uuid>),
    Ids(Vec<Uuid>),
    Text(String),
    OptionalText(Option<String>),
    Number(i32),
    OptionalNumber(Option<i32>),
    Flag(bool),
}

/// What a parameter says.
pub enum BindView {
    Id(Uuid),
    OptionalId(Option<Uuid>),
    Ids(Seq<Uuid>),
    Text(Seq<char>),
    OptionalText(Option<Seq<char>>),
    Number(i32),
    OptionalNumber(Option<i32>),
    Flag(bool),
}

impl View for Bind {
    type V = BindView;

    open spec fn view(&self) -> BindView {
        match *self {
            Bind::Id(id) => BindView::Id(id),
            Bind::OptionalId(id) => BindView::OptionalId(id),
            Bind::Ids(ids) => BindView::Ids(ids@),
            Bind::Text(s) => BindView::Text(s@),
            Bind::OptionalText(s) => BindView::OptionalText(optional_view(s)),
            Bind::Number(n) => BindView::Number(n),
            Bind::OptionalNumber(n) => BindView::OptionalNumber(n),
            Bind::Flag(b) => BindView::Flag(b),
        }
    }
}

/// A statement with its parameters, in order.
#[derive(Debug)]
pub struct Query {
    pub sql: &'static str,
    pub binds: Vec<Bind>,
}

impl Query {
    /// What the parameters say, in order.
    pub open spec fn parameters(&self) -> Seq<BindView> {
        self.binds@.map_values(|b: Bind| b@)
    }
}

pub const CREATE: &'static str = "INSERT INTO tasks (id, user_id, parent_id, title, description, status, estimated_mins) VALUES ($1, $2, $3, $4, $5, $6, $7) RETURNING *";

pub const FIND_BY_ID: &'static str = "SELECT * FROM tasks WHERE id = $1 AND is_deleted = FALSE";

pub const FIND_CHILDREN: &'static str = "SELECT * FROM tasks WHERE user_id = $1 AND parent_id = $2 AND is_deleted = FALSE ORDER BY created_at ASC";

pub const FIND_ROOTS: &'static str = "SELECT * FROM tasks WHERE user_id = $1 AND parent_id IS NULL AND is_deleted = FALSE ORDER BY created_at ASC";

pub const FIND_SUBTREE_IDS: &'static str = "WITH RECURSIVE subtree AS (SELECT id FROM tasks WHERE id = $1 AND is_deleted = FALSE UNION ALL SELECT t.id FROM tasks t INNER JOIN subtree s ON t.parent_id = s.id WHERE t.is_deleted = FALSE) SELECT id FROM subtree";

pub const FIND_BY_IDS: &'static str = "SELECT * FROM tasks WHERE id = ANY($1) AND is_deleted = FALSE";

pub const UPDATE: &'static str = "UPDATE tasks SET title = COALESCE($2, title), description = COALESCE($3, description), status = COALESCE($4, status), estimated_mins = COALESCE($5, estimated_mins), parent_id = CASE WHEN $6 THEN $7 ELSE parent_id END WHERE id = $1 AND is_deleted = FALSE RETURNING *";

pub const SOFT_DELETE: &'static str = "UPDATE tasks SET is_deleted = TRUE WHERE id = $1 AND is_deleted = FALSE";

pub const SOFT_DELETE_BY_USER: &'static str = "UPDATE tasks SET is_deleted = TRUE WHERE user_id = $1 AND is_deleted = FALSE";

pub const ADD_SPENT_MINS: &'static str = "UPDATE tasks SET spent_mins = spent_mins + $2 WHERE id = $1 AND is_deleted = FALSE";

/// The status of a patch in words, where it has one.
pub open spec fn optional_status_text(status: Option<TaskStatus>) -> Option<Seq<char>> {
    match status {
        Some(status) => Some(domain::status_text(status)),
        None => None,
    }
}

/// The parent that a patch sets: the new one, or none where it takes the
/// parent away or leaves it alone.
pub open spec fn new_parent(parent_id: Option<Option<Uuid>>) -> Option<Uuid> {
    match parent_id {
        Some(parent) => parent,
        None => None,
    }
}

/// The table of a PostgreSQL database.
pub struct PgTaskRepository;

impl PgTaskRepository {
    /// Inserts a task and gives back the row as stored.
    pub fn create(row: &TaskCreateRow) -> (query: Query)
        ensures
            query.sql@ == CREATE@,
            query.parameters() == seq![
                BindView::Id(row.id),
                BindView::Id(row.user_id),
                BindView::OptionalId(row.parent_id),
                BindView::Text(row.title@),
                BindView::Text(row.description@),
                BindView::Text(domain::status_text(row.status)),
                BindView::Number(row.estimated_mins),
            ],
    {
        let binds: Vec<Bind> = vec![
            Bind::Id(row.id),
            Bind::Id(row.user_id),
            Bind::OptionalId(row.parent_id),
            Bind::Text(row.title.clone()),
            Bind::Text(row.description.clone()),
            Bind::Text(row.status.to_string()),
            Bind::Number(row.estimated_mins),
        ];
        Query { sql: CREATE, binds }
    }

    /// The task as stored.
    pub fn create_reply(row: TaskRow) -> (task: Result<Task, DomainError>)
        ensures
            row_reads_as(row, task),
    {
        Task::try_from(row)
    }

    /// Looks for a task that is not deleted.
    pub fn find_by_id(id: Uuid) -> (query: Query)
        ensures
            query.sql@ == FIND_BY_ID@,
            query.parameters() == seq![BindView::Id(id)],
    {
        let binds: Vec<Bind> = vec![Bind::Id(id)];
        Query { sql: FIND_BY_ID, binds }
    }

    /// The task found, if any.
    pub fn find_by_id_reply(row: Option<TaskRow>) -> (task: Result<Option<Task>, DomainError>)
        ensures
            found_row_reads_as(row, task),
    {
        match row {
            None => Ok(None),
            Some(row) => match Task::try_from(row) {
                Ok(task) => Ok(Some(task)),
                Err(e) => Err(e),
            },
        }
    }

    /// Lists the tasks of a user below a parent, or those without a parent,
    /// oldest first.
    pub fn find_by_user_and_parent(user_id: Uuid, parent_id: Option<Uuid>) -> (query: Query)
        ensures
            match parent_id {
                Some(parent) => query.sql@ == FIND_CHILDREN@ && query.parameters() == seq![
                    BindView::Id(user_id),
                    BindView::Id(parent),
                ],
                None => query.sql@ == FIND_ROOTS@ && query.parameters() == seq![
                    BindView::Id(user_id),
                ],
            },
    {
        match parent_id {
            Some(parent) => {
                let binds: Vec<Bind> = vec![Bind::Id(user_id), Bind::Id(parent)];
                Query { sql: FIND_CHILDREN, binds }
            },
            None => {
                let binds: Vec<Bind> = vec![Bind::Id(user_id)];
                Query { sql: FIND_ROOTS, binds }
            },
        }
    }

    /// The tasks that rows stand for, in order; the first row that cannot be
    /// read decides the refusal.
    pub fn rows_reply(rows: Vec<TaskRow>) -> (tasks: Result<Vec<Task>, DomainError>)
        ensures
            rows_read_as(rows@, tasks),
    {
        let mut tasks: Vec<Task> = Vec::new();
        for row in it: rows
            invariant
                it.seq() == rows@,
                tasks.len() == it.index(),
                forall|j: int|
                    0 <= j < it.index() ==> row_reads_as(
                        rows@[j],
                        Ok::<Task, DomainError>(#[trigger] tasks[j]),
                    ),
        {
            match Task::try_from(row) {
                Ok(task) => {
                    tasks.push(task);
                },
                Err(e) => {
                    assert(row_reads_as(rows@[it.index()], Err::<Task, DomainError>(e)));
                    assert forall|j: int| 0 <= j < it.index() implies row_is_readable(
                        #[trigger] rows@[j],
                    ) by {
                        assert(row_reads_as(rows@[j], Ok::<Task, DomainError>(tasks[j])));
                    }
                    return Err(e);
                },
            }
        }
        Ok(tasks)
    }

    /// Walks down from a task to the identifiers of its whole subtree.
    pub fn find_subtree_ids(root_id: Uuid) -> (query: Query)
        ensures
            query.sql@ == FIND_SUBTREE_IDS@,
            query.parameters() == seq![BindView::Id(root_id)],
    {
        let binds: Vec<Bind> = vec![Bind::Id(root_id)];
        Query { sql: FIND_SUBTREE_IDS, binds }
    }

    /// The identifiers that came back, without the empty ones.
    pub fn find_subtree_ids_reply(rows: Vec<Option<Uuid>>) -> (ids: Vec<Uuid>)
        ensures
            ids@ == rows@.filter_map(|id: Option<Uuid>| id),
            ids@ == present(rows@),
    {
        let mut ids: Vec<Uuid> = Vec::new();
        let mut i: usize = 0;
        assert(rows@.take(0).filter_map(|id: Option<Uuid>| id) =~= Seq::empty()) by {
            reveal(Seq::filter_map);
        }
        while i < rows.len()
            invariant
                i <= rows.len(),
                ids@ == rows@.take(i as int).filter_map(|id: Option<Uuid>| id),
            decreases rows.len() - i,
        {
            proof {
                rows@.lemma_filter_map_take_succ(|id: Option<Uuid>| id, i as int);
            }
            if let Some(id) = rows[i] {
                ids.push(id);
            }
            i = i + 1;
        }
        assert(rows@.take(rows@.len() as int) =~= rows@);
        ids
    }

    /// Fetches the tasks of a list that are not deleted; an empty list is not
    /// asked for.
    pub fn find_by_ids(ids: &Vec<Uuid>) -> (query: Option<Query>)
        ensures
            match query {
                Some(query) => ids@.len() > 0 && query.sql@ == FIND_BY_IDS@ && query.parameters()
                    == seq![BindView::Ids(ids@)],
                None => ids@.len() == 0,
            },
    {
        if ids.len() == 0 {
            None
        } else {
            let mut copy: Vec<Uuid> = Vec::new();
            let mut i: usize = 0;
            while i < ids.len()
                invariant
                    i <= ids.len(),
                    copy@ == ids@.take(i as int),
                decreases ids.len() - i,
            {
                copy.push(ids[i]);
                i = i + 1;
                assert(copy@ =~= ids@.take(i as int));
            }
            assert(ids@.take(ids@.len() as int) =~= ids@);
            let binds: Vec<Bind> = vec![Bind::Ids(copy)];
            Some(Query { sql: FIND_BY_IDS, binds })
        }
    }

    /// Sets the columns that a patch names and gives back the row as stored.
    pub fn update(id: Uuid, patch: &TaskPatchRow) -> (query: Query)
        ensures
            query.sql@ == UPDATE@,
            query.parameters() == seq![
                BindView::Id(id),
                BindView::OptionalText(patch@.title),
                BindView::OptionalText(patch@.description),
                BindView::OptionalText(optional_status_text(patch.status)),
                BindView::OptionalNumber(patch.estimated_mins),
                BindView::Flag(patch.parent_id is Some),
                BindView::OptionalId(new_parent(patch.parent_id)),
            ],
    {
        let status: Option<String> = match &patch.status {
            Some(status) => Some(status.to_string()),
            None => None,
        };
        let parent: Option<Uuid> = match patch.parent_id {
            Some(parent) => parent,
            None => None,
        };
        let binds: Vec<Bind> = vec![
            Bind::Id(id),
            Bind::OptionalText(copied(&patch.title)),
            Bind::OptionalText(copied(&patch.description)),
            Bind::OptionalText(status),
            Bind::OptionalNumber(patch.estimated_mins),
            Bind::Flag(patch.parent_id.is_some()),
            Bind::OptionalId(parent),
        ];
        Query { sql: UPDATE, binds }
    }

    /// The task as stored, or that there is none to update.
    pub fn update_reply(id: Uuid, row: Option<TaskRow>) -> (task: Result<Task, DomainError>)
        ensures
            updated_row_reads_as(id, row, task),
    {
        match row {
            Some(row) => Task::try_from(row),
            None => Err(DomainError::NotFound(id)),
        }
    }

    /// Marks a task deleted.
    pub fn soft_delete(id: Uuid) -> (query: Query)
        ensures
            query.sql@ == SOFT_DELETE@,
            query.parameters() == seq![BindView::Id(id)],
    {
        let binds: Vec<Bind> = vec![Bind::Id(id)];
        Query { sql: SOFT_DELETE, binds }
    }

    /// Whether there was a task to mark.
    pub fn soft_delete_reply(id: Uuid, rows_affected: u64) -> (deleted: Result<(), DomainError>)
        ensures
            deleted == deletion_of_rows(id, rows_affected),
    {
        if rows_affected == 0 {
            return Err(DomainError::NotFound(id));
        }
        Ok(())
    }

    /// Marks all tasks of a user deleted.
    pub fn soft_delete_by_user(user_id: Uuid) -> (query: Query)
        ensures
            query.sql@ == SOFT_DELETE_BY_USER@,
            query.parameters() == seq![BindView::Id(user_id)],
    {
        let binds: Vec<Bind> = vec![Bind::Id(user_id)];
        Query { sql: SOFT_DELETE_BY_USER, binds }
    }

    /// How many tasks were marked: all that the statement reached.
    pub fn soft_delete_by_user_reply(rows_affected: u64) -> (count: Result<u64, DomainError>)
        ensures
            count == Ok::<u64, DomainError>(rows_affected),
    {
        Ok(rows_affected)
    }

    /// Adds minutes to the time spent on a task.
    pub fn add_spent_mins(task_id: Uuid, minutes: i32) -> (query: Query)
        ensures
            query.sql@ == ADD_SPENT_MINS@,
            query.parameters() == seq![BindView::Id(task_id), BindView::Number(minutes)],
    {
        let binds: Vec<Bind> = vec![Bind::Id(task_id), Bind::Number(minutes)];
        Query { sql: ADD_SPENT_MINS, binds }
    }

    /// That the minutes are booked, whether or not there was a task to book them
    /// on.
    pub fn add_spent_mins_reply(rows_affected: u64) -> (added: Result<(), DomainError>)
        ensures
            added == Ok::<(), DomainError>(()),
    {
        Ok(())
    }
}

/// What comes of a search: nothing, or what the row found reads as.
pub open spec fn found_row_reads_as(
    row: Option<TaskRow>,
    read: Result<Option<Task>, DomainError>,
) -> bool {
    match row {
        None => read == Ok::<Option<Task>, DomainError>(None),
        Some(row) => match read {
            Ok(Some(task)) => row_reads_as(row, Ok(task)),
            Ok(None) => false,
            Err(e) => row_reads_as(row, Err(e)),
        },
    }
}

/// What comes of an update: what the row as stored reads as, or that there is
/// none.
pub open spec fn updated_row_reads_as(
    id: Uuid,
    row: Option<TaskRow>,
    read: Result<Task, DomainError>,
) -> bool {
    match row {
        Some(row) => row_reads_as(row, read),
        None => read == Err::<Task, DomainError>(DomainError::NotFound(id)),
    }
}

/// What comes of a deletion that reached this many rows.
pub open spec fn deletion_of_rows(id: Uuid, rows_affected: u64) -> Result<(), DomainError> {
    if rows_affected == 0 {
        Err(DomainError::NotFound(id))
    } else {
        Ok(())
    }
}

/// The identifiers among rows, in order, without the empty ones.
pub open spec fn present(rows: Seq<Option<Uuid>>) -> Seq<Uuid> {
    rows.filter_map(|id: Option<Uuid>| id)
}

/// Every identifier among the rows is kept, and no other comes in; where no row
/// is empty, they are kept one for one.
pub proof fn lemma_present_rows(rows: Seq<Option<Uuid>>)
    ensures
        forall|id: Uuid| #[trigger] present(rows).contains(id) <==> rows.contains(Some(id)),
        (forall|i: int| 0 <= i < rows.len() ==> (#[trigger] rows[i]) is Some) ==> present(rows)
            == rows.map_values(|id: Option<Uuid>| id->0),
    decreases rows.len(),
{
    reveal(Seq::filter_map);
    if rows.len() > 0 {
        let rest = rows.drop_last();
        lemma_present_rows(rest);
        assert(rest.push(rows.last()) =~= rows);
        assert forall|id: Uuid| #[trigger] present(rows).contains(id) <==> rows.contains(
            Some(id),
        ) by {
            assert(rows.contains(Some(id)) <==> rest.contains(Some(id)) || rows.last() == Some(
                id,
            )) by {
                if rows.contains(Some(id)) {
                    let i = choose|i: int| 0 <= i < rows.len() && rows[i] == Some(id);
                    if i < rest.len() {
                        assert(rest[i] == Some(id));
                    }
                }
                if rest.contains(Some(id)) {
                    let i = choose|i: int| 0 <= i < rest.len() && rest[i] == Some(id);
                    assert(rows[i] == Some(id));
                }
                if rows.last() == Some(id) {
                    assert(rows[rows.len() - 1] == Some(id));
                }
            }
            match rows.last() {
                Some(last) => {
                    assert(present(rows) == present(rest).push(last));
                    if present(rest).contains(id) {
                        let i = choose|i: int|
                            0 <= i < present(rest).len() && present(rest)[i] == id;
                        assert(present(rows)[i] == id);
                    }
                    if last == id {
                        assert(present(rows)[present(rest).len() as int] == id);
                    }
                },
                None => {
                    assert(present(rows) == present(rest));
                },
            }
        }
        if forall|i: int| 0 <= i < rows.len() ==> (#[trigger] rows[i]) is Some {
            assert forall|i: int| 0 <= i < rest.len() implies (#[trigger] rest[i]) is Some by {
                assert(rest[i] == rows[i]);
            }
            assert(rows[rows.len() - 1] is Some);
            assert(present(rows) =~= rows.map_values(|id: Option<Uuid>| id->0));
        }
    } else {
        assert(present(rows) =~= rows.map_values(|id: Option<Uuid>| id->0));
    }
}

/// A row that holds a task, column by column.
pub open spec fn row_holds(row: TaskRow, task: TaskView) -> bool {
    &&& row.id == task.id
    &&& row.user_id == task.user_id
    &&& row.parent_id == task.parent_id
    &&& row.title@ == task.title
    &&& row.description@ == task.description
    &&& row.status@ == match task.status {
        TaskStatus::Todo => "todo"@,
        TaskStatus::InProgress => "in_progress"@,
        TaskStatus::Done => "done"@,
        TaskStatus::Cancelled => "cancelled"@,
    }
    &&& row.estimated_mins == task.estimated_mins
    &&& row.spent_mins == task.spent_mins
    &&& row.is_deleted == task.is_deleted
    &&& row.created_at == task.created_at
    &&& row.updated_at == task.updated_at
}

/// Whether the status of a row can be read.
pub open spec fn row_is_readable(row: TaskRow) -> bool {
    domain::status_of_text(row.status@) is Some
}

/// What comes of reading rows: the tasks in order, or the refusal of the first
/// row that cannot be read.
pub open spec fn rows_read_as(rows: Seq<TaskRow>, read: Result<Vec<Task>, DomainError>) -> bool {
    match read {
        Ok(tasks) => tasks.len() == rows.len() && forall|i: int|
            0 <= i < rows.len() ==> row_reads_as(
                rows[i],
                Ok::<Task, DomainError>(#[trigger] tasks[i]),
            ),
        Err(e) => exists|i: int|
            0 <= i < rows.len() && row_reads_as(#[trigger] rows[i], Err::<Task, DomainError>(e))
                && forall|j: int| 0 <= j < i ==> row_is_readable(#[trigger] rows[j]),
    }
}

/// An optional text once more.
fn copied(value: &Option<String>) -> (copy: Option<String>)
    ensures
        optional_view(copy) == optional_view(*value),
{
    match value {
        Some(s) => Some(s.clone()),
        None => None,
    }
}

} // verus!
