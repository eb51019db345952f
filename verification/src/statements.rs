//! What each statement asks of the tasks table, and what its rows are read as,
//! stated of the calls themselves.

use vstd::prelude::*;

use crate::domain::{DomainError, Task, TaskStatus, TaskView};
use crate::identifier::Uuid;
use crate::repository;
use crate::repository::{Bind, PgTaskRepository, Query, TaskCreateRow, TaskPatchRow, TaskRow};
use crate::table;
use crate::table::Table;

verus! {

// What is asked.

/// A text parameter says a text.
pub open spec fn is_text(bind: Bind, s: Seq<char>) -> bool {
    bind matches Bind::Text(text) && text@ == s
}

/// An optional text parameter says a text, or none.
pub open spec fn is_optional_text(bind: Bind, s: Option<Seq<char>>) -> bool {
    bind matches Bind::OptionalText(text) && match text {
        Some(text) => s == Some(text@),
        None => s is None,
    }
}

/// How a status is spelled in the table.
pub open spec fn spelled(status: TaskStatus) -> Seq<char> {
    match status {
        TaskStatus::Todo => "todo"@,
        TaskStatus::InProgress => "in_progress"@,
        TaskStatus::Done => "done"@,
        TaskStatus::Cancelled => "cancelled"@,
    }
}

/// The parameters of a query, one by one.
proof fn lemma_parameters(query: Query)
    ensures
        query.parameters().len() == query.binds@.len(),
        forall|i: int|
            0 <= i < query.binds@.len() ==> #[trigger] query.parameters()[i] == query.binds@[i]@,
{
}

/// An insertion names every column that is not the table's own, each with the
/// value of the row in the place of that column.
pub proof fn law_insertion_carries_the_row(row: TaskCreateRow, query: Query)
    requires
        call_ensures(PgTaskRepository::create, (&row,), query),
    ensures
        query.sql@
            == "INSERT INTO tasks (id, user_id, parent_id, title, description, status, estimated_mins) VALUES ($1, $2, $3, $4, $5, $6, $7) RETURNING *"@,
        query.binds@.len() == 7,
        query.binds@[0] == Bind::Id(row.id),
        query.binds@[1] == Bind::Id(row.user_id),
        query.binds@[2] == Bind::OptionalId(row.parent_id),
        is_text(query.binds@[3], row.title@),
        is_text(query.binds@[4], row.description@),
        is_text(query.binds@[5], spelled(row.status)),
        query.binds@[6] == Bind::Number(row.estimated_mins),
{
    lemma_parameters(query);
    assert(query.parameters()[0] == query.binds@[0]@);
    assert(query.parameters()[1] == query.binds@[1]@);
    assert(query.parameters()[2] == query.binds@[2]@);
    assert(query.parameters()[3] == query.binds@[3]@);
    assert(query.parameters()[4] == query.binds@[4]@);
    assert(query.parameters()[5] == query.binds@[5]@);
    assert(query.parameters()[6] == query.binds@[6]@);
}

/// An update sets each column that the patch names to the value that it names,
/// and leaves the others; the parent is set where the patch names one, or names
/// that there is none.  It goes to one live task.
pub proof fn law_update_carries_the_patch(id: Uuid, patch: TaskPatchRow, query: Query)
    requires
        call_ensures(PgTaskRepository::update, (id, &patch), query),
    ensures
        query.sql@
            == "UPDATE tasks SET title = COALESCE($2, title), description = COALESCE($3, description), status = COALESCE($4, status), estimated_mins = COALESCE($5, estimated_mins), parent_id = CASE WHEN $6 THEN $7 ELSE parent_id END WHERE id = $1 AND is_deleted = FALSE RETURNING *"@,
        query.binds@.len() == 7,
        query.binds@[0] == Bind::Id(id),
        is_optional_text(
            query.binds@[1],
            match patch.title {
                Some(title) => Some(title@),
                None => None,
            },
        ),
        is_optional_text(
            query.binds@[2],
            match patch.description {
                Some(description) => Some(description@),
                None => None,
            },
        ),
        is_optional_text(
            query.binds@[3],
            match patch.status {
                Some(status) => Some(spelled(status)),
                None => None,
            },
        ),
        query.binds@[4] == Bind::OptionalNumber(patch.estimated_mins),
        query.binds@[5] == Bind::Flag(patch.parent_id is Some),
        patch.parent_id matches Some(parent) ==> query.binds@[6] == Bind::OptionalId(parent),
        patch.parent_id is None ==> query.binds@[6] == Bind::OptionalId(None),
{
    lemma_parameters(query);
    assert(query.parameters()[0] == query.binds@[0]@);
    assert(query.parameters()[1] == query.binds@[1]@);
    assert(query.parameters()[2] == query.binds@[2]@);
    assert(query.parameters()[3] == query.binds@[3]@);
    assert(query.parameters()[4] == query.binds@[4]@);
    assert(query.parameters()[5] == query.binds@[5]@);
    assert(query.parameters()[6] == query.binds@[6]@);
}

/// A search, a walk down and a deletion are for the one live task they are called
/// for.
pub proof fn law_statements_on_one_task(id: Uuid, search: Query, walk: Query, deletion: Query)
    requires
        call_ensures(PgTaskRepository::find_by_id, (id,), search),
        call_ensures(PgTaskRepository::find_subtree_ids, (id,), walk),
        call_ensures(PgTaskRepository::soft_delete, (id,), deletion),
    ensures
        search.sql@ == "SELECT * FROM tasks WHERE id = $1 AND is_deleted = FALSE"@,
        search.binds@.len() == 1 && search.binds@[0] == Bind::Id(id),
        walk.sql@
            == "WITH RECURSIVE subtree AS (SELECT id FROM tasks WHERE id = $1 AND is_deleted = FALSE UNION ALL SELECT t.id FROM tasks t INNER JOIN subtree s ON t.parent_id = s.id WHERE t.is_deleted = FALSE) SELECT id FROM subtree"@,
        walk.binds@.len() == 1 && walk.binds@[0] == Bind::Id(id),
        deletion.sql@ == "UPDATE tasks SET is_deleted = TRUE WHERE id = $1 AND is_deleted = FALSE"@,
        deletion.binds@.len() == 1 && deletion.binds@[0] == Bind::Id(id),
{
    lemma_parameters(search);
    lemma_parameters(walk);
    lemma_parameters(deletion);
    assert(search.parameters()[0] == search.binds@[0]@);
    assert(walk.parameters()[0] == walk.binds@[0]@);
    assert(deletion.parameters()[0] == deletion.binds@[0]@);
}

/// A list is of the live tasks of the user it is called for, oldest first: below
/// the parent where there is one, else of those without.
pub proof fn law_listing_names_user_and_parent(
    user_id: Uuid,
    parent_id: Option<Uuid>,
    query: Query,
)
    requires
        call_ensures(PgTaskRepository::find_by_user_and_parent, (user_id, parent_id), query),
    ensures
        query.binds@.len() >= 1 && query.binds@[0] == Bind::Id(user_id),
        match parent_id {
            Some(parent) => {
                &&& query.sql@
                    == "SELECT * FROM tasks WHERE user_id = $1 AND parent_id = $2 AND is_deleted = FALSE ORDER BY created_at ASC"@
                &&& query.binds@.len() == 2
                &&& query.binds@[1] == Bind::Id(parent)
            },
            None => {
                &&& query.sql@
                    == "SELECT * FROM tasks WHERE user_id = $1 AND parent_id IS NULL AND is_deleted = FALSE ORDER BY created_at ASC"@
                &&& query.binds@.len() == 1
            },
        },
{
    lemma_parameters(query);
    assert(query.parameters()[0] == query.binds@[0]@);
    if parent_id is Some {
        assert(query.parameters()[1] == query.binds@[1]@);
    }
}

/// A fetch is of the live tasks of all the identifiers it is called for; only
/// where there are none is nothing asked.
pub proof fn law_fetch_names_all_identifiers(ids: Vec<Uuid>, query: Option<Query>)
    requires
        call_ensures(PgTaskRepository::find_by_ids, (&ids,), query),
    ensures
        query is None <==> ids@.len() == 0,
        query matches Some(q) ==> {
            &&& q.sql@ == "SELECT * FROM tasks WHERE id = ANY($1) AND is_deleted = FALSE"@
            &&& q.binds@.len() == 1
            &&& q.binds@[0] matches Bind::Ids(asked) && asked@ == ids@
        },
{
    if query is Some {
        lemma_parameters(query->0);
        assert(query->0.parameters()[0] == query->0.binds@[0]@);
    }
}

/// The deletion of a user's tasks names that user; a booking names its task and
/// its minutes.
pub proof fn law_event_statements(
    user_id: Uuid,
    deletion: Query,
    task_id: Uuid,
    minutes: i32,
    booking: Query,
)
    requires
        call_ensures(PgTaskRepository::soft_delete_by_user, (user_id,), deletion),
        call_ensures(PgTaskRepository::add_spent_mins, (task_id, minutes), booking),
    ensures
        deletion.sql@
            == "UPDATE tasks SET is_deleted = TRUE WHERE user_id = $1 AND is_deleted = FALSE"@,
        deletion.binds@.len() == 1 && deletion.binds@[0] == Bind::Id(user_id),
        booking.sql@
            == "UPDATE tasks SET spent_mins = spent_mins + $2 WHERE id = $1 AND is_deleted = FALSE"@,
        booking.binds@.len() == 2,
        booking.binds@[0] == Bind::Id(task_id),
        booking.binds@[1] == Bind::Number(minutes),
{
    lemma_parameters(deletion);
    lemma_parameters(booking);
    assert(deletion.parameters()[0] == deletion.binds@[0]@);
    assert(booking.parameters()[0] == booking.binds@[0]@);
    assert(booking.parameters()[1] == booking.binds@[1]@);
}

// What comes back.

/// Whether a text spells a status.
pub open spec fn spells_a_status(s: Seq<char>) -> bool {
    s == "todo"@ || s == "in_progress"@ || s == "done"@ || s == "cancelled"@
}

/// A task has the columns of a row, one by one.
pub open spec fn has_the_columns(task: Task, row: TaskRow) -> bool {
    &&& task.id == row.id
    &&& task.user_id == row.user_id
    &&& task.parent_id == row.parent_id
    &&& task.title@ == row.title@
    &&& task.description@ == row.description@
    &&& spelled(task.status) == row.status@
    &&& task.estimated_mins == row.estimated_mins
    &&& task.spent_mins == row.spent_mins
    &&& task.is_deleted == row.is_deleted
    &&& task.created_at == row.created_at
    &&& task.updated_at == row.updated_at
}

/// A row whose status is one reads as a task with the columns of the row; any
/// other row is refused by the name of its status.
pub proof fn law_row_reads_as_its_columns(row: TaskRow, read: Result<Task, DomainError>)
    requires
        call_ensures(Task::try_from, (row,), read),
    ensures
        read is Ok <==> spells_a_status(row.status@),
        match read {
            Ok(task) => has_the_columns(task, row),
            Err(e) => e matches DomainError::InvalidStatus(s) && s@ == row.status@,
        },
{
}

/// A row that was inserted, found or updated reads as its columns; where there is
/// no row, nothing was found, and there was nothing to update.
pub proof fn law_single_rows_read_as_their_columns(
    id: Uuid,
    row: TaskRow,
    created: Result<Task, DomainError>,
    found: Result<Option<Task>, DomainError>,
    not_found: Result<Option<Task>, DomainError>,
    updated: Result<Task, DomainError>,
    not_updated: Result<Task, DomainError>,
)
    requires
        call_ensures(PgTaskRepository::create_reply, (row,), created),
        call_ensures(PgTaskRepository::find_by_id_reply, (Some(row),), found),
        call_ensures(PgTaskRepository::find_by_id_reply, (None,), not_found),
        call_ensures(PgTaskRepository::update_reply, (id, Some(row)), updated),
        call_ensures(PgTaskRepository::update_reply, (id, None), not_updated),
    ensures
        created is Ok <==> spells_a_status(row.status@),
        found is Ok <==> spells_a_status(row.status@),
        updated is Ok <==> spells_a_status(row.status@),
        match created {
            Ok(task) => has_the_columns(task, row),
            Err(e) => e matches DomainError::InvalidStatus(s) && s@ == row.status@,
        },
        match found {
            Ok(Some(task)) => has_the_columns(task, row),
            Ok(None) => false,
            Err(e) => e matches DomainError::InvalidStatus(s) && s@ == row.status@,
        },
        match updated {
            Ok(task) => has_the_columns(task, row),
            Err(e) => e matches DomainError::InvalidStatus(s) && s@ == row.status@,
        },
        not_found == Ok::<Option<Task>, DomainError>(None),
        not_updated == Err::<Task, DomainError>(DomainError::NotFound(id)),
{
}

/// Rows are read one for one: as many tasks as rows, in the same order, each with
/// the columns of its row.  Where some row cannot be read, the first such is what
/// is refused.
pub proof fn law_rows_read_one_for_one(rows: Vec<TaskRow>, read: Result<Vec<Task>, DomainError>)
    requires
        call_ensures(PgTaskRepository::rows_reply, (rows,), read),
    ensures
        read is Ok <==> forall|i: int|
            0 <= i < rows@.len() ==> spells_a_status((#[trigger] rows@[i]).status@),
        match read {
            Ok(tasks) => {
                &&& tasks@.len() == rows@.len()
                &&& forall|i: int|
                    0 <= i < rows@.len() ==> has_the_columns(#[trigger] tasks@[i], rows@[i])
            },
            Err(e) => exists|i: int|
                {
                    &&& 0 <= i < rows@.len()
                    &&& !spells_a_status((#[trigger] rows@[i]).status@)
                    &&& e matches DomainError::InvalidStatus(s) && s@ == rows@[i].status@
                    &&& forall|j: int|
                        0 <= j < i ==> spells_a_status((#[trigger] rows@[j]).status@)
                },
        },
{
    match read {
        Ok(tasks) => {
            assert forall|i: int| 0 <= i < rows@.len() implies has_the_columns(
                #[trigger] tasks@[i],
                rows@[i],
            ) && spells_a_status(rows@[i].status@) by {
                assert(repository::row_reads_as(rows@[i], Ok::<Task, DomainError>(tasks[i])));
            }
            assert forall|i: int| 0 <= i < rows@.len() implies spells_a_status(
                (#[trigger] rows@[i]).status@,
            ) by {
                assert(has_the_columns(tasks@[i], rows@[i]));
            }
        },
        Err(e) => {
            let i = choose|i: int|
                0 <= i < rows@.len() && repository::row_reads_as(
                    #[trigger] rows@[i],
                    Err::<Task, DomainError>(e),
                ) && forall|j: int| 0 <= j < i ==> repository::row_is_readable(#[trigger] rows@[j]);
            assert(!spells_a_status(rows@[i].status@));
            assert forall|j: int| 0 <= j < i implies spells_a_status(
                (#[trigger] rows@[j]).status@,
            ) by {
                assert(repository::row_is_readable(rows@[j]));
            }
        },
    }
}

/// Rows that hold tasks one for one are read as these tasks, as many and in the
/// same order.
pub proof fn law_rows_give_the_tasks_they_hold(
    rows: Vec<TaskRow>,
    held: Seq<TaskView>,
    read: Result<Vec<Task>, DomainError>,
)
    requires
        call_ensures(PgTaskRepository::rows_reply, (rows,), read),
        held.len() == rows@.len(),
        forall|i: int| 0 <= i < held.len() ==> repository::row_holds(rows@[i], #[trigger] held[i]),
    ensures
        read is Ok,
        read->Ok_0@.len() == held.len(),
        forall|i: int| 0 <= i < held.len() ==> (#[trigger] read->Ok_0@[i])@ == held[i],
{
    law_rows_read_one_for_one(rows, read);
    assert forall|i: int| 0 <= i < rows@.len() implies spells_a_status(
        (#[trigger] rows@[i]).status@,
    ) by {
        assert(repository::row_holds(rows@[i], held[i]));
    }
    assert forall|i: int| 0 <= i < held.len() implies (#[trigger] read->Ok_0@[i])@ == held[i] by {
        let task = read->Ok_0@[i];
        assert(has_the_columns(task, rows@[i]));
        assert(repository::row_holds(rows@[i], held[i]));
        lemma_spelled_once(task.status, held[i].status);
    }
}

proof fn lemma_spelled_once(a: TaskStatus, b: TaskStatus)
    ensures
        spelled(a) == spelled(b) ==> a == b,
{
    reveal_strlit("todo");
    reveal_strlit("in_progress");
    reveal_strlit("done");
    reveal_strlit("cancelled");
    assert("todo"@.len() == 4);
    assert("done"@.len() == 4);
    assert("todo"@[0] != "done"@[0]);
    assert("in_progress"@.len() == 11);
    assert("cancelled"@.len() == 9);
}

/// The rows of the live tasks of a user with a given parent, by age, answer a
/// list; the rows of the live tasks among given identifiers answer a fetch.
pub proof fn law_rows_answer_lists_and_fetches(
    t: Table,
    user_id: Uuid,
    parent_id: Option<Uuid>,
    ids: Seq<Uuid>,
    rows: Vec<TaskRow>,
    held: Seq<TaskView>,
    read: Result<Vec<Task>, DomainError>,
)
    requires
        call_ensures(PgTaskRepository::rows_reply, (rows,), read),
        held.len() == rows@.len(),
        forall|i: int| 0 <= i < held.len() ==> repository::row_holds(rows@[i], #[trigger] held[i]),
        table::lists_live_tasks(t, held),
    ensures
        (forall|id: Uuid| #[trigger]
            table::lists(held, id) <==> table::is_live(t, id) && t[id].user_id == user_id
                && t[id].parent_id == parent_id) && (forall|i: int, j: int|
            0 <= i < j < held.len() ==> (#[trigger] held[i]).created_at.micros <= (
            #[trigger] held[j]).created_at.micros) ==> table::answers_listing(
            t,
            user_id,
            parent_id,
            read,
        ),
        (forall|id: Uuid| #[trigger]
            table::lists(held, id) <==> table::is_live(t, id) && ids.contains(id))
            ==> table::answers_fetch(t, ids, read),
{
    law_rows_give_the_tasks_they_hold(rows, held, read);
    assert(crate::domain::task_views(read->Ok_0@) =~= held) by {
        assert forall|i: int| 0 <= i < held.len() implies crate::domain::task_views(
            read->Ok_0@,
        )[i] == held[i] by {
            assert(read->Ok_0@[i]@ == held[i]);
        }
    }
}

/// Of the identifiers that come back, each is kept and none comes in; where none
/// is empty, they are kept one for one and in order.
pub proof fn law_subtree_identifiers_are_kept(rows: Vec<Option<Uuid>>, ids: Vec<Uuid>, id: Uuid)
    requires
        call_ensures(PgTaskRepository::find_subtree_ids_reply, (rows,), ids),
    ensures
        ids@.contains(id) <==> rows@.contains(Some(id)),
        (forall|i: int| 0 <= i < rows@.len() ==> (#[trigger] rows@[i]) is Some) ==> ids@.len()
            == rows@.len() && forall|i: int|
            0 <= i < rows@.len() ==> Some(#[trigger] ids@[i]) == rows@[i],
{
    repository::lemma_present_rows(rows@);
}

/// A deletion that reached no row found no task, and one that did succeeded; the
/// deletion of a user's tasks answers the number of rows it reached; a booking
/// succeeds whether or not it reached one.
pub proof fn law_reached_rows_decide(
    id: Uuid,
    rows_affected: u64,
    deleted: Result<(), DomainError>,
    count: Result<u64, DomainError>,
    added: Result<(), DomainError>,
)
    requires
        call_ensures(PgTaskRepository::soft_delete_reply, (id, rows_affected), deleted),
        call_ensures(PgTaskRepository::soft_delete_by_user_reply, (rows_affected,), count),
        call_ensures(PgTaskRepository::add_spent_mins_reply, (rows_affected,), added),
    ensures
        rows_affected > 0 ==> deleted == Ok::<(), DomainError>(()),
        rows_affected == 0 ==> deleted == Err::<(), DomainError>(DomainError::NotFound(id)),
        count == Ok::<u64, DomainError>(rows_affected),
        added == Ok::<(), DomainError>(()),
{
}

} // verus!
