//! What the tasks table holds, and what each statement of the repository reads
//! from it or does to it.
//!
//! A table is a map from identifiers to tasks.  Statements run one at a time
//! here; that another request may write between two statements of one operation
//! is left out.

use vstd::prelude::*;

use crate::domain;
use crate::domain::{DomainError, Task, TaskView};
use crate::identifier::Uuid;
use crate::repository::{CreateRowView, PatchView};

verus! {

/// The tasks of the table, by identifier.
pub type Table = Map<Uuid, TaskView>;

/// A task that is there and not marked deleted.
pub open spec fn is_live(t: Table, id: Uuid) -> bool {
    t.contains_key(id) && !t[id].is_deleted
}

// Reading.

/// What a search by identifier answers: the task as it stands, unless there is
/// none or it is marked deleted.
pub open spec fn answers_find(
    t: Table,
    id: Uuid,
    reply: Result<Option<Task>, DomainError>,
) -> bool {
    match reply {
        Ok(Some(task)) => is_live(t, id) && task@ == t[id],
        Ok(None) => !is_live(t, id),
        Err(_) => false,
    }
}

/// Whether `steps` parent links, all of them between live tasks, lead from `id`
/// up to `top`.
pub open spec fn climbs(t: Table, id: Uuid, top: Uuid, steps: nat) -> bool
    decreases steps,
{
    is_live(t, id) && if steps == 0 {
        id == top
    } else {
        match t[id].parent_id {
            Some(parent) => climbs(t, parent, top, (steps - 1) as nat),
            None => false,
        }
    }
}

/// Whether a task is in the live subtree of `root`, root and all.
pub open spec fn in_subtree(t: Table, root: Uuid, id: Uuid) -> bool {
    exists|steps: nat| climbs(t, id, root, steps)
}

/// What a walk down from a task answers: the identifiers of its live subtree,
/// each once.
pub open spec fn answers_subtree(
    t: Table,
    root: Uuid,
    reply: Result<Vec<Uuid>, DomainError>,
) -> bool {
    &&& reply is Ok
    &&& reply->Ok_0@.no_duplicates()
    &&& forall|id: Uuid| reply->Ok_0@.contains(id) <==> in_subtree(t, root, id)
}

/// Every task of a list is a live task as it stands, and none comes twice.
pub open spec fn lists_live_tasks(t: Table, tasks: Seq<TaskView>) -> bool {
    &&& forall|i: int|
        0 <= i < tasks.len() ==> is_live(t, (#[trigger] tasks[i]).id) && tasks[i]
            == t[tasks[i].id]
    &&& forall|i: int, j: int|
        0 <= i < j < tasks.len() ==> (#[trigger] tasks[i]).id != (#[trigger] tasks[j]).id
}

/// Whether a task is in a list.
pub open spec fn lists(tasks: Seq<TaskView>, id: Uuid) -> bool {
    exists|i: int| 0 <= i < tasks.len() && (#[trigger] tasks[i]).id == id
}

/// What a fetch by identifiers answers: the live tasks among them, in any
/// order.
pub open spec fn answers_fetch(
    t: Table,
    ids: Seq<Uuid>,
    reply: Result<Vec<Task>, DomainError>,
) -> bool {
    reply is Ok && ({
        let tasks = domain::task_views(reply->Ok_0@);
        &&& lists_live_tasks(t, tasks)
        &&& forall|id: Uuid| #[trigger] lists(tasks, id) <==> is_live(t, id) && ids.contains(id)
    })
}

/// What a listing answers: the live tasks of a user with a given parent, or
/// with none, oldest first.
pub open spec fn answers_listing(
    t: Table,
    user_id: Uuid,
    parent_id: Option<Uuid>,
    reply: Result<Vec<Task>, DomainError>,
) -> bool {
    reply is Ok && ({
        let tasks = domain::task_views(reply->Ok_0@);
        &&& lists_live_tasks(t, tasks)
        &&& forall|id: Uuid| #[trigger]
            lists(tasks, id) <==> is_live(t, id) && t[id].user_id == user_id && t[id].parent_id
                == parent_id
        &&& forall|i: int, j: int|
            0 <= i < j < tasks.len() ==> (#[trigger] tasks[i]).created_at.micros <= (
            #[trigger] tasks[j]).created_at.micros
    })
}

// Writing.

/// A task as it is stored for an inserted row: the columns of the row, not
/// deleted.  Time spent and timestamps are the table's own.
pub open spec fn stores_row(row: CreateRowView, stored: TaskView) -> bool {
    &&& stored.id == row.id
    &&& stored.user_id == row.user_id
    &&& stored.parent_id == row.parent_id
    &&& stored.title == row.title
    &&& stored.description == row.description
    &&& stored.status == row.status
    &&& stored.estimated_mins == row.estimated_mins
    &&& !stored.is_deleted
}

/// What an insertion answers and does: the task as stored, which the table then
/// holds; for an identifier that is taken an error, and the table stays as it is.
pub open spec fn answers_create(
    t: Table,
    row: CreateRowView,
    reply: Result<Task, DomainError>,
    after: Table,
) -> bool {
    if t.contains_key(row.id) {
        reply is Err && reply->Err_0 is Database && after == t
    } else {
        reply is Ok && stores_row(row, reply->Ok_0@) && after == t.insert(row.id, reply->Ok_0@)
    }
}

/// A new value where there is one, else the old.
pub open spec fn coalesced<A>(new: Option<A>, old_value: A) -> A {
    match new {
        Some(value) => value,
        None => old_value,
    }
}

/// A task as it is stored once a patch is written: the columns that the patch
/// names have their new values, the others their old ones.  The time of the
/// update is the table's own.
pub open spec fn stores_patch(before: TaskView, patch: PatchView, stored: TaskView) -> bool {
    &&& stored.id == before.id
    &&& stored.user_id == before.user_id
    &&& stored.parent_id == coalesced(patch.parent_id, before.parent_id)
    &&& stored.title == coalesced(patch.title, before.title)
    &&& stored.description == coalesced(patch.description, before.description)
    &&& stored.status == coalesced(patch.status, before.status)
    &&& stored.estimated_mins == coalesced(patch.estimated_mins, before.estimated_mins)
    &&& stored.spent_mins == before.spent_mins
    &&& stored.is_deleted == before.is_deleted
    &&& stored.created_at == before.created_at
}

/// What a patch answers and does: the task as stored, which the table then
/// holds; where there is no live task, that it is not found, and the table stays
/// as it is.
pub open spec fn answers_update(
    t: Table,
    id: Uuid,
    patch: PatchView,
    reply: Result<Task, DomainError>,
    after: Table,
) -> bool {
    if is_live(t, id) {
        reply is Ok && stores_patch(t[id], patch, reply->Ok_0@) && after == t.insert(
            id,
            reply->Ok_0@,
        )
    } else {
        reply == Err::<Task, DomainError>(DomainError::NotFound(id)) && after == t
    }
}

/// A task once it is marked deleted: it says what it said before.  The time of
/// the update is the table's own.
pub open spec fn stores_mark(before: TaskView, stored: TaskView) -> bool {
    stored == TaskView { is_deleted: true, updated_at: stored.updated_at, ..before }
}

/// The table once a task is marked deleted; no task leaves it.
pub open spec fn soft_deletes(t: Table, id: Uuid, after: Table) -> bool {
    if is_live(t, id) {
        exists|stored: TaskView| #[trigger]
            stores_mark(t[id], stored) && after == t.insert(id, stored)
    } else {
        after == t
    }
}

/// What a deletion answers and does: the task is marked; where there is no live
/// task, it is not found, and the table stays as it is.
pub open spec fn answers_soft_delete(
    t: Table,
    id: Uuid,
    reply: Result<(), DomainError>,
    after: Table,
) -> bool {
    &&& soft_deletes(t, id, after)
    &&& reply == if is_live(t, id) {
        Ok::<(), DomainError>(())
    } else {
        Err(DomainError::NotFound(id))
    }
}

/// The table once all tasks of a user are marked deleted; no task leaves it.
pub open spec fn soft_deletes_by_user(t: Table, user_id: Uuid, after: Table) -> bool {
    &&& after.dom() == t.dom()
    &&& forall|id: Uuid| #[trigger]
        t.contains_key(id) ==> if is_live(t, id) && t[id].user_id == user_id {
            stores_mark(t[id], after[id])
        } else {
            after[id] == t[id]
        }
}

/// The live tasks of a user.
pub open spec fn live_tasks_of(t: Table, user_id: Uuid) -> Set<Uuid> {
    t.dom().filter(|id: Uuid| is_live(t, id) && t[id].user_id == user_id)
}

/// What the deletion of all tasks of a user answers and does: they are marked,
/// and counted.
pub open spec fn answers_soft_delete_by_user(
    t: Table,
    user_id: Uuid,
    reply: Result<u64, DomainError>,
    after: Table,
) -> bool {
    &&& soft_deletes_by_user(t, user_id, after)
    &&& reply is Ok && reply->Ok_0 == live_tasks_of(t, user_id).len()
}

/// A task once minutes are added to the time spent on it.  The time of the
/// update is the table's own.
pub open spec fn stores_minutes(before: TaskView, minutes: i32, stored: TaskView) -> bool {
    &&& stored.spent_mins == before.spent_mins + minutes
    &&& stored == TaskView {
        spent_mins: stored.spent_mins,
        updated_at: stored.updated_at,
        ..before
    }
}

/// The table once minutes are added to the time spent on a task.
pub open spec fn adds_minutes(t: Table, id: Uuid, minutes: i32, after: Table) -> bool {
    if is_live(t, id) {
        exists|stored: TaskView| #[trigger]
            stores_minutes(t[id], minutes, stored) && after == t.insert(id, stored)
    } else {
        after == t
    }
}

/// What the addition of minutes answers and does: they are added, or there is no
/// live task to add them to; where the sum does not fit, there is an error, and
/// the table stays as it is.
pub open spec fn answers_add_minutes(
    t: Table,
    id: Uuid,
    minutes: i32,
    reply: Result<(), DomainError>,
    after: Table,
) -> bool {
    if is_live(t, id) && !(i32::MIN <= t[id].spent_mins + minutes <= i32::MAX) {
        reply is Err && reply->Err_0 is Database && after == t
    } else {
        reply == Ok::<(), DomainError>(()) && adds_minutes(t, id, minutes, after)
    }
}

// What holds of every table.

/// No live task is among its own ancestors.
pub open spec fn is_acyclic(t: Table) -> bool {
    forall|id: Uuid, steps: nat| steps > 0 ==> !climbs(t, id, id, steps)
}

/// Every parent is in the table and belongs to the user of the child.
pub open spec fn parents_are_own(t: Table) -> bool {
    forall|id: Uuid|
        #![trigger t[id]]
        t.contains_key(id) && t[id].parent_id is Some ==> t.contains_key(t[id].parent_id->0)
            && t[t[id].parent_id->0].user_id == t[id].user_id
}

/// Every task is found under its own identifier.
pub open spec fn keys_are_ids(t: Table) -> bool {
    forall|id: Uuid| #![trigger t[id]] t.contains_key(id) ==> t[id].id == id
}

/// A table that the service can have left behind.
pub open spec fn is_sound(t: Table) -> bool {
    keys_are_ids(t) && parents_are_own(t) && is_acyclic(t)
}

} // verus!
