//! What holds of the service as a whole.

use vstd::prelude::*;

use crate::domain;
use crate::domain::{DomainError, ErrorView, Task, TaskStatus, TaskView, TimerStoppedEvent};
use crate::handlers;
use crate::handlers::{CreateTaskRequest, UpdateTaskRequest};
use crate::identifier;
use crate::identifier::Uuid;
use crate::infrastructure::nats;
use crate::infrastructure::nats::TaskEvent;
use crate::json::JsonModel;
use crate::repository;
use crate::repository::{CreateRowView, PatchView, TaskRow};
use crate::service;
use crate::service::{
    CheckDeletion, CheckParent, CheckTask, CreateTask, CreateTaskInput, DeleteTask, GetTaskTree,
    TimerBooking, UpdateTask, WritePatch,
};
use crate::table;
use crate::table::Table;
use crate::tree;
use crate::tree::{TaskTree, TreeView};

verus! {

// Who may do what.

/// Why a task cannot be read or changed by a user, if it cannot: it is not
/// there, or it belongs to someone else.
pub open spec fn access_refusal(t: Table, id: Uuid, user_id: Uuid) -> Option<ErrorView> {
    if !table::is_live(t, id) {
        Some(ErrorView::NotFound(id))
    } else if t[id].user_id != user_id {
        Some(ErrorView::Forbidden(id))
    } else {
        None
    }
}

/// A read gives a task as it stands to its owner, and to no one else.
pub proof fn law_only_the_owner_reads_a_task(
    t: Table,
    id: Uuid,
    user_id: Uuid,
    reply: Result<Option<Task>, DomainError>,
)
    requires
        table::answers_find(t, id, reply),
    ensures
        match access_refusal(t, id, user_id) {
            Some(refusal) => service::owned(id, user_id, reply) is Err && service::owned(
                id,
                user_id,
                reply,
            )->Err_0@ == refusal,
            None => service::owned(id, user_id, reply) is Ok && service::owned(
                id,
                user_id,
                reply,
            )->Ok_0@ == t[id],
        },
{
}

/// Why the creation of a task is refused, if it is: its title is empty or too
/// long, or its parent is not there or belongs to someone else.
pub open spec fn create_refusal(t: Table, input: CreateTaskInput) -> Option<ErrorView> {
    match service::title_refusal(input.title@) {
        Some(refusal) => Some(refusal),
        None => match input.parent_id {
            Some(parent_id) => access_refusal(t, parent_id, input.user_id),
            None => None,
        },
    }
}

/// The creation of a task, with its parent looked up in the table where it has
/// one, is refused exactly where it should be; else the row of its draft goes
/// in.
pub proof fn law_creation_keeps_to_the_rules(
    t: Table,
    input: CreateTaskInput,
    begun: CreateTask,
    reply: Result<Option<Task>, DomainError>,
    next: CreateTask,
)
    requires
        service::create_begins(input, begun),
        match begun {
            CreateTask::FindParent(state) => table::answers_find(t, state.parent_id, reply)
                && service::create_has_parent(state, reply, next),
            _ => next == begun,
        },
    ensures
        match create_refusal(t, input) {
            Some(refusal) => service::create_refused(next, refusal),
            None => service::inserts(service::draft_of(input), next),
        },
{
}

/// Where an update stands once all its checks are made.
pub open spec fn update_decision(
    state: CheckTask,
    task_reply: Result<Option<Task>, DomainError>,
    parent_reply: Result<Option<Task>, DomainError>,
    subtree_reply: Result<Vec<Uuid>, DomainError>,
) -> UpdateTask {
    match service::update_has_task(state, task_reply) {
        UpdateTask::FindParent(state) => match service::update_has_parent(state, parent_reply) {
            UpdateTask::FindSubtree(state) => service::update_has_subtree(state, subtree_reply),
            step => step,
        },
        step => step,
    }
}

/// Why an update is refused, if it is: the task is not there or belongs to
/// someone else; its new parent is the task itself, or is not there, or belongs
/// to someone else, or is somewhere below the task.
pub open spec fn update_refusal(
    t: Table,
    id: Uuid,
    user_id: Uuid,
    parent_id: Option<Option<Uuid>>,
) -> Option<ErrorView> {
    match access_refusal(t, id, user_id) {
        Some(refusal) => Some(refusal),
        None => match parent_id {
            Some(Some(new_parent)) => if new_parent == id {
                Some(ErrorView::SelfReference)
            } else {
                match access_refusal(t, new_parent, user_id) {
                    Some(refusal) => Some(refusal),
                    None => if table::in_subtree(t, id, new_parent) {
                        Some(ErrorView::CircularReference)
                    } else {
                        None
                    },
                }
            },
            _ => None,
        },
    }
}

/// The error with which an update ends, if it ends with one.
pub open spec fn update_error(step: UpdateTask) -> Option<ErrorView> {
    match step {
        UpdateTask::Done(Err(e)) => Some(e@),
        _ => None,
    }
}

/// An update, with its task, its new parent and its subtree looked up in the
/// table, is refused exactly where it should be; else its patch is written.
pub proof fn law_update_keeps_to_the_rules(
    t: Table,
    state: CheckTask,
    task_reply: Result<Option<Task>, DomainError>,
    parent_reply: Result<Option<Task>, DomainError>,
    subtree_reply: Result<Vec<Uuid>, DomainError>,
)
    requires
        table::answers_find(t, state.task_id, task_reply),
        state.patch.parent_id matches Some(Some(new_parent)) ==> table::answers_find(
            t,
            new_parent,
            parent_reply,
        ),
        table::answers_subtree(t, state.task_id, subtree_reply),
    ensures
        match update_refusal(t, state.task_id, state.user_id, state.patch.parent_id) {
            Some(refusal) => update_error(
                update_decision(state, task_reply, parent_reply, subtree_reply),
            ) == Some(refusal),
            None => update_decision(state, task_reply, parent_reply, subtree_reply)
                == UpdateTask::Write(WritePatch { task_id: state.task_id, patch: state.patch }),
        },
{
}

/// A deletion is refused exactly where the task is not there or belongs to
/// someone else; else it is written.
pub proof fn law_deletion_keeps_to_the_rules(
    t: Table,
    state: CheckDeletion,
    reply: Result<Option<Task>, DomainError>,
)
    requires
        table::answers_find(t, state.task_id, reply),
    ensures
        match access_refusal(t, state.task_id, state.user_id) {
            Some(refusal) => match service::delete_has_task(state, reply) {
                DeleteTask::Done(Err(e)) => e@ == refusal,
                _ => false,
            },
            None => service::delete_has_task(state, reply) == DeleteTask::Write(
                service::MarkDeleted { task_id: state.task_id },
            ),
        },
{
}

/// Whatever the lookups reply, nothing is written to a task that was not found
/// to belong to the user, and no parent is set that was not found to belong to
/// the user.
pub proof fn law_no_write_without_ownership(
    update: CheckTask,
    deletion: CheckDeletion,
    creation: CheckParent,
    task_reply: Result<Option<Task>, DomainError>,
    parent_reply: Result<Option<Task>, DomainError>,
    subtree_reply: Result<Vec<Uuid>, DomainError>,
    created: CreateTask,
)
    requires
        service::create_has_parent(creation, parent_reply, created),
    ensures
        update_decision(update, task_reply, parent_reply, subtree_reply) is Write ==> {
            &&& task_reply is Ok && task_reply->Ok_0 is Some
            &&& task_reply->Ok_0->0.user_id == update.user_id
            &&& update.patch.parent_id matches Some(Some(new_parent)) ==> {
                &&& new_parent != update.task_id
                &&& parent_reply is Ok && parent_reply->Ok_0 is Some
                &&& parent_reply->Ok_0->0.user_id == update.user_id
                &&& subtree_reply is Ok && !subtree_reply->Ok_0@.contains(new_parent)
            }
        },
        service::delete_has_task(deletion, task_reply) is Write ==> {
            &&& task_reply is Ok && task_reply->Ok_0 is Some
            &&& task_reply->Ok_0->0.user_id == deletion.user_id
        },
        created is Insert ==> {
            &&& parent_reply is Ok && parent_reply->Ok_0 is Some
            &&& parent_reply->Ok_0->0.user_id == creation.draft.user_id
        },
{
}

/// A refused request is answered by its status: a task that is not there by
/// 404, one of someone else by 403, a parent that is the task itself or is
/// below it by 422, a title that does not do by 422.
pub proof fn law_refusals_by_status(
    t: Table,
    id: Uuid,
    user_id: Uuid,
    parent_id: Option<Option<Uuid>>,
    title: Seq<char>,
)
    ensures
        access_refusal(t, id, user_id) is Some ==> handlers::error_status(
            access_refusal(t, id, user_id)->0,
        ) == if table::is_live(t, id) {
            403u16
        } else {
            404u16
        },
        update_refusal(t, id, user_id, parent_id) == Some(ErrorView::SelfReference) <==> (
        access_refusal(t, id, user_id) is None && parent_id == Some(Some(id))),
        handlers::error_status(ErrorView::SelfReference) == 422,
        handlers::error_status(ErrorView::CircularReference) == 422,
        service::title_refusal(title) is Some ==> handlers::error_status(
            service::title_refusal(title)->0,
        ) == 422,
{
}

/// An error that the table reports ends an operation at once and is the answer.
pub proof fn law_errors_of_the_table_are_passed_on(
    e: DomainError,
    id: Uuid,
    user_id: Uuid,
    update: CheckTask,
    new_parent: service::CheckNewParent,
    subtree: service::CheckSubtree,
    write: WritePatch,
    deletion: CheckDeletion,
    mark: service::MarkDeleted,
)
    ensures
        service::owned(id, user_id, Err(e)) == Err::<Task, DomainError>(e),
        service::create_is_stored(Err(e)) == CreateTask::Done(Err(e)),
        service::tree_has_root(id, user_id, Err(e)) == GetTaskTree::Done(Err(e)),
        service::update_has_task(update, Err(e)) == UpdateTask::Done(Err(e)),
        service::update_has_parent(new_parent, Err(e)) == UpdateTask::Done(Err(e)),
        service::update_has_subtree(subtree, Err(e)) == UpdateTask::Done(Err(e)),
        forall|step: UpdateTask| #[trigger]
            service::update_is_written(write, Err(e), step) ==> step == UpdateTask::Done(Err(e)),
        service::delete_has_task(deletion, Err(e)) == DeleteTask::Done(Err(e)),
        service::delete_is_written(mark, Err(e)) == DeleteTask::Done(Err(e)),
{
}

/// The news that an update wants published, if it wants any.
pub open spec fn update_news(step: UpdateTask) -> Option<TaskEvent> {
    match step {
        UpdateTask::Publish(news) => Some(news.event),
        _ => None,
    }
}

/// Every change that was written is announced: a creation as `task.created`, an
/// update as `task.updated`, a deletion as `task.deleted`, each with the
/// identifier of its task.
pub proof fn law_every_change_is_announced(
    created: Task,
    write: WritePatch,
    updated: Task,
    step: UpdateTask,
    mark: service::MarkDeleted,
)
    requires
        service::update_is_written(write, Ok(updated), step),
    ensures
        match service::create_is_stored(Ok(created)) {
            CreateTask::Publish(news) => nats::subject_of(news.event) == "task.created"@
                && nats::payload_of(news.event)["task_id"@] == JsonModel::Text(
                identifier::uuid_text(created.id.bits),
            ),
            _ => false,
        },
        match update_news(step) {
            Some(event) => nats::subject_of(event) == "task.updated"@ && nats::payload_of(
                event,
            )["task_id"@] == JsonModel::Text(identifier::uuid_text(write.task_id.bits))
                && nats::payload_of(event)["changes"@] == JsonModel::Object(
                service::changes_of(write.patch@),
            ),
            None => false,
        },
        match service::delete_is_written(mark, Ok(())) {
            DeleteTask::Publish(news) => nats::subject_of(news.event) == "task.deleted"@
                && nats::payload_of(news.event)["task_id"@] == JsonModel::Text(
                identifier::uuid_text(mark.task_id.bits),
            ),
            _ => false,
        },
{
    reveal_strlit("task_id");
    reveal_strlit("user_id");
    reveal_strlit("changes");
    assert("task_id"@[0] != "user_id"@[0]);
    assert("task_id"@[0] != "changes"@[0]);
}

// What every operation keeps.

proof fn lemma_climb_ends_live(t: Table, id: Uuid, top: Uuid, steps: nat)
    requires
        table::climbs(t, id, top, steps),
    ensures
        table::is_live(t, id),
        table::is_live(t, top),
    decreases steps,
{
    if steps > 0 {
        lemma_climb_ends_live(t, t[id].parent_id->0, top, (steps - 1) as nat);
    }
}

proof fn lemma_climbs_compose(t: Table, a: Uuid, b: Uuid, c: Uuid, low: nat, high: nat)
    requires
        table::climbs(t, a, b, low),
        table::climbs(t, b, c, high),
    ensures
        table::climbs(t, a, c, low + high),
    decreases low,
{
    if low > 0 {
        lemma_climbs_compose(t, t[a].parent_id->0, b, c, (low - 1) as nat, high);
    }
}

/// Where every live task of `after` was live in `before`, with the same parent,
/// every climb in `after` was one in `before`.
proof fn lemma_fewer_climbs(before: Table, after: Table, id: Uuid, top: Uuid, steps: nat)
    requires
        forall|x: Uuid| #[trigger]
            table::is_live(after, x) ==> table::is_live(before, x) && after[x].parent_id
                == before[x].parent_id,
        table::climbs(after, id, top, steps),
    ensures
        table::climbs(before, id, top, steps),
    decreases steps,
{
    assert(table::is_live(after, id));
    if steps > 0 {
        lemma_fewer_climbs(before, after, after[id].parent_id->0, top, (steps - 1) as nat);
    }
}

proof fn lemma_fewer_climbs_stay_acyclic(before: Table, after: Table)
    requires
        table::is_acyclic(before),
        forall|x: Uuid| #[trigger]
            table::is_live(after, x) ==> table::is_live(before, x) && after[x].parent_id
                == before[x].parent_id,
    ensures
        table::is_acyclic(after),
{
    assert forall|id: Uuid, steps: nat| steps > 0 implies !table::climbs(after, id, id, steps) by {
        if table::climbs(after, id, id, steps) {
            lemma_fewer_climbs(before, after, id, id, steps);
        }
    }
}

/// A climb that starts at an old task passes old tasks only.
proof fn lemma_climb_passes_old_tasks(
    t: Table,
    new: Uuid,
    stored: TaskView,
    id: Uuid,
    top: Uuid,
    steps: nat,
)
    requires
        table::parents_are_own(t),
        !t.contains_key(new),
        id != new,
        table::climbs(t.insert(new, stored), id, top, steps),
    ensures
        table::climbs(t, id, top, steps),
    decreases steps,
{
    if steps > 0 {
        let parent = t[id].parent_id->0;
        assert(t.contains_key(parent));
        lemma_climb_passes_old_tasks(t, new, stored, parent, top, (steps - 1) as nat);
    }
}

/// The creation of a task, whatever the insertion answers, leaves the table
/// sound.
pub proof fn law_creation_keeps_the_table_sound(
    t: Table,
    input: CreateTaskInput,
    id: Uuid,
    reply: Result<Task, DomainError>,
    after: Table,
)
    requires
        table::is_sound(t),
        create_refusal(t, input) is None,
        table::answers_create(t, service::row_of(service::draft_of(input), id), reply, after),
    ensures
        table::is_sound(after),
{
    if !t.contains_key(id) {
        lemma_insertion_keeps_the_table_sound(t, id, reply->Ok_0@);
    }
}

proof fn lemma_insertion_keeps_the_table_sound(t: Table, id: Uuid, stored: TaskView)
    requires
        table::is_sound(t),
        !t.contains_key(id),
        stored.id == id,
        stored.parent_id matches Some(parent) ==> t.contains_key(parent) && t[parent].user_id
            == stored.user_id,
    ensures
        table::is_sound(t.insert(id, stored)),
{
    let after = t.insert(id, stored);
    assert(table::parents_are_own(after)) by {
        assert forall|x: Uuid|
            #![trigger after[x]]
            after.contains_key(x) && after[x].parent_id is Some implies after.contains_key(
            after[x].parent_id->0,
        ) && after[after[x].parent_id->0].user_id == after[x].user_id by {
            if x != id {
                assert(t.contains_key(t[x].parent_id->0));
            }
        }
    }
    assert(table::is_acyclic(after)) by {
        assert forall|x: Uuid, steps: nat| steps > 0 implies !table::climbs(
            after,
            x,
            x,
            steps,
        ) by {
            if table::climbs(after, x, x, steps) {
                lemma_no_circle_through_new_task(t, id, stored, x, steps);
            }
        }
    }
}

proof fn lemma_no_circle_through_new_task(
    t: Table,
    id: Uuid,
    stored: TaskView,
    x: Uuid,
    steps: nat,
)
    requires
        table::is_sound(t),
        !t.contains_key(id),
        stored.parent_id matches Some(parent) ==> t.contains_key(parent),
        steps > 0,
    ensures
        !table::climbs(t.insert(id, stored), x, x, steps),
{
    if table::climbs(t.insert(id, stored), x, x, steps) {
        if x != id {
            lemma_climb_passes_old_tasks(t, id, stored, x, x, steps);
        } else {
            let parent = stored.parent_id->0;
            lemma_climb_passes_old_tasks(t, id, stored, parent, id, (steps - 1) as nat);
            lemma_climb_ends_live(t, parent, id, (steps - 1) as nat);
        }
    }
}

/// A climb up to the moved task is as it was before the move.
proof fn lemma_climb_to_moved_task(t: Table, id: Uuid, stored: TaskView, from: Uuid, steps: nat)
    requires
        table::is_live(t, id),
        !stored.is_deleted,
        table::climbs(t.insert(id, stored), from, id, steps),
    ensures
        table::in_subtree(t, id, from),
    decreases steps,
{
    if from == id {
        assert(table::climbs(t, id, id, 0));
    } else {
        let parent = t[from].parent_id->0;
        lemma_climb_to_moved_task(t, id, stored, parent, (steps - 1) as nat);
        let n = choose|n: nat| table::climbs(t, parent, id, n);
        assert(table::climbs(t, from, id, n + 1));
    }
}

/// A climb after a move is one of before, or passes the moved task and goes on
/// from its new parent.
proof fn lemma_climb_after_move(
    t: Table,
    id: Uuid,
    stored: TaskView,
    from: Uuid,
    top: Uuid,
    steps: nat,
)
    requires
        table::is_live(t, id),
        !stored.is_deleted,
        stored.parent_id is Some,
        table::climbs(t.insert(id, stored), from, top, steps),
    ensures
        table::climbs(t, from, top, steps) || exists|low: nat, high: nat|
            #![trigger table::climbs(t.insert(id, stored), from, id, low), table::climbs(
                t.insert(id, stored),
                stored.parent_id->0,
                top,
                high,
            )]
            table::climbs(t.insert(id, stored), from, id, low) && table::climbs(
                t.insert(id, stored),
                stored.parent_id->0,
                top,
                high,
            ),
    decreases steps,
{
    let after = t.insert(id, stored);
    if steps > 0 {
        if from == id {
            assert(table::climbs(after, from, id, 0));
            assert(table::climbs(after, stored.parent_id->0, top, (steps - 1) as nat));
        } else {
            let parent = t[from].parent_id->0;
            lemma_climb_after_move(t, id, stored, parent, top, (steps - 1) as nat);
            if !table::climbs(t, parent, top, (steps - 1) as nat) {
                let (low, high) = choose|low: nat, high: nat|
                    #![trigger table::climbs(after, parent, id, low), table::climbs(
                        after,
                        stored.parent_id->0,
                        top,
                        high,
                    )]
                    table::climbs(after, parent, id, low) && table::climbs(
                        after,
                        stored.parent_id->0,
                        top,
                        high,
                    );
                assert(table::climbs(after, from, id, low + 1));
                assert(table::climbs(after, stored.parent_id->0, top, high));
            }
        }
    }
}

/// An update that is not refused leaves the table sound: no task ends up below
/// itself, and every parent belongs to the user of the child.
pub proof fn law_update_keeps_the_table_sound(
    t: Table,
    id: Uuid,
    user_id: Uuid,
    patch: PatchView,
    reply: Result<Task, DomainError>,
    after: Table,
)
    requires
        table::is_sound(t),
        update_refusal(t, id, user_id, patch.parent_id) is None,
        table::answers_update(t, id, patch, reply, after),
    ensures
        table::is_sound(after),
{
    lemma_patch_keeps_the_table_sound(t, id, user_id, patch, reply->Ok_0@);
}

proof fn lemma_patch_keeps_the_table_sound(
    t: Table,
    id: Uuid,
    user_id: Uuid,
    patch: PatchView,
    stored: TaskView,
)
    requires
        table::is_sound(t),
        update_refusal(t, id, user_id, patch.parent_id) is None,
        table::stores_patch(t[id], patch, stored),
    ensures
        table::is_sound(t.insert(id, stored)),
{
    let after = t.insert(id, stored);
    assert(t[id].id == id);
    assert(table::parents_are_own(after)) by {
        assert forall|x: Uuid|
            #![trigger after[x]]
            after.contains_key(x) && after[x].parent_id is Some implies after.contains_key(
            after[x].parent_id->0,
        ) && after[after[x].parent_id->0].user_id == after[x].user_id by {
            assert(t.contains_key(x));
            if t[x].parent_id is Some {
                assert(t.contains_key(t[x].parent_id->0));
            }
        }
    }
    match patch.parent_id {
        Some(Some(new_parent)) => {
            assert forall|x: Uuid, steps: nat| steps > 0 implies !table::climbs(
                after,
                x,
                x,
                steps,
            ) by {
                if table::climbs(after, x, x, steps) {
                    lemma_climb_after_move(t, id, stored, x, x, steps);
                    if !table::climbs(t, x, x, steps) {
                        let (low, high) = choose|low: nat, high: nat|
                            #![trigger table::climbs(after, x, id, low), table::climbs(
                                after,
                                new_parent,
                                x,
                                high,
                            )]
                            table::climbs(after, x, id, low) && table::climbs(
                                after,
                                new_parent,
                                x,
                                high,
                            );
                        lemma_climbs_compose(after, new_parent, x, id, high, low);
                        lemma_climb_to_moved_task(t, id, stored, new_parent, high + low);
                    }
                }
            }
        },
        Some(None) => {
            assert forall|x: Uuid, steps: nat| steps > 0 implies !table::climbs(
                after,
                x,
                x,
                steps,
            ) by {
                if table::climbs(after, x, x, steps) {
                    lemma_climb_of_rootless(t, id, stored, x, x, steps);
                }
            }
        },
        None => {
            lemma_fewer_climbs_stay_acyclic(t, after);
        },
    }
}

/// A climb past a task that lost its parent is one of before.
proof fn lemma_climb_of_rootless(
    t: Table,
    id: Uuid,
    stored: TaskView,
    from: Uuid,
    top: Uuid,
    steps: nat,
)
    requires
        table::is_live(t, id),
        stored.parent_id is None,
        table::climbs(t.insert(id, stored), from, top, steps),
    ensures
        table::climbs(t, from, top, steps),
    decreases steps,
{
    if steps > 0 {
        lemma_climb_of_rootless(t, id, stored, t[from].parent_id->0, top, (steps - 1) as nat);
    }
}

/// A deletion leaves the table sound, keeps every task in it, and changes
/// nothing but the mark of the one task, and perhaps the time of its last
/// update.
pub proof fn law_deletion_is_soft(
    t: Table,
    id: Uuid,
    reply: Result<(), DomainError>,
    after: Table,
    other: Uuid,
)
    requires
        table::is_sound(t),
        table::answers_soft_delete(t, id, reply, after),
    ensures
        table::is_sound(after),
        after.dom() == t.dom(),
        other != id && t.contains_key(other) ==> after[other] == t[other],
        reply is Ok <==> table::is_live(t, id),
        table::is_live(t, id) ==> table::stores_mark(t[id], after[id]),
        !table::is_live(t, id) ==> after == t,
        !table::is_live(after, id),
{
    assert(after.dom() =~= t.dom());
    lemma_fewer_climbs_stay_acyclic(t, after);
    lemma_same_parents_stay_own(t, after);
}

/// Where no task comes, goes, or changes its user or its parent, parents stay
/// of the user of the child.
proof fn lemma_same_parents_stay_own(t: Table, after: Table)
    requires
        table::parents_are_own(t),
        after.dom() == t.dom(),
        forall|x: Uuid|
            #![trigger after[x]]
            t.contains_key(x) ==> after[x].parent_id == t[x].parent_id && after[x].user_id
                == t[x].user_id,
    ensures
        table::parents_are_own(after),
{
    assert forall|x: Uuid|
        #![trigger after[x]]
        after.contains_key(x) && after[x].parent_id is Some implies after.contains_key(
        after[x].parent_id->0,
    ) && after[after[x].parent_id->0].user_id == after[x].user_id by {
        assert(t.contains_key(x));
        assert(t.contains_key(t[x].parent_id->0));
    }
}

/// When a user is deleted, all their tasks are marked deleted, those of others
/// stay as they are, and the table stays sound with every task in it.
pub proof fn law_user_deletion_takes_all_tasks_of_the_user(
    t: Table,
    user_id: Uuid,
    reply: Result<u64, DomainError>,
    after: Table,
    id: Uuid,
)
    requires
        table::is_sound(t),
        table::answers_soft_delete_by_user(t, user_id, reply, after),
        t.contains_key(id),
    ensures
        table::is_sound(after),
        after.dom() == t.dom(),
        table::is_live(t, id) && t[id].user_id == user_id ==> table::stores_mark(t[id], after[id]),
        !table::is_live(t, id) || t[id].user_id != user_id ==> after[id] == t[id],
        t[id].user_id == user_id ==> !table::is_live(after, id),
{
    assert forall|x: Uuid| #[trigger] table::is_live(after, x) implies table::is_live(t, x)
        && after[x].parent_id == t[x].parent_id by {
        assert(t.contains_key(x));
    }
    lemma_fewer_climbs_stay_acyclic(t, after);
    lemma_same_parents_stay_own(t, after);
}

/// The number that the deletion of a user's tasks answers is the number of tasks
/// that were live before and are no more.
pub proof fn law_user_deletion_counts_the_tasks(
    t: Table,
    user_id: Uuid,
    reply: Result<u64, DomainError>,
    after: Table,
)
    requires
        table::answers_soft_delete_by_user(t, user_id, reply, after),
    ensures
        reply->Ok_0 == t.dom().filter(
            |id: Uuid| table::is_live(t, id) && !table::is_live(after, id),
        ).len(),
{
    let gone = t.dom().filter(|id: Uuid| table::is_live(t, id) && !table::is_live(after, id));
    assert(gone =~= table::live_tasks_of(t, user_id));
}

/// A second deletion of the same user finds no task left, and changes nothing.
pub proof fn law_second_user_deletion_changes_nothing(
    t: Table,
    user_id: Uuid,
    first: Result<u64, DomainError>,
    after: Table,
    second: Result<u64, DomainError>,
    again: Table,
)
    requires
        table::answers_soft_delete_by_user(t, user_id, first, after),
        table::answers_soft_delete_by_user(after, user_id, second, again),
    ensures
        again == after,
        second == Ok::<u64, DomainError>(0),
{
    assert forall|id: Uuid| #[trigger] after.contains_key(id) implies !(table::is_live(after, id)
        && after[id].user_id == user_id) by {
        assert(t.contains_key(id));
    }
    assert(again =~= after);
    assert(table::live_tasks_of(after, user_id) =~= Set::empty());
}

/// A stopped timer books `duration_seconds / 60` minutes on its task, or nothing:
/// nothing exactly where that is less than one, or more than a task can hold.
pub proof fn law_timers_book_whole_minutes(event: TimerStoppedEvent, step: TimerBooking)
    requires
        service::timer_is_booked(event, step),
    ensures
        step is Add <==> 60 <= event.duration_seconds && event.duration_seconds / 60 <= i32::MAX,
        step matches TimerBooking::Add(add) ==> add.task_id == event.task_id && add.minutes
            == event.duration_seconds / 60,
        !(step is Add) ==> step == TimerBooking::Done(Ok(())),
{
}

/// Booked minutes are added to the time spent on the task, and nothing else
/// changes, but perhaps the time of its last update.  Where there is no such
/// task, or the sum does not fit, nothing changes at all; only the latter is an
/// error.
pub proof fn law_booking_adds_to_the_time_spent(
    t: Table,
    id: Uuid,
    minutes: i32,
    reply: Result<(), DomainError>,
    after: Table,
    other: Uuid,
)
    requires
        table::is_sound(t),
        table::answers_add_minutes(t, id, minutes, reply, after),
    ensures
        table::is_sound(after),
        after.dom() == t.dom(),
        reply is Ok <==> (table::is_live(t, id) ==> i32::MIN <= t[id].spent_mins + minutes
            <= i32::MAX),
        table::is_live(t, id) && reply is Ok ==> after[id].spent_mins == t[id].spent_mins + minutes
            && table::stores_minutes(t[id], minutes, after[id]),
        !table::is_live(t, id) || reply is Err ==> after == t,
        other != id && t.contains_key(other) ==> after[other] == t[other],
{
    assert(after.dom() =~= t.dom());
    lemma_fewer_climbs_stay_acyclic(t, after);
    lemma_same_parents_stay_own(t, after);
}

/// Two bookings on one task, in either order, add up: no minute is lost, and no
/// other task changes.  Where there is no such task, neither is refused, and
/// nothing changes at all.
pub proof fn law_bookings_add_up(
    t: Table,
    id: Uuid,
    first: i32,
    first_reply: Result<(), DomainError>,
    between: Table,
    second: i32,
    second_reply: Result<(), DomainError>,
    after: Table,
    other: Uuid,
)
    requires
        table::answers_add_minutes(t, id, first, first_reply, between),
        table::answers_add_minutes(between, id, second, second_reply, after),
    ensures
        after.dom() == t.dom(),
        table::is_live(t, id) && first_reply is Ok && second_reply is Ok ==> {
            &&& after[id].spent_mins == t[id].spent_mins + first + second
            &&& after[id] == TaskView {
                spent_mins: after[id].spent_mins,
                updated_at: after[id].updated_at,
                ..t[id]
            }
        },
        other != id && t.contains_key(other) ==> after[other] == t[other],
        !table::is_live(t, id) ==> first_reply is Ok && second_reply is Ok && after == t,
{
    assert(after.dom() =~= t.dom());
}

// What a read gives back of a write.

/// A task that was created is read back by its owner as the creation answered,
/// and as it was asked for; it is refused to everyone else.
pub proof fn law_created_task_is_read_back(
    t: Table,
    input: CreateTaskInput,
    id: Uuid,
    created: Result<Task, DomainError>,
    after: Table,
    reader: Uuid,
    reply: Result<Option<Task>, DomainError>,
)
    requires
        table::answers_create(t, service::row_of(service::draft_of(input), id), created, after),
        !t.contains_key(id),
        table::answers_find(after, id, reply),
    ensures
        created is Ok,
        service::create_is_stored(created) matches CreateTask::Publish(news) && news.outcome
            == created->Ok_0,
        reader == input.user_id ==> {
            let read = service::owned(id, reader, reply);
            &&& read is Ok
            &&& read->Ok_0@ == created->Ok_0@
            &&& read->Ok_0@.id == id
            &&& read->Ok_0@.user_id == input.user_id
            &&& read->Ok_0@.parent_id == input.parent_id
            &&& read->Ok_0@.title == crate::text::trimmed(input.title@)
            &&& read->Ok_0@.description == crate::text::trimmed(input.description@)
            &&& read->Ok_0@.status == TaskStatus::Todo
            &&& read->Ok_0@.estimated_mins == service::draft_of(input).estimated_mins
        },
        reader != input.user_id ==> service::owned(id, reader, reply) == Err::<Task, DomainError>(
            DomainError::Forbidden(id),
        ),
{
}

/// A creation under an identifier that is taken ends with an error of the table,
/// announces nothing and changes nothing.
pub proof fn law_taken_identifier_changes_nothing(
    t: Table,
    input: CreateTaskInput,
    id: Uuid,
    created: Result<Task, DomainError>,
    after: Table,
)
    requires
        table::answers_create(t, service::row_of(service::draft_of(input), id), created, after),
        t.contains_key(id),
    ensures
        after == t,
        service::create_is_stored(created) matches CreateTask::Done(Err(e)) && e is Database,
{
}

/// A task that was created is listed under its parent, or among the tasks
/// without one, as the creation answered.
pub proof fn law_created_task_is_listed(
    t: Table,
    input: CreateTaskInput,
    id: Uuid,
    created: Result<Task, DomainError>,
    after: Table,
    reply: Result<Vec<Task>, DomainError>,
)
    requires
        table::answers_create(t, service::row_of(service::draft_of(input), id), created, after),
        created is Ok,
        table::answers_listing(after, input.user_id, input.parent_id, reply),
    ensures
        domain::task_views(reply->Ok_0@).contains(created->Ok_0@),
{
    let tasks = domain::task_views(reply->Ok_0@);
    assert(table::is_live(after, id));
    assert(table::lists(tasks, id));
    let i = choose|i: int| 0 <= i < tasks.len() && (#[trigger] tasks[i]).id == id;
    assert(tasks[i] == created->Ok_0@);
}

/// A list shows a user none but their own tasks.
pub proof fn law_listing_shows_own_tasks(
    t: Table,
    user_id: Uuid,
    parent_id: Option<Uuid>,
    reply: Result<Vec<Task>, DomainError>,
    i: int,
)
    requires
        table::answers_listing(t, user_id, parent_id, reply),
        0 <= i < reply->Ok_0@.len(),
    ensures
        reply->Ok_0@[i].user_id == user_id,
        reply->Ok_0@[i].parent_id == parent_id,
        !reply->Ok_0@[i].is_deleted,
{
    let tasks = domain::task_views(reply->Ok_0@);
    assert(tasks[i] == reply->Ok_0@[i]@);
    assert(table::lists(tasks, tasks[i].id));
}

/// A task that was updated is read back as the update answered: with the new
/// values, and with the old ones where the patch names none.
pub proof fn law_updated_task_is_read_back(
    t: Table,
    write: WritePatch,
    user_id: Uuid,
    updated: Result<Task, DomainError>,
    after: Table,
    step: UpdateTask,
    reply: Result<Option<Task>, DomainError>,
)
    requires
        access_refusal(t, write.task_id, user_id) is None,
        table::answers_update(t, write.task_id, write.patch@, updated, after),
        service::update_is_written(write, updated, step),
        table::answers_find(after, write.task_id, reply),
    ensures
        updated is Ok,
        step matches UpdateTask::Publish(news) && news.outcome == updated->Ok_0,
        ({
            let id = write.task_id;
            let patch = write.patch@;
            let read = service::owned(id, user_id, reply);
            &&& read is Ok
            &&& read->Ok_0@ == updated->Ok_0@
            &&& patch.title is Some ==> read->Ok_0@.title == patch.title->0
            &&& patch.title is None ==> read->Ok_0@.title == t[id].title
            &&& patch.description is Some ==> read->Ok_0@.description == patch.description->0
            &&& patch.description is None ==> read->Ok_0@.description == t[id].description
            &&& patch.status is Some ==> read->Ok_0@.status == patch.status->0
            &&& patch.status is None ==> read->Ok_0@.status == t[id].status
            &&& patch.estimated_mins is Some ==> read->Ok_0@.estimated_mins
                == patch.estimated_mins->0
            &&& patch.estimated_mins is None ==> read->Ok_0@.estimated_mins == t[id].estimated_mins
            &&& patch.parent_id is Some ==> read->Ok_0@.parent_id == patch.parent_id->0
            &&& patch.parent_id is None ==> read->Ok_0@.parent_id == t[id].parent_id
        }),
{
}

/// An update or a deletion whose task went away before it was written ends with
/// `NotFound`, announces nothing and changes nothing.
pub proof fn law_writes_to_no_task_change_nothing(
    t: Table,
    write: WritePatch,
    updated: Result<Task, DomainError>,
    after_update: Table,
    step: UpdateTask,
    mark: service::MarkDeleted,
    deleted: Result<(), DomainError>,
    after_deletion: Table,
)
    requires
        table::answers_update(t, write.task_id, write.patch@, updated, after_update),
        service::update_is_written(write, updated, step),
        table::answers_soft_delete(t, mark.task_id, deleted, after_deletion),
    ensures
        !table::is_live(t, write.task_id) ==> after_update == t && step == UpdateTask::Done(
            Err(DomainError::NotFound(write.task_id)),
        ),
        !table::is_live(t, mark.task_id) ==> after_deletion == t && service::delete_is_written(
            mark,
            deleted,
        ) == DeleteTask::Done(Err(DomainError::NotFound(mark.task_id))),
{
}

/// A task that was deleted is not found again, by anyone and for any purpose.
pub proof fn law_deleted_task_is_gone(
    t: Table,
    id: Uuid,
    deleted: Result<(), DomainError>,
    after: Table,
    user_id: Uuid,
    reply: Result<Option<Task>, DomainError>,
    update: CheckTask,
    deletion: CheckDeletion,
)
    requires
        table::answers_soft_delete(t, id, deleted, after),
        table::answers_find(after, id, reply),
        update.task_id == id,
        deletion.task_id == id,
    ensures
        service::owned(id, user_id, reply) == Err::<Task, DomainError>(DomainError::NotFound(id)),
        service::tree_has_root(id, user_id, reply) == GetTaskTree::Done(
            Err(DomainError::NotFound(id)),
        ),
        service::update_has_task(update, reply) == UpdateTask::Done(
            Err(DomainError::NotFound(id)),
        ),
        service::delete_has_task(deletion, reply) == DeleteTask::Done(
            Err(DomainError::NotFound(id)),
        ),
{
}

/// A status that was written to the table is read back from it.
pub proof fn law_stored_status_is_read_back(
    row: TaskRow,
    status: TaskStatus,
    read: Result<Task, DomainError>,
)
    requires
        row.status@ == domain::status_text(status),
        repository::row_reads_as(row, read),
    ensures
        read is Ok,
        read->Ok_0@ == repository::row_task(row, status),
{
    domain::law_written_status_is_read_back(status, row.status@);
}

/// The rows of the table, as the repository reads them, give the answers of the
/// table: to a search the task that the row holds or none, to an insertion and
/// to an update the task as stored, to an update or a deletion that reaches no
/// row that there is no such task.
pub proof fn law_rows_give_the_answers(
    t: Table,
    id: Uuid,
    found_row: Option<TaskRow>,
    found: Result<Option<Task>, DomainError>,
    row: CreateRowView,
    inserted_row: TaskRow,
    inserted: TaskView,
    created: Result<Task, DomainError>,
    patch: PatchView,
    updated_row: Option<TaskRow>,
    stored: TaskView,
    updated: Result<Task, DomainError>,
    marked: TaskView,
)
    requires
        if table::is_live(t, id) {
            found_row is Some && repository::row_holds(found_row->0, t[id])
        } else {
            found_row is None
        },
        repository::found_row_reads_as(found_row, found),
        !t.contains_key(row.id),
        table::stores_row(row, inserted),
        repository::row_holds(inserted_row, inserted),
        repository::row_reads_as(inserted_row, created),
        if table::is_live(t, id) {
            table::stores_patch(t[id], patch, stored) && updated_row is Some
                && repository::row_holds(updated_row->0, stored)
        } else {
            updated_row is None
        },
        repository::updated_row_reads_as(id, updated_row, updated),
        table::is_live(t, id) ==> table::stores_mark(t[id], marked),
    ensures
        table::answers_find(t, id, found),
        table::answers_create(t, row, created, t.insert(row.id, inserted)),
        table::is_live(t, id) ==> table::answers_update(
            t,
            id,
            patch,
            updated,
            t.insert(id, stored),
        ) && table::answers_soft_delete(
            t,
            id,
            repository::deletion_of_rows(id, 1),
            t.insert(id, marked),
        ),
        !table::is_live(t, id) ==> table::answers_update(t, id, patch, updated, t)
            && table::answers_soft_delete(t, id, repository::deletion_of_rows(id, 0), t),
{
    domain::law_written_status_is_read_back(t[id].status, domain::status_text(t[id].status));
    domain::law_written_status_is_read_back(inserted.status, inserted_row.status@);
    domain::law_written_status_is_read_back(stored.status, domain::status_text(stored.status));
}

// What gets in over HTTP.

/// A title and an estimate that do.
pub open spec fn is_well_filled(task: TaskView) -> bool {
    handlers::title_fits(task.title) && task.estimated_mins >= 0
}

/// Every task that comes in over HTTP has a title of 1 to 500 characters and an
/// estimate not below zero, and no update over HTTP takes that away.
pub proof fn law_tasks_are_well_filled(
    t: Table,
    user_id: Uuid,
    creation: CreateTaskRequest,
    id: Uuid,
    created: Result<Task, DomainError>,
    after_creation: Table,
    task_id: Uuid,
    update: UpdateTaskRequest,
    updated: Result<Task, DomainError>,
    after_update: Table,
)
    requires
        creation.is_valid(),
        create_refusal(t, handlers::create_input(user_id, creation)) is None,
        table::answers_create(
            t,
            service::row_of(service::draft_of(handlers::create_input(user_id, creation)), id),
            created,
            after_creation,
        ),
        update.is_valid(),
        table::answers_update(
            t,
            task_id,
            service::patch_of(handlers::update_input(update))@,
            updated,
            after_update,
        ),
    ensures
        created is Ok ==> is_well_filled(after_creation[id]) && after_creation[id].estimated_mins
            == creation.estimated_mins,
        is_well_filled(t[task_id]) ==> is_well_filled(after_update[task_id]),
{
}

// Subtrees.

/// A tree that shows the live subtree of its root in full: every node is a live
/// task as it stands, and its children are all the live tasks that name it as
/// their parent, each once.
pub open spec fn is_full_tree(t: Table, shown: TreeView) -> bool
    decreases shown,
{
    &&& table::is_live(t, shown.task.id)
    &&& t[shown.task.id] == shown.task
    &&& forall|id: Uuid| #[trigger]
        is_child(shown, id) <==> table::is_live(t, id) && t[id].parent_id == Some(shown.task.id)
    &&& forall|i: int, j: int|
        0 <= i < j < shown.children.len() ==> (#[trigger] shown.children[i]).task.id != (
        #[trigger] shown.children[j]).task.id
    &&& forall|i: int|
        0 <= i < shown.children.len() ==> is_full_tree(t, #[trigger] shown.children[i])
}

/// Whether a task is shown directly below the root of a tree.
pub open spec fn is_child(shown: TreeView, id: Uuid) -> bool {
    exists|i: int| 0 <= i < shown.children.len() && (#[trigger] shown.children[i]).task.id == id
}

/// Whether a task is shown anywhere in a tree.
pub open spec fn is_shown(shown: TreeView, id: Uuid) -> bool
    decreases shown,
{
    shown.task.id == id || exists|i: int|
        0 <= i < shown.children.len() && is_shown(#[trigger] shown.children[i], id)
}

/// The list holds live tasks only, each once, and all of the subtree of `root`
/// but perhaps `root` itself.
spec fn covers_subtree(t: Table, tasks: Seq<TaskView>, root: Uuid) -> bool {
    &&& table::lists_live_tasks(t, tasks)
    &&& forall|id: Uuid| #[trigger]
        table::in_subtree(t, root, id) && id != root ==> table::lists(tasks, id)
}

/// Filtering keeps a list of live tasks one, and keeps those that pass.
proof fn lemma_filtered_list(
    t: Table,
    tasks: Seq<TaskView>,
    keep: spec_fn(TaskView) -> bool,
)
    requires
        table::lists_live_tasks(t, tasks),
    ensures
        table::lists_live_tasks(t, tasks.filter(keep)),
        forall|id: Uuid| #[trigger]
            table::lists(tasks.filter(keep), id) <==> table::lists(tasks, id) && keep(t[id]),
    decreases tasks.len(),
{
    reveal(Seq::filter);
    if tasks.len() > 0 {
        let rest = tasks.drop_last();
        let last = tasks.last();
        assert(table::lists_live_tasks(t, rest));
        lemma_filtered_list(t, rest, keep);
        let kept = rest.filter(keep);
        let all = tasks.filter(keep);
        assert forall|id: Uuid| #[trigger] table::lists(tasks, id) <==> table::lists(rest, id) || id
            == last.id by {
            if table::lists(tasks, id) {
                let i = choose|i: int| 0 <= i < tasks.len() && (#[trigger] tasks[i]).id == id;
                if i < rest.len() {
                    assert(rest[i].id == id);
                }
            }
            if table::lists(rest, id) {
                let i = choose|i: int| 0 <= i < rest.len() && (#[trigger] rest[i]).id == id;
                assert(tasks[i].id == id);
            }
            if id == last.id {
                assert(tasks[tasks.len() - 1].id == id);
            }
        }
        assert(!table::lists(rest, last.id)) by {
            if table::lists(rest, last.id) {
                let i = choose|i: int| 0 <= i < rest.len() && (#[trigger] rest[i]).id == last.id;
                assert(tasks[i].id == tasks[tasks.len() - 1].id);
            }
        }
        assert(tasks[tasks.len() - 1] == last);
        if keep(last) {
            assert(all == kept.push(last));
            assert forall|i: int, j: int| 0 <= i < j < all.len() implies (#[trigger] all[i]).id != (
            #[trigger] all[j]).id by {
                if j == kept.len() {
                    if kept[i].id == last.id {
                        assert(table::lists(kept, last.id));
                    }
                }
            }
            assert forall|id: Uuid| #[trigger] table::lists(all, id) <==> table::lists(tasks, id)
                && keep(t[id]) by {
                if table::lists(all, id) {
                    let i = choose|i: int| 0 <= i < all.len() && (#[trigger] all[i]).id == id;
                    if i < kept.len() {
                        assert(kept[i].id == id);
                        assert(table::lists(kept, id));
                    }
                }
                if table::lists(kept, id) {
                    let i = choose|i: int| 0 <= i < kept.len() && (#[trigger] kept[i]).id == id;
                    assert(all[i].id == id);
                }
                if id == last.id {
                    assert(all[kept.len() as int].id == id);
                }
            }
        } else {
            assert(all == kept);
            assert forall|id: Uuid| #[trigger] table::lists(all, id) <==> table::lists(tasks, id)
                && keep(t[id]) by {
                assert(table::lists(kept, id) <==> table::lists(rest, id) && keep(t[id]));
            }
        }
    }
}

/// Out of a list that covers the subtree of a live task, its full tree grows.
proof fn lemma_full_tree_grows(t: Table, tasks: Seq<TaskView>, root: TaskView)
    requires
        table::is_sound(t),
        table::is_live(t, root.id),
        t[root.id] == root,
        covers_subtree(t, tasks, root.id),
    ensures
        is_full_tree(t, tree::tree_of(tasks, root)),
    decreases tasks.len(),
{
    let below = tree::children_of(tasks, root.id);
    let rest = tree::others_than_children_of(tasks, root.id);
    let shown = tree::tree_of(tasks, root);
    tree::lemma_children_and_others(tasks, root.id);
    lemma_filtered_list(t, tasks, |x: TaskView| x.parent_id == Some(root.id));
    lemma_filtered_list(t, tasks, |x: TaskView| x.parent_id != Some(root.id));
    assert forall|i: int| 0 <= i < below.len() implies (#[trigger] shown.children[i]).task
        == below[i] by {
        reveal_with_fuel(tree::tree_of, 2);
    }
    assert forall|id: Uuid| #[trigger] is_child(shown, id) <==> table::is_live(t, id)
        && t[id].parent_id == Some(root.id) by {
        if is_child(shown, id) {
            let i = choose|i: int|
                0 <= i < shown.children.len() && (#[trigger] shown.children[i]).task.id == id;
            assert(below[i].id == id);
            assert(table::lists(below, id));
        }
        if table::is_live(t, id) && t[id].parent_id == Some(root.id) {
            assert(table::climbs(t, root.id, root.id, 0));
            assert(table::climbs(t, id, root.id, 1));
            assert(table::in_subtree(t, root.id, id));
            if id == root.id {
                assert(table::climbs(t, id, id, 1));
            }
            assert(table::lists(tasks, id));
            assert(table::lists(below, id));
            let i = choose|i: int| 0 <= i < below.len() && (#[trigger] below[i]).id == id;
            assert(shown.children[i].task.id == id);
        }
    }
    assert forall|i: int, j: int| 0 <= i < j < shown.children.len() implies (
    #[trigger] shown.children[i]).task.id != (#[trigger] shown.children[j]).task.id by {
        assert(below[i].id != below[j].id);
    }
    assert forall|i: int| 0 <= i < shown.children.len() implies is_full_tree(
        t,
        #[trigger] shown.children[i],
    ) by {
        let child = below[i];
        assert(shown.children[i] == tree::tree_of(rest, child));
        assert(table::lists(below, child.id));
        assert(t[child.id].parent_id == Some(root.id));
        assert(table::climbs(t, root.id, root.id, 0));
        assert(table::climbs(t, child.id, root.id, 1));
        assert forall|id: Uuid| #[trigger]
            table::in_subtree(t, child.id, id) && id != child.id implies table::lists(rest, id) by {
            let n = choose|n: nat| table::climbs(t, id, child.id, n);
            lemma_climbs_compose(t, id, child.id, root.id, n, 1);
            assert(table::in_subtree(t, root.id, id));
            if id == root.id {
                assert(table::climbs(t, id, id, n + 1));
            }
            assert(table::lists(tasks, id));
            if t[id].parent_id == Some(root.id) {
                assert(table::climbs(t, root.id, child.id, (n - 1) as nat));
                lemma_climbs_compose(t, root.id, child.id, root.id, (n - 1) as nat, 1);
                assert(table::climbs(t, root.id, root.id, n));
            }
        }
        lemma_full_tree_grows(t, rest, child);
    }
}

/// The subtree of a task, with its identifiers and its tasks looked up in the
/// table, is shown in full.
pub proof fn law_subtree_is_shown_in_full(
    t: Table,
    root: Task,
    ids: Result<Vec<Uuid>, DomainError>,
    tasks: Result<Vec<Task>, DomainError>,
    step: GetTaskTree,
)
    requires
        table::is_sound(t),
        table::is_live(t, root.id),
        t[root.id] == root@,
        table::answers_subtree(t, root.id, ids),
        table::answers_fetch(t, ids->Ok_0@, tasks),
        service::tree_is_built(root, tasks, step),
    ensures
        step matches GetTaskTree::Done(Ok(built)) && tree::tree_view(built).task == root@
            && is_full_tree(t, tree::tree_view(built)),
{
    let listed = domain::task_views(tasks->Ok_0@);
    assert forall|id: Uuid| #[trigger] table::in_subtree(t, root.id, id) implies table::lists(
        listed,
        id,
    ) by {
        let n = choose|n: nat| table::climbs(t, id, root.id, n);
        lemma_climb_ends_live(t, id, root.id, n);
        assert(ids->Ok_0@.contains(id));
    }
    lemma_full_tree_grows(t, listed, root@);
}

/// The tree that is built of a live task and a list of live tasks, each once, that
/// has all of its subtree, shows that subtree in full.
pub proof fn law_built_tree_is_full(t: Table, root: Task, tasks: Vec<Task>, built: TaskTree)
    requires
        table::is_sound(t),
        table::is_live(t, root.id),
        t[root.id] == root@,
        table::lists_live_tasks(t, domain::task_views(tasks@)),
        forall|id: Uuid| #[trigger]
            table::in_subtree(t, root.id, id) && id != root.id ==> table::lists(
                domain::task_views(tasks@),
                id,
            ),
        call_ensures(tree::build_tree, (root, &tasks), built),
    ensures
        tree::tree_view(built).task == root@,
        is_full_tree(t, tree::tree_view(built)),
{
    lemma_full_tree_grows(t, domain::task_views(tasks@), root@);
}

/// Whatever the list holds, the tree has the root at its top, and directly below
/// it the tasks of the list that name it as their parent, and no others.
pub proof fn law_built_tree_has_the_children(
    root: Task,
    tasks: Vec<Task>,
    built: TaskTree,
    i: int,
    j: int,
)
    requires
        call_ensures(tree::build_tree, (root, &tasks), built),
    ensures
        tree::tree_view(built).task == root@,
        0 <= i < tree::tree_view(built).children.len() ==> {
            let child = tree::tree_view(built).children[i].task;
            child.parent_id == Some(root@.id) && domain::task_views(tasks@).contains(child)
        },
        0 <= j < tasks@.len() && tasks@[j]@.parent_id == Some(root@.id) ==> exists|k: int|
            0 <= k < tree::tree_view(built).children.len()
                && (#[trigger] tree::tree_view(built).children[k]).task == tasks@[j]@,
{
    let listed = domain::task_views(tasks@);
    let shown = tree::tree_of(listed, root@);
    let below = tree::children_of(listed, root@.id);
    tree::lemma_children_and_others(listed, root@.id);
    assert forall|k: int| 0 <= k < below.len() implies (#[trigger] shown.children[k]).task
        == below[k] by {
        reveal_with_fuel(tree::tree_of, 2);
    }
    if 0 <= i < below.len() {
        listed.lemma_filter_pred(|x: TaskView| x.parent_id == Some(root@.id), i);
        assert(below.contains(below[i]));
        listed.lemma_filter_contains_rev(|x: TaskView| x.parent_id == Some(root@.id), below[i]);
        assert(shown.children[i].task == below[i]);
    }
    if 0 <= j < tasks@.len() && tasks@[j]@.parent_id == Some(root@.id) {
        assert(listed[j] == tasks@[j]@);
        listed.lemma_filter_contains(|x: TaskView| x.parent_id == Some(root@.id), j);
        let k = choose|k: int| 0 <= k < below.len() && below[k] == listed[j];
        assert(shown.children[k].task == tasks@[j]@);
    }
}

proof fn lemma_shown_are_below(t: Table, shown: TreeView, id: Uuid)
    requires
        is_full_tree(t, shown),
        is_shown(shown, id),
    ensures
        table::in_subtree(t, shown.task.id, id),
    decreases shown,
{
    if shown.task.id == id {
        assert(table::climbs(t, id, id, 0));
    } else {
        let i = choose|i: int|
            0 <= i < shown.children.len() && is_shown(#[trigger] shown.children[i], id);
        let child = shown.children[i];
        lemma_shown_are_below(t, child, id);
        let n = choose|n: nat| table::climbs(t, id, child.task.id, n);
        assert(is_child(shown, child.task.id));
        assert(table::climbs(t, shown.task.id, shown.task.id, 0));
        assert(table::climbs(t, child.task.id, shown.task.id, 1));
        lemma_climbs_compose(t, id, child.task.id, shown.task.id, n, 1);
    }
}

proof fn lemma_child_of_shown_is_shown(t: Table, shown: TreeView, parent: Uuid, id: Uuid)
    requires
        is_full_tree(t, shown),
        is_shown(shown, parent),
        table::is_live(t, id),
        t[id].parent_id == Some(parent),
    ensures
        is_shown(shown, id),
    decreases shown,
{
    if shown.task.id == parent {
        assert(is_child(shown, id));
        let i = choose|i: int|
            0 <= i < shown.children.len() && (#[trigger] shown.children[i]).task.id == id;
        assert(is_shown(shown.children[i], id));
    } else {
        let i = choose|i: int|
            0 <= i < shown.children.len() && is_shown(#[trigger] shown.children[i], parent);
        lemma_child_of_shown_is_shown(t, shown.children[i], parent, id);
        assert(is_shown(shown.children[i], id));
    }
}

proof fn lemma_below_are_shown(t: Table, shown: TreeView, id: Uuid, steps: nat)
    requires
        is_full_tree(t, shown),
        table::climbs(t, id, shown.task.id, steps),
    ensures
        is_shown(shown, id),
    decreases steps,
{
    if steps > 0 {
        let parent = t[id].parent_id->0;
        lemma_below_are_shown(t, shown, parent, (steps - 1) as nat);
        lemma_child_of_shown_is_shown(t, shown, parent, id);
    }
}

/// A full tree shows the tasks of the live subtree of its root, and no others.
pub proof fn law_full_tree_shows_the_subtree(t: Table, shown: TreeView, id: Uuid)
    requires
        is_full_tree(t, shown),
    ensures
        is_shown(shown, id) <==> table::in_subtree(t, shown.task.id, id),
{
    if is_shown(shown, id) {
        lemma_shown_are_below(t, shown, id);
    }
    if table::in_subtree(t, shown.task.id, id) {
        let n = choose|n: nat| table::climbs(t, id, shown.task.id, n);
        lemma_below_are_shown(t, shown, id, n);
    }
}

proof fn lemma_climb_stays_with_the_user(t: Table, id: Uuid, top: Uuid, steps: nat)
    requires
        table::parents_are_own(t),
        table::climbs(t, id, top, steps),
    ensures
        t[id].user_id == t[top].user_id,
    decreases steps,
{
    if steps > 0 {
        lemma_climb_stays_with_the_user(t, t[id].parent_id->0, top, (steps - 1) as nat);
    }
}

/// A full tree shows none but tasks of the user whose task its root is.
pub proof fn law_tree_shows_own_tasks(t: Table, shown: TreeView, id: Uuid)
    requires
        table::is_sound(t),
        is_full_tree(t, shown),
        is_shown(shown, id),
    ensures
        t[id].user_id == shown.task.user_id,
{
    lemma_shown_are_below(t, shown, id);
    let n = choose|n: nat| table::climbs(t, id, shown.task.id, n);
    lemma_climb_stays_with_the_user(t, id, shown.task.id, n);
}

/// How often a task is shown in a tree.
pub open spec fn times_shown(shown: TreeView, id: Uuid) -> nat
    decreases shown,
{
    let here: nat = if shown.task.id == id {
        1
    } else {
        0
    };
    here + times_shown_among(shown.children, id)
}

/// How often a task is shown in several trees.
pub open spec fn times_shown_among(trees: Seq<TreeView>, id: Uuid) -> nat
    decreases trees,
{
    if trees.len() == 0 {
        0
    } else {
        times_shown_among(trees.drop_last(), id) + times_shown(trees.last(), id)
    }
}

/// Of two climbs from one task the longer goes on where the shorter ends.
proof fn lemma_longer_climb_goes_on(t: Table, id: Uuid, a: Uuid, b: Uuid, low: nat, high: nat)
    requires
        table::climbs(t, id, a, low),
        table::climbs(t, id, b, high),
        low <= high,
    ensures
        table::climbs(t, a, b, (high - low) as nat),
    decreases low,
{
    if low > 0 {
        lemma_longer_climb_goes_on(
            t,
            t[id].parent_id->0,
            a,
            b,
            (low - 1) as nat,
            (high - 1) as nat,
        );
    }
}

/// In an acyclic table no task is below two children of one task.
proof fn lemma_below_one_child(
    t: Table,
    id: Uuid,
    root: Uuid,
    a: Uuid,
    b: Uuid,
    low: nat,
    high: nat,
)
    requires
        table::is_acyclic(t),
        table::climbs(t, id, a, low),
        table::climbs(t, id, b, high),
        low <= high,
        table::is_live(t, root),
        t[a].parent_id == Some(root),
        t[b].parent_id == Some(root),
    ensures
        a == b,
{
    lemma_longer_climb_goes_on(t, id, a, b, low, high);
    lemma_climb_ends_live(t, id, b, high);
    if low < high {
        let rest = (high - low - 1) as nat;
        assert(table::climbs(t, root, b, rest));
        assert(table::climbs(t, root, root, 0));
        assert(table::climbs(t, b, root, 1));
        lemma_climbs_compose(t, root, b, root, rest, 1);
        assert(table::climbs(t, root, root, rest + 1));
    }
}

/// Where each of several trees shows a task at most once, and at most one of
/// them shows it, they show it at most once together.
proof fn lemma_times_shown_among(trees: Seq<TreeView>, id: Uuid)
    requires
        forall|i: int|
            0 <= i < trees.len() ==> times_shown(#[trigger] trees[i], id) == if is_shown(
                trees[i],
                id,
            ) {
                1nat
            } else {
                0nat
            },
        forall|i: int, j: int|
            0 <= i < j < trees.len() ==> !(is_shown(#[trigger] trees[i], id) && is_shown(
                #[trigger] trees[j],
                id,
            )),
    ensures
        times_shown_among(trees, id) == if exists|i: int|
            0 <= i < trees.len() && is_shown(#[trigger] trees[i], id) {
            1nat
        } else {
            0nat
        },
    decreases trees.len(),
{
    if trees.len() > 0 {
        let rest = trees.drop_last();
        let last = trees.len() - 1;
        assert forall|i: int| 0 <= i < rest.len() implies times_shown(#[trigger] rest[i], id)
            == if is_shown(rest[i], id) {
            1nat
        } else {
            0nat
        } by {
            assert(rest[i] == trees[i]);
        }
        assert forall|i: int, j: int| 0 <= i < j < rest.len() implies !(is_shown(
            #[trigger] rest[i],
            id,
        ) && is_shown(#[trigger] rest[j], id)) by {
            assert(rest[i] == trees[i] && rest[j] == trees[j]);
        }
        lemma_times_shown_among(rest, id);
        assert(trees.last() == trees[last]);
        if exists|i: int| 0 <= i < rest.len() && is_shown(#[trigger] rest[i], id) {
            let i = choose|i: int| 0 <= i < rest.len() && is_shown(#[trigger] rest[i], id);
            assert(is_shown(trees[i], id));
            assert(!is_shown(trees[last], id));
        } else if is_shown(trees[last], id) {
        } else {
            assert forall|i: int| 0 <= i < trees.len() implies !is_shown(
                #[trigger] trees[i],
                id,
            ) by {
                if i < last {
                    assert(rest[i] == trees[i]);
                }
            }
        }
    }
}

proof fn lemma_shown_once(t: Table, shown: TreeView, id: Uuid)
    requires
        table::is_acyclic(t),
        is_full_tree(t, shown),
    ensures
        times_shown(shown, id) == if is_shown(shown, id) {
            1nat
        } else {
            0nat
        },
    decreases shown,
{
    let root = shown.task.id;
    let below = shown.children;
    assert forall|i: int| 0 <= i < below.len() implies table::is_live(
        t,
        (#[trigger] below[i]).task.id,
    ) && t[below[i].task.id].parent_id == Some(root) by {
        assert(is_child(shown, below[i].task.id));
    }
    assert forall|i: int| 0 <= i < below.len() implies times_shown(#[trigger] below[i], id)
        == if is_shown(below[i], id) {
        1nat
    } else {
        0nat
    } by {
        lemma_shown_once(t, below[i], id);
    }
    assert forall|i: int, j: int| 0 <= i < j < below.len() implies !(is_shown(
        #[trigger] below[i],
        id,
    ) && is_shown(#[trigger] below[j], id)) by {
        if is_shown(below[i], id) && is_shown(below[j], id) {
            let a = below[i].task.id;
            let b = below[j].task.id;
            lemma_shown_are_below(t, below[i], id);
            lemma_shown_are_below(t, below[j], id);
            let n = choose|n: nat| table::climbs(t, id, a, n);
            let m = choose|m: nat| table::climbs(t, id, b, m);
            if n <= m {
                lemma_below_one_child(t, id, root, a, b, n, m);
            } else {
                lemma_below_one_child(t, id, root, b, a, m, n);
            }
        }
    }
    lemma_times_shown_among(below, id);
    if root == id {
        assert forall|i: int| 0 <= i < below.len() implies !is_shown(#[trigger] below[i], id) by {
            if is_shown(below[i], id) {
                let child = below[i].task.id;
                lemma_shown_are_below(t, below[i], id);
                let n = choose|n: nat| table::climbs(t, id, child, n);
                assert(table::climbs(t, root, root, 0));
                assert(table::climbs(t, child, root, 1));
                lemma_climbs_compose(t, id, child, root, n, 1);
                assert(table::climbs(t, root, root, n + 1));
            }
        }
    }
}

/// A full tree shows every task of the live subtree of its root exactly once in
/// the whole tree, and no other task at all.
pub proof fn law_tasks_are_shown_once(t: Table, shown: TreeView, id: Uuid)
    requires
        table::is_sound(t),
        is_full_tree(t, shown),
    ensures
        times_shown(shown, id) == if table::in_subtree(t, shown.task.id, id) {
            1nat
        } else {
            0nat
        },
{
    lemma_shown_once(t, shown, id);
    law_full_tree_shows_the_subtree(t, shown, id);
}

} // verus!
