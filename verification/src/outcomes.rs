//! What each operation gives, stated of the calls themselves: of everything that
//! a call can return, in terms of what it was called with.

use vstd::prelude::*;

use crate::domain::{
    DomainError, Task, TaskStatus, TaskView, TimerStoppedEvent, UserDeletedEvent,
};
use crate::handlers;
use crate::handlers::CreateTaskRequest;
use crate::headers::RequestHeaders;
use crate::identifier;
use crate::identifier::Uuid;
use crate::infrastructure::nats::Message;
use crate::json;
use crate::json::{JsonModel, JsonObject};
use crate::laws;
use crate::repository::{TaskCreateRow, TaskPatchRow};
use crate::service;
use crate::service::{
    AddMinutes, Announced, Announcement, CheckDeletion, CheckNewParent, CheckParent, CheckSubtree,
    CheckTask, CreateTask, CreateTaskInput, DeleteTask, GetTaskTree, InsertTask, MarkDeleted,
    OwnershipCheck, RootLookup, SubtreeFetch, SubtreeLookup, TaskDraft, TaskListing, TaskService,
    TimerBooking, UpdateTask, UpdateTaskInput, UserDeletion, WritePatch,
};
use crate::table;
use crate::table::Table;
use crate::text;
use crate::tree;
use crate::tree::TaskTree;

verus! {

// Creating a task.

/// A creation that has begun, up to the step after the lookup of the parent,
/// where there is one to look up.
pub open spec fn creation_goes_on(
    begun: CreateTask,
    asked: Uuid,
    parent: Result<Option<Task>, DomainError>,
    next: CreateTask,
) -> bool {
    match begun {
        CreateTask::FindParent(state) => call_ensures(CheckParent::find_by_id, (&state,), asked)
            && call_ensures(CheckParent::resume, (state, parent), next),
        _ => next == begun,
    }
}

/// The row that a creation inserts has, column by column, what the caller handed
/// in, whether or not there is a parent: texts trimmed, an estimate below zero as
/// zero, and the task yet to do.
pub proof fn law_inserted_row_is_what_was_asked_for(
    input: CreateTaskInput,
    begun: CreateTask,
    asked: Uuid,
    parent: Result<Option<Task>, DomainError>,
    insertion: InsertTask,
    row: &TaskCreateRow,
)
    requires
        call_ensures(TaskService::create_task, (input,), begun),
        creation_goes_on(begun, asked, parent, CreateTask::Insert(insertion)),
        call_ensures(InsertTask::create, (&insertion,), row),
    ensures
        identifier::is_version_4(row.id.bits),
        row.user_id == input.user_id,
        row.parent_id == input.parent_id,
        row.title@ == text::trimmed(input.title@),
        row.description@ == text::trimmed(input.description@),
        row.status == TaskStatus::Todo,
        input.estimated_mins >= 0 ==> row.estimated_mins == input.estimated_mins,
        input.estimated_mins < 0 ==> row.estimated_mins == 0,
{
}

/// A creation goes in if and only if its trimmed title has 1 to 500 characters
/// and its parent, where it names one, was found to belong to the same user.  It
/// looks for that parent and no other, and only once the title will do.  Each
/// refusal has its reason.
pub proof fn law_creation_is_refused_for_a_reason(
    input: CreateTaskInput,
    begun: CreateTask,
    asked: Uuid,
    parent: Result<Option<Task>, DomainError>,
    next: CreateTask,
)
    requires
        call_ensures(TaskService::create_task, (input,), begun),
        creation_goes_on(begun, asked, parent, next),
    ensures
        ({
            let length = text::trimmed(input.title@).len();
            let title_will_do = 1 <= length <= 500;
            &&& begun is FindParent <==> title_will_do && input.parent_id is Some
            &&& begun is FindParent ==> input.parent_id == Some(asked)
            &&& next is Insert <==> title_will_do && (input.parent_id is Some ==> (parent matches Ok(
                Some(p),
            ) && p.user_id == input.user_id))
            &&& next is Insert || next is Done
            &&& length == 0 ==> (next matches CreateTask::Done(Err(DomainError::Validation(why)))
                && why@ == "title must not be empty"@)
            &&& length > 500 ==> (next matches CreateTask::Done(Err(DomainError::Validation(why)))
                && why@ == "title exceeds 500 characters"@)
            &&& title_will_do && input.parent_id is Some ==> match parent {
                Err(e) => next == CreateTask::Done(Err(e)),
                Ok(None) => next == CreateTask::Done(
                    Err(DomainError::NotFound(input.parent_id->0)),
                ),
                Ok(Some(p)) => p.user_id != input.user_id ==> next == CreateTask::Done(
                    Err(DomainError::Forbidden(input.parent_id->0)),
                ),
            }
        }),
{
}

/// A creation that was stored is announced as `task.created`, with the
/// identifiers of the task and of its user, and answers the task as stored,
/// whether or not the news got out.  One that was not stored answers the error
/// and announces nothing.
pub proof fn law_creation_is_announced_and_answered(
    insertion: InsertTask,
    stored: Result<Task, DomainError>,
    step: CreateTask,
    parts: (Message, Announced<Task>),
    published: Result<(), DomainError>,
    answer: Result<Task, DomainError>,
)
    requires
        call_ensures(InsertTask::resume, (insertion, stored), step),
        step matches CreateTask::Publish(news) ==> call_ensures(
            Announcement::<Task>::publish,
            (news,),
            parts,
        ) && call_ensures(Announced::<Task>::resume, (parts.1, published), answer),
    ensures
        match stored {
            Err(e) => step == CreateTask::Done(Err(e)),
            Ok(task) => {
                &&& step is Publish
                &&& parts.0.subject@ == "task.created"@
                &&& json::json_fields(parts.0.payload) == Map::<Seq<char>, JsonModel>::empty().insert(
                    "task_id"@,
                    JsonModel::Text(identifier::uuid_text(task.id.bits)),
                ).insert("user_id"@, JsonModel::Text(identifier::uuid_text(task.user_id.bits)))
                &&& answer == Ok::<Task, DomainError>(task)
            },
        },
{
}

/// The row of a draft has the columns of the draft, the given identifier, and a
/// task yet to do.
pub proof fn law_draft_becomes_a_row(draft: TaskDraft, id: Uuid, row: TaskCreateRow)
    requires
        call_ensures(TaskDraft::into_row, (draft, id), row),
    ensures
        row.id == id,
        row.user_id == draft.user_id,
        row.parent_id == draft.parent_id,
        row.title@ == draft.title@,
        row.description@ == draft.description@,
        row.status == TaskStatus::Todo,
        row.estimated_mins == draft.estimated_mins,
{
}

/// A task that is created over HTTP is stored, and answered, with what the body
/// asked for, as a task of the caller.
pub proof fn law_http_creation_stores_what_the_body_asks_for(
    request: RequestHeaders,
    user_id: Uuid,
    body: CreateTaskRequest,
    begun: CreateTask,
    asked: Uuid,
    parent: Result<Option<Task>, DomainError>,
    insertion: InsertTask,
    row: &TaskCreateRow,
    t: Table,
    stored: Task,
    after: Table,
)
    requires
        call_ensures(handlers::extract_user_id, (&request,), Ok(user_id)),
        call_ensures(handlers::create_task, (&request, body), Ok(begun)),
        creation_goes_on(begun, asked, parent, CreateTask::Insert(insertion)),
        call_ensures(InsertTask::create, (&insertion,), row),
        table::answers_create(t, row@, Ok(stored), after),
    ensures
        stored.id == row.id,
        stored.user_id == user_id,
        stored.parent_id == body.parent_id,
        stored.title@ == text::trimmed(body.title@),
        1 <= stored.title@.len() <= 500,
        stored.description@ == text::trimmed(body.description@),
        stored.status == TaskStatus::Todo,
        stored.estimated_mins == body.estimated_mins,
        !stored.is_deleted,
        after == t.insert(stored.id, stored@),
{
}

/// A creation over HTTP whose body does, of a known caller, goes in or is refused
/// as the title and the parent in the body decide, and for that caller.
pub proof fn law_http_creation_is_refused_for_a_reason(
    request: RequestHeaders,
    user_id: Uuid,
    body: CreateTaskRequest,
    begun: CreateTask,
    asked: Uuid,
    parent: Result<Option<Task>, DomainError>,
    next: CreateTask,
)
    requires
        call_ensures(handlers::extract_user_id, (&request,), Ok(user_id)),
        call_ensures(handlers::create_task, (&request, body), Ok(begun)),
        creation_goes_on(begun, asked, parent, next),
    ensures
        ({
            let title_will_do = text::trimmed(body.title@).len() > 0;
            &&& begun is FindParent <==> title_will_do && body.parent_id is Some
            &&& begun is FindParent ==> body.parent_id == Some(asked)
            &&& next is Insert <==> title_will_do && (body.parent_id is Some ==> (parent matches Ok(
                Some(p),
            ) && p.user_id == user_id))
            &&& next is Insert || next is Done
            &&& !title_will_do ==> (next matches CreateTask::Done(Err(DomainError::Validation(why)))
                && why@ == "title must not be empty"@)
            &&& title_will_do && body.parent_id is Some ==> match parent {
                Err(e) => next == CreateTask::Done(Err(e)),
                Ok(None) => next == CreateTask::Done(
                    Err(DomainError::NotFound(body.parent_id->0)),
                ),
                Ok(Some(p)) => p.user_id != user_id ==> next == CreateTask::Done(
                    Err(DomainError::Forbidden(body.parent_id->0)),
                ),
            }
        }),
{
    text::law_trimming_is_idempotent(body.title@);
}

// Reading tasks.

/// A read asks for the task it was called for, and gives it to its owner; to
/// anyone else it is forbidden, and where there is none it is not found.
pub proof fn law_get_gives_the_task_to_its_owner(
    task_id: Uuid,
    user_id: Uuid,
    state: OwnershipCheck,
    asked: Uuid,
    found: Result<Option<Task>, DomainError>,
    read: Result<Task, DomainError>,
)
    requires
        call_ensures(TaskService::get_task, (task_id, user_id), state),
        call_ensures(OwnershipCheck::find_by_id, (&state,), asked),
        call_ensures(OwnershipCheck::resume, (state, found), read),
    ensures
        asked == task_id,
        match found {
            Err(e) => read == Err::<Task, DomainError>(e),
            Ok(None) => read == Err::<Task, DomainError>(DomainError::NotFound(task_id)),
            Ok(Some(task)) => {
                &&& task.user_id == user_id ==> read == Ok::<Task, DomainError>(task)
                &&& task.user_id != user_id ==> read == Err::<Task, DomainError>(
                    DomainError::Forbidden(task_id),
                )
            },
        },
{
}

/// A list asks for the tasks of the user below the parent it was called for, and
/// gives what was found, all of it and as it is.
pub proof fn law_list_gives_what_was_found(
    user_id: Uuid,
    parent_id: Option<Uuid>,
    state: TaskListing,
    asked: (Uuid, Option<Uuid>),
    found: Result<Vec<Task>, DomainError>,
    listed: Result<Vec<Task>, DomainError>,
)
    requires
        call_ensures(TaskService::list_tasks, (user_id, parent_id), state),
        call_ensures(TaskListing::find_by_user_and_parent, (&state,), asked),
        call_ensures(TaskListing::resume, (state, found), listed),
    ensures
        asked == (user_id, parent_id),
        listed == found,
{
}

/// The reading of a subtree, from the lookup of its root to the end.
pub open spec fn tree_runs(
    state: RootLookup,
    found: Result<Option<Task>, DomainError>,
    first: GetTaskTree,
    ids: Result<Vec<Uuid>, DomainError>,
    second: GetTaskTree,
    tasks: Result<Vec<Task>, DomainError>,
    last: GetTaskTree,
) -> bool {
    &&& call_ensures(RootLookup::resume, (state, found), first)
    &&& match first {
        GetTaskTree::FindSubtree(lookup) => call_ensures(
            SubtreeLookup::resume,
            (lookup, ids),
            second,
        ),
        _ => second == first,
    }
    &&& match second {
        GetTaskTree::Fetch(fetch) => call_ensures(SubtreeFetch::resume, (fetch, tasks), last),
        _ => last == second,
    }
}

/// Every live task of a user, with a parent or without, is shown to them with its
/// full subtree; a task of someone else is forbidden, and one that is not there
/// is not found.
pub proof fn law_tree_is_read_in_full(
    t: Table,
    task_id: Uuid,
    user_id: Uuid,
    state: RootLookup,
    asked: Uuid,
    found: Result<Option<Task>, DomainError>,
    first: GetTaskTree,
    asked_root: Uuid,
    ids: Result<Vec<Uuid>, DomainError>,
    second: GetTaskTree,
    asked_ids: &Vec<Uuid>,
    tasks: Result<Vec<Task>, DomainError>,
    last: GetTaskTree,
)
    requires
        table::is_sound(t),
        call_ensures(TaskService::get_task_tree, (task_id, user_id), state),
        tree_runs(state, found, first, ids, second, tasks, last),
        call_ensures(RootLookup::find_by_id, (&state,), asked),
        table::answers_find(t, asked, found),
        first matches GetTaskTree::FindSubtree(lookup) ==> call_ensures(
            SubtreeLookup::find_subtree_ids,
            (&lookup,),
            asked_root,
        ) && table::answers_subtree(t, asked_root, ids),
        second matches GetTaskTree::Fetch(fetch) ==> call_ensures(
            SubtreeFetch::find_by_ids,
            (&fetch,),
            asked_ids,
        ) && table::answers_fetch(t, asked_ids@, tasks),
    ensures
        asked == task_id,
        !table::is_live(t, task_id) ==> last == GetTaskTree::Done(
            Err(DomainError::NotFound(task_id)),
        ),
        table::is_live(t, task_id) && t[task_id].user_id != user_id ==> last == GetTaskTree::Done(
            Err(DomainError::Forbidden(task_id)),
        ),
        table::is_live(t, task_id) && t[task_id].user_id == user_id ==> {
            &&& first matches GetTaskTree::FindSubtree(lookup) && lookup.root@ == t[task_id]
            &&& last matches GetTaskTree::Done(Ok(built)) && tree::tree_view(built).task
                == t[task_id] && laws::is_full_tree(t, tree::tree_view(built))
        },
{
    if table::is_live(t, task_id) && t[task_id].user_id == user_id {
        let lookup = first->FindSubtree_0;
        assert(t[task_id].id == task_id);
        assert(lookup.root@.id == lookup.root.id);
        laws::law_subtree_is_shown_in_full(t, lookup.root, ids, tasks, last);
    }
}

/// An error of the table ends the reading of a subtree, and is the answer.
pub proof fn law_tree_passes_errors_on(
    state: RootLookup,
    found: Result<Option<Task>, DomainError>,
    first: GetTaskTree,
    ids: Result<Vec<Uuid>, DomainError>,
    second: GetTaskTree,
    tasks: Result<Vec<Task>, DomainError>,
    last: GetTaskTree,
)
    requires
        tree_runs(state, found, first, ids, second, tasks, last),
    ensures
        found matches Err(e) ==> last == GetTaskTree::Done(Err(e)),
        first is FindSubtree ==> (ids matches Err(e) ==> last == GetTaskTree::Done(Err(e))),
        first is FindSubtree && ids is Ok ==> second is Fetch,
        second is Fetch ==> (tasks matches Err(e) ==> last == GetTaskTree::Done(Err(e))),
        second is Fetch && tasks is Ok ==> (last matches GetTaskTree::Done(Ok(_))),
{
}

/// A tree says the task at its root, and what each tree below it says, in order.
pub proof fn law_tree_says_its_nodes(shown: TaskTree, i: int)
    ensures
        tree::tree_view(shown).task == shown.task@,
        tree::tree_view(shown).children.len() == shown.children@.len(),
        0 <= i < shown.children@.len() ==> tree::tree_view(shown).children[i] == tree::tree_view(
            shown.children@[i],
        ),
{
}

/// A task says its fields.
pub proof fn law_task_says_its_fields(task: Task)
    ensures
        task@ == (TaskView {
            id: task.id,
            user_id: task.user_id,
            parent_id: task.parent_id,
            title: task.title@,
            description: task.description@,
            status: task.status,
            estimated_mins: task.estimated_mins,
            spent_mins: task.spent_mins,
            is_deleted: task.is_deleted,
            created_at: task.created_at,
            updated_at: task.updated_at,
        }),
{
}

/// A copy of a task is the same task.
pub proof fn law_copy_is_the_same_task(task: Task, copy: Task)
    requires
        call_ensures(Task::clone, (&task,), copy),
    ensures
        copy == task,
{
}

// Updating a task.

/// The checks of an update, from the lookup of its task to the decision.
pub open spec fn update_runs(
    state: CheckTask,
    found: Result<Option<Task>, DomainError>,
    first: UpdateTask,
    asked_parent: Uuid,
    parent: Result<Option<Task>, DomainError>,
    second: UpdateTask,
    asked_root: Uuid,
    subtree: Result<Vec<Uuid>, DomainError>,
    last: UpdateTask,
) -> bool {
    &&& call_ensures(CheckTask::resume, (state, found), first)
    &&& match first {
        UpdateTask::FindParent(check) => call_ensures(
            CheckNewParent::find_by_id,
            (&check,),
            asked_parent,
        ) && call_ensures(CheckNewParent::resume, (check, parent), second),
        _ => second == first,
    }
    &&& match second {
        UpdateTask::FindSubtree(check) => call_ensures(
            CheckSubtree::find_subtree_ids,
            (&check,),
            asked_root,
        ) && call_ensures(CheckSubtree::resume, (check, subtree), last),
        _ => last == second,
    }
}

/// An update is written if and only if its task was found to belong to the user,
/// and its new parent, where it names one, is another task, was found to belong to
/// the user, and is not in the subtree of the task.  It looks for these tasks and
/// no others.  Each refusal has its reason, the first that applies.
pub proof fn law_update_is_refused_for_a_reason(
    task_id: Uuid,
    user_id: Uuid,
    input: UpdateTaskInput,
    state: CheckTask,
    asked: Uuid,
    found: Result<Option<Task>, DomainError>,
    first: UpdateTask,
    asked_parent: Uuid,
    parent: Result<Option<Task>, DomainError>,
    second: UpdateTask,
    asked_root: Uuid,
    subtree: Result<Vec<Uuid>, DomainError>,
    last: UpdateTask,
)
    requires
        call_ensures(TaskService::update_task, (task_id, user_id, input), state),
        call_ensures(CheckTask::find_by_id, (&state,), asked),
        update_runs(
            state,
            found,
            first,
            asked_parent,
            parent,
            second,
            asked_root,
            subtree,
            last,
        ),
    ensures
        asked == task_id,
        first is FindParent ==> input.parent_id == Some(Some(asked_parent)),
        second is FindSubtree ==> asked_root == task_id,
        match found {
            Err(e) => last == UpdateTask::Done(Err(e)),
            Ok(None) => last == UpdateTask::Done(Err(DomainError::NotFound(task_id))),
            Ok(Some(task)) => if task.user_id != user_id {
                last == UpdateTask::Done(Err(DomainError::Forbidden(task_id)))
            } else {
                match input.parent_id {
                    Some(Some(new_parent)) => if new_parent == task_id {
                        last == UpdateTask::Done(Err(DomainError::SelfReference))
                    } else {
                        &&& first is FindParent
                        &&& match parent {
                            Err(e) => last == UpdateTask::Done(Err(e)),
                            Ok(None) => last == UpdateTask::Done(
                                Err(DomainError::NotFound(new_parent)),
                            ),
                            Ok(Some(p)) => if p.user_id != user_id {
                                last == UpdateTask::Done(Err(DomainError::Forbidden(new_parent)))
                            } else {
                                &&& second is FindSubtree
                                &&& match subtree {
                                    Err(e) => last == UpdateTask::Done(Err(e)),
                                    Ok(ids) => if exists|i: int|
                                        0 <= i < ids@.len() && #[trigger] ids@[i] == new_parent {
                                        last == UpdateTask::Done(
                                            Err(DomainError::CircularReference),
                                        )
                                    } else {
                                        last is Write
                                    },
                                }
                            },
                        }
                    },
                    _ => first is Write && last is Write,
                }
            },
        },
{
    if subtree is Ok {
        let ids = subtree->Ok_0@;
        assert(forall|x: Uuid| ids.contains(x) <==> exists|i: int| 0 <= i < ids.len() && ids[i] == x);
    }
}

/// The patch that an update writes has, field by field, what the caller handed
/// in, and goes to the task it was called for.
pub proof fn law_written_patch_is_what_was_asked_for(
    task_id: Uuid,
    user_id: Uuid,
    input: UpdateTaskInput,
    state: CheckTask,
    found: Result<Option<Task>, DomainError>,
    first: UpdateTask,
    asked_parent: Uuid,
    parent: Result<Option<Task>, DomainError>,
    second: UpdateTask,
    asked_root: Uuid,
    subtree: Result<Vec<Uuid>, DomainError>,
    write: WritePatch,
    request: (Uuid, &TaskPatchRow),
)
    requires
        call_ensures(TaskService::update_task, (task_id, user_id, input), state),
        update_runs(
            state,
            found,
            first,
            asked_parent,
            parent,
            second,
            asked_root,
            subtree,
            UpdateTask::Write(write),
        ),
        call_ensures(WritePatch::update, (&write,), request),
    ensures
        request.0 == task_id,
        request.1.title == input.title,
        request.1.description == input.description,
        request.1.status == input.status,
        request.1.estimated_mins == input.estimated_mins,
        request.1.parent_id == input.parent_id,
{
}

/// A task that is updated is stored, and answered, with what the caller names,
/// and with what it had where the caller names nothing.
pub proof fn law_update_stores_what_was_asked_for(
    task_id: Uuid,
    user_id: Uuid,
    input: UpdateTaskInput,
    state: CheckTask,
    found: Result<Option<Task>, DomainError>,
    first: UpdateTask,
    asked_parent: Uuid,
    parent: Result<Option<Task>, DomainError>,
    second: UpdateTask,
    asked_root: Uuid,
    subtree: Result<Vec<Uuid>, DomainError>,
    write: WritePatch,
    request: (Uuid, &TaskPatchRow),
    t: Table,
    stored: Task,
    after: Table,
)
    requires
        call_ensures(TaskService::update_task, (task_id, user_id, input), state),
        update_runs(
            state,
            found,
            first,
            asked_parent,
            parent,
            second,
            asked_root,
            subtree,
            UpdateTask::Write(write),
        ),
        call_ensures(WritePatch::update, (&write,), request),
        table::answers_update(t, request.0, request.1@, Ok(stored), after),
    ensures
        stored.title@ == match input.title {
            Some(title) => title@,
            None => t[task_id].title,
        },
        stored.description@ == match input.description {
            Some(description) => description@,
            None => t[task_id].description,
        },
        stored.status == match input.status {
            Some(status) => status,
            None => t[task_id].status,
        },
        stored.estimated_mins == match input.estimated_mins {
            Some(estimated_mins) => estimated_mins,
            None => t[task_id].estimated_mins,
        },
        stored.parent_id == match input.parent_id {
            Some(parent_id) => parent_id,
            None => t[task_id].parent_id,
        },
        stored.user_id == t[task_id].user_id,
        stored.spent_mins == t[task_id].spent_mins,
        after == t.insert(task_id, stored@),
{
}

/// An update that was written is announced as `task.updated`, with the identifier
/// of the task and the four plain fields as the patch names them, and answers the
/// task as stored, whether or not the news got out.  One that was not written
/// answers the error and announces nothing.
pub proof fn law_update_is_announced_and_answered(
    write: WritePatch,
    stored: Result<Task, DomainError>,
    step: UpdateTask,
    parts: (Message, Announced<Task>),
    published: Result<(), DomainError>,
    answer: Result<Task, DomainError>,
)
    requires
        call_ensures(WritePatch::resume, (write, stored), step),
        step matches UpdateTask::Publish(news) ==> call_ensures(
            Announcement::<Task>::publish,
            (news,),
            parts,
        ) && call_ensures(Announced::<Task>::resume, (parts.1, published), answer),
    ensures
        match stored {
            Err(e) => step == UpdateTask::Done(Err(e)),
            Ok(task) => {
                &&& step is Publish
                &&& parts.0.subject@ == "task.updated"@
                &&& json::json_fields(parts.0.payload) == Map::<Seq<char>, JsonModel>::empty().insert(
                    "task_id"@,
                    JsonModel::Text(identifier::uuid_text(write.task_id.bits)),
                ).insert("changes"@, JsonModel::Object(named_fields(write.patch)))
                &&& answer == Ok::<Task, DomainError>(task)
            },
        },
{
}

/// The four plain fields of a patch, `null` where it names none.
pub open spec fn named_fields(patch: TaskPatchRow) -> Map<Seq<char>, JsonModel> {
    Map::empty().insert(
        "title"@,
        match patch.title {
            Some(title) => JsonModel::Text(title@),
            None => JsonModel::Null,
        },
    ).insert(
        "description"@,
        match patch.description {
            Some(description) => JsonModel::Text(description@),
            None => JsonModel::Null,
        },
    ).insert(
        "status"@,
        match patch.status {
            Some(TaskStatus::Todo) => JsonModel::Text("todo"@),
            Some(TaskStatus::InProgress) => JsonModel::Text("in_progress"@),
            Some(TaskStatus::Done) => JsonModel::Text("done"@),
            Some(TaskStatus::Cancelled) => JsonModel::Text("cancelled"@),
            None => JsonModel::Null,
        },
    ).insert(
        "estimated_mins"@,
        match patch.estimated_mins {
            Some(n) => JsonModel::Number(n as int),
            None => JsonModel::Null,
        },
    )
}

/// The changes of a patch are its four plain fields.
pub proof fn law_changes_are_the_named_fields(patch: TaskPatchRow, object: JsonObject)
    requires
        call_ensures(service::changes, (&patch,), object),
    ensures
        json::json_fields(object) == named_fields(patch),
{
}

// Deleting a task.

/// A deletion looks for the task it was called for, and is written if and only if
/// it was found to belong to the user.  Each refusal has its reason.
pub proof fn law_deletion_is_refused_for_a_reason(
    task_id: Uuid,
    user_id: Uuid,
    state: CheckDeletion,
    asked: Uuid,
    found: Result<Option<Task>, DomainError>,
    step: DeleteTask,
    marked: Uuid,
)
    requires
        call_ensures(TaskService::delete_task, (task_id, user_id), state),
        call_ensures(CheckDeletion::find_by_id, (&state,), asked),
        call_ensures(CheckDeletion::resume, (state, found), step),
        step matches DeleteTask::Write(mark) ==> call_ensures(
            MarkDeleted::soft_delete,
            (&mark,),
            marked,
        ),
    ensures
        asked == task_id,
        match found {
            Err(e) => step == DeleteTask::Done(Err(e)),
            Ok(None) => step == DeleteTask::Done(Err(DomainError::NotFound(task_id))),
            Ok(Some(task)) => {
                &&& task.user_id == user_id ==> step is Write && marked == task_id
                &&& task.user_id != user_id ==> step == DeleteTask::Done(
                    Err(DomainError::Forbidden(task_id)),
                )
            },
        },
{
}

/// A deletion that was written is announced as `task.deleted`, with the
/// identifier of the task, and succeeds, whether or not the news got out.  One
/// that was not written answers the error and announces nothing.
pub proof fn law_deletion_is_announced_and_answered(
    mark: MarkDeleted,
    marked: Uuid,
    reply: Result<(), DomainError>,
    step: DeleteTask,
    parts: (Message, Announced<()>),
    published: Result<(), DomainError>,
    answer: Result<(), DomainError>,
)
    requires
        call_ensures(MarkDeleted::soft_delete, (&mark,), marked),
        call_ensures(MarkDeleted::resume, (mark, reply), step),
        step matches DeleteTask::Publish(news) ==> call_ensures(
            Announcement::<()>::publish,
            (news,),
            parts,
        ) && call_ensures(Announced::<()>::resume, (parts.1, published), answer),
    ensures
        match reply {
            Err(e) => step == DeleteTask::Done(Err(e)),
            Ok(_) => {
                &&& step is Publish
                &&& parts.0.subject@ == "task.deleted"@
                &&& json::json_fields(parts.0.payload) == Map::<Seq<char>, JsonModel>::empty().insert(
                    "task_id"@,
                    JsonModel::Text(identifier::uuid_text(marked.bits)),
                )
                &&& answer == Ok::<(), DomainError>(())
            },
        },
{
}

// Events from other services.

/// When a user is deleted, the tasks of that user are asked to be deleted, and
/// that succeeds however many there were; only an error of the table is one.
pub proof fn law_user_deletion_asks_for_that_user(
    event: UserDeletedEvent,
    state: UserDeletion,
    asked: Uuid,
    reply: Result<u64, DomainError>,
    done: Result<(), DomainError>,
)
    requires
        call_ensures(TaskService::handle_user_deleted, (event,), state),
        call_ensures(UserDeletion::soft_delete_by_user, (&state,), asked),
        call_ensures(UserDeletion::resume, (state, reply), done),
    ensures
        asked == event.user_id,
        match reply {
            Ok(_) => done == Ok::<(), DomainError>(()),
            Err(e) => done == Err::<(), DomainError>(e),
        },
{
}

/// A stopped timer asks for the most minutes that its seconds fill, at least one,
/// to be added to its own task, where a number of 32 bits holds them; a timer of
/// less than a minute, or of more than that, asks for nothing and is done.
pub proof fn law_timer_asks_for_its_whole_minutes(
    event: TimerStoppedEvent,
    step: TimerBooking,
    asked: (Uuid, i32),
    reply: Result<(), DomainError>,
    done: Result<(), DomainError>,
)
    requires
        call_ensures(TaskService::handle_timer_stopped, (event,), step),
        step matches TimerBooking::Add(add) ==> call_ensures(
            AddMinutes::add_spent_mins,
            (&add,),
            asked,
        ) && call_ensures(AddMinutes::resume, (add, reply), done),
    ensures
        step is Add <==> 60 <= event.duration_seconds < 60 * 0x8000_0000,
        step is Add ==> {
            &&& asked.0 == event.task_id
            &&& 60 * asked.1 <= event.duration_seconds < 60 * (asked.1 + 1)
            &&& done == reply
        },
        !(step is Add) ==> step == TimerBooking::Done(Ok(())),
{
}

} // verus!
