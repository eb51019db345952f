//! What goes over the wire: requests and replies, messages, words and settings,
//! stated of the calls themselves.

use vstd::prelude::*;

use crate::config;
use crate::config::{AppConfig, EnvSettings};
use crate::domain::{DomainError, Task, TaskStatus};
use crate::handlers;
use crate::handlers::{
    CreateTaskRequest, ErrorReply, ListTasksQuery, Reply, TaskListResponse, TaskResponse,
    TaskTreeResponse, UpdateTaskRequest,
};
use crate::headers;
use crate::headers::RequestHeaders;
use crate::identifier;
use crate::identifier::Uuid;
use crate::infrastructure::nats;
use crate::infrastructure::nats::{
    Incoming, Message, NatsEventPublisher, NatsSubscriber, NextMove, NoopEventPublisher, Outgoing,
    TaskEvent,
};
use crate::json;
use crate::json::{JsonModel, JsonObject};
use crate::service::{
    CheckDeletion, CheckTask, CreateTask, OwnershipCheck, RootLookup, TaskListing, TaskService,
    UpdateTaskInput,
};
use crate::text;
use crate::tree::TaskTree;
use crate::validation;
use crate::validation::Complaint;

verus! {

// Words.

/// A status is written in the words of the table and of the wire, and read from
/// these words alone; any other text is refused by name.
pub proof fn law_status_in_words(
    status: TaskStatus,
    written: String,
    s: &str,
    read: Result<TaskStatus, DomainError>,
)
    requires
        call_ensures(TaskStatus::to_string, (&status,), written),
        call_ensures(TaskStatus::from_str, (s,), read),
    ensures
        written@ == match status {
            TaskStatus::Todo => "todo"@,
            TaskStatus::InProgress => "in_progress"@,
            TaskStatus::Done => "done"@,
            TaskStatus::Cancelled => "cancelled"@,
        },
        s@ == written@ <==> read == Ok::<TaskStatus, DomainError>(status),
        read is Ok <==> s@ == "todo"@ || s@ == "in_progress"@ || s@ == "done"@ || s@
            == "cancelled"@,
        read matches Err(e) ==> (e matches DomainError::InvalidStatus(refused) && refused@ == s@),
{
    crate::domain::law_written_status_is_read_back(status, s@);
}

/// A task is yet to do where nothing else is said.
pub proof fn law_default_status(status: TaskStatus)
    requires
        call_ensures(TaskStatus::default, (), status),
    ensures
        status == TaskStatus::Todo,
{
}

/// An error in words names what it is about.
pub proof fn law_error_in_words(e: DomainError, words: String)
    requires
        call_ensures(DomainError::to_string, (&e,), words),
    ensures
        words@ == match e {
            DomainError::NotFound(id) => "Task not found: "@ + identifier::uuid_text(id.bits),
            DomainError::Forbidden(id) => "Access denied for task: "@ + identifier::uuid_text(
                id.bits,
            ),
            DomainError::InvalidStatus(s) => "Invalid status value: '"@ + s@ + "'"@,
            DomainError::CircularReference => "Circular parent reference detected"@,
            DomainError::SelfReference => "Cannot set parent to itself"@,
            DomainError::Validation(s) => "Validation error: "@ + s@,
            DomainError::Database(s) => "Database error: "@ + s@,
            DomainError::Messaging(s) => "Messaging error: "@ + s@,
        },
{
}

/// Two texts are the same where they have the same characters; joined texts
/// follow each other.
pub proof fn law_texts(a: &str, b: &str, same: bool, joined: String)
    requires
        call_ensures(text::same_text, (a, b), same),
        call_ensures(text::joined, (a, b), joined),
    ensures
        same <==> a@.len() == b@.len() && forall|i: int| 0 <= i < a@.len() ==> a@[i] == b@[i],
        joined@.len() == a@.len() + b@.len(),
        joined@.take(a@.len() as int) == a@,
        joined@.skip(a@.len() as int) == b@,
{
    if a@.len() == b@.len() && forall|i: int| 0 <= i < a@.len() ==> a@[i] == b@[i] {
        assert(a@ =~= b@);
    }
    assert(joined@.take(a@.len() as int) =~= a@);
    assert(joined@.skip(a@.len() as int) =~= b@);
}

// Who is asking.

/// A request is of the user whose identifier the first `X-User-Id` spells.
/// Without that header, or where it is no plain text, it is unauthorized; where
/// it spells no identifier, it is a bad request.
pub proof fn law_caller_is_the_user_in_the_header(
    request: RequestHeaders,
    user: Result<Uuid, ErrorReply>,
)
    requires
        call_ensures(handlers::extract_user_id, (&request,), user),
    ensures
        ({
            let values = headers::first_values(request);
            let readable = values.contains_key("x-user-id"@) && headers::is_visible(
                values["x-user-id"@],
            );
            let spelled = identifier::uuid_number(headers::ascii_text(values["x-user-id"@]));
            match user {
                Ok(user_id) => readable && spelled == Some(user_id.bits as int),
                Err(reply) => if readable {
                    &&& spelled is None
                    &&& reply.status == 400
                    &&& reply.body.error@ == "invalid X-User-Id format"@
                    &&& reply.body.code@ == "BAD_REQUEST"@
                } else {
                    &&& reply.status == 401
                    &&& reply.body.error@ == "missing X-User-Id header"@
                    &&& reply.body.code@ == "UNAUTHORIZED"@
                },
            }
        }),
{
    identifier::lemma_uuid_number_bound(
        headers::ascii_text(headers::first_values(request)["x-user-id"@]),
    );
}

/// The identifier of a request is what the first `x-request-id` says, or a hyphen
/// where there is none that can be read.
pub proof fn law_request_identifier(request: RequestHeaders, id: String)
    requires
        call_ensures(handlers::request_id, (&request,), id),
    ensures
        ({
            let values = headers::first_values(request);
            let readable = values.contains_key("x-request-id"@) && headers::is_visible(
                values["x-request-id"@],
            );
            &&& readable ==> id@ == headers::ascii_text(values["x-request-id"@])
            &&& !readable ==> id@ == "-"@
        }),
{
}

/// Two replies that refuse a request say the same.
pub open spec fn same_refusal(a: ErrorReply, b: ErrorReply) -> bool {
    a.status == b.status && a.body.error@ == b.body.error@ && a.body.code@ == b.body.code@
}

/// Every route that only reads or deletes begins the operation of the service for
/// the caller and the task or the parent in the request; a request without a
/// caller is refused by every route alike.
pub proof fn law_routes_act_for_the_caller(
    request: RequestHeaders,
    user: Result<Uuid, ErrorReply>,
    id: Uuid,
    query: ListTasksQuery,
    get: Result<OwnershipCheck, ErrorReply>,
    get_begins: OwnershipCheck,
    list: Result<TaskListing, ErrorReply>,
    list_begins: TaskListing,
    tree: Result<RootLookup, ErrorReply>,
    tree_begins: RootLookup,
    deletion: Result<CheckDeletion, ErrorReply>,
    deletion_begins: CheckDeletion,
)
    requires
        call_ensures(handlers::extract_user_id, (&request,), user),
        call_ensures(handlers::get_task, (&request, id), get),
        call_ensures(handlers::list_tasks, (&request, query), list),
        call_ensures(handlers::get_task_tree, (&request, id), tree),
        call_ensures(handlers::delete_task, (&request, id), deletion),
        user matches Ok(user_id) ==> {
            &&& call_ensures(TaskService::get_task, (id, user_id), get_begins)
            &&& call_ensures(
                TaskService::list_tasks,
                (user_id, query.parent_id),
                list_begins,
            )
            &&& call_ensures(TaskService::get_task_tree, (id, user_id), tree_begins)
            &&& call_ensures(TaskService::delete_task, (id, user_id), deletion_begins)
        },
    ensures
        match user {
            Ok(_) => {
                &&& get == Ok::<OwnershipCheck, ErrorReply>(get_begins)
                &&& list == Ok::<TaskListing, ErrorReply>(list_begins)
                &&& tree == Ok::<RootLookup, ErrorReply>(tree_begins)
                &&& deletion == Ok::<CheckDeletion, ErrorReply>(deletion_begins)
            },
            Err(refusal) => {
                &&& get matches Err(reply) && same_refusal(reply, refusal)
                &&& list matches Err(reply) && same_refusal(reply, refusal)
                &&& tree matches Err(reply) && same_refusal(reply, refusal)
                &&& deletion matches Err(reply) && same_refusal(reply, refusal)
            },
        },
{
}

/// The route that updates begins the operation of the service for the caller, the
/// task in the request and the fields of the body, one for one.
pub proof fn law_update_route_hands_on_the_body(
    request: RequestHeaders,
    user_id: Uuid,
    id: Uuid,
    body: UpdateTaskRequest,
    input: UpdateTaskInput,
    state: CheckTask,
    begins: CheckTask,
)
    requires
        call_ensures(handlers::extract_user_id, (&request,), Ok(user_id)),
        call_ensures(handlers::update_task, (&request, id, body), Ok(state)),
        input.title == body.title,
        input.description == body.description,
        input.status == body.status,
        input.estimated_mins == body.estimated_mins,
        input.parent_id == body.parent_id,
        call_ensures(TaskService::update_task, (id, user_id, input), begins),
    ensures
        state == begins,
        state.task_id == id,
        state.user_id == user_id,
        state.patch.title == body.title,
        state.patch.description == body.description,
        state.patch.status == body.status,
        state.patch.estimated_mins == body.estimated_mins,
        state.patch.parent_id == body.parent_id,
{
}

// What a body must keep to.

/// A title of this length, and an estimate not below zero, do.
pub open spec fn fields_do(title: Option<String>, estimated_mins: Option<i32>) -> bool {
    &&& title matches Some(title) ==> 1 <= title@.len() <= 500
    &&& estimated_mins matches Some(n) ==> n >= 0
}

/// A complaint is of a title that is too short or too long.
pub open spec fn is_of_title(complaint: Complaint, title: Seq<char>) -> bool {
    &&& complaint.code == "length"@
    &&& complaint.message is None
    &&& complaint.params == Map::<Seq<char>, JsonModel>::empty().insert(
        "min"@,
        JsonModel::Number(1),
    ).insert("max"@, JsonModel::Number(500)).insert("value"@, JsonModel::Text(title))
}

/// A complaint is of an estimate below zero.
pub open spec fn is_of_estimate(complaint: Complaint, estimated_mins: i32) -> bool {
    &&& complaint.code == "range"@
    &&& complaint.message is None
    &&& complaint.params == Map::<Seq<char>, JsonModel>::empty().insert(
        "min"@,
        JsonModel::Number(0),
    ).insert("value"@, JsonModel::Number(estimated_mins as int))
}

/// Complaints are of the title where it does not do, of the estimate where it does
/// not do, and of nothing else.
pub open spec fn are_of_fields(
    complaints: Map<Seq<char>, Seq<Complaint>>,
    title: Option<String>,
    estimated_mins: Option<i32>,
) -> bool {
    let bad_title = title matches Some(title) && !(1 <= title@.len() <= 500);
    let bad_estimate = estimated_mins matches Some(n) && n < 0;
    &&& forall|field: Seq<char>| #[trigger]
        complaints.contains_key(field) <==> (field == "title"@ && bad_title) || (field
            == "estimated_mins"@ && bad_estimate)
    &&& bad_title ==> complaints["title"@].len() == 1 && is_of_title(
        complaints["title"@][0],
        title->0@,
    )
    &&& bad_estimate ==> complaints["estimated_mins"@].len() == 1 && is_of_estimate(
        complaints["estimated_mins"@][0],
        estimated_mins->0,
    )
}

proof fn lemma_complaints_by_field(title: Option<String>, estimated_mins: Option<i32>)
    ensures
        are_of_fields(
            handlers::field_complaints(
                crate::repository::optional_view(title),
                estimated_mins,
            ),
            title,
            estimated_mins,
        ),
{
    reveal_strlit("title");
    reveal_strlit("estimated_mins");
    assert("title"@.len() != "estimated_mins"@.len());
}

/// A body is valid where its title and its estimate do, as far as it names them;
/// where they do not, there is a complaint of each that does not.
pub proof fn law_bodies_are_checked_field_by_field(
    creation: CreateTaskRequest,
    created: Result<(), validator::ValidationErrors>,
    update: UpdateTaskRequest,
    updated: Result<(), validator::ValidationErrors>,
)
    requires
        call_ensures(CreateTaskRequest::validate, (&creation,), created),
        call_ensures(UpdateTaskRequest::validate, (&update,), updated),
    ensures
        created is Ok <==> fields_do(Some(creation.title), Some(creation.estimated_mins)),
        created matches Err(errors) ==> are_of_fields(
            validation::complaints(errors),
            Some(creation.title),
            Some(creation.estimated_mins),
        ),
        updated is Ok <==> fields_do(update.title, update.estimated_mins),
        updated matches Err(errors) ==> are_of_fields(
            validation::complaints(errors),
            update.title,
            update.estimated_mins,
        ),
{
    lemma_complaints_by_field(Some(creation.title), Some(creation.estimated_mins));
    lemma_complaints_by_field(update.title, update.estimated_mins);
}

/// A text that complaints of the fields that do not do, and of nothing else, are
/// shown as.
pub closed spec fn is_of_these_fields_only(
    words: String,
    title: Option<String>,
    estimated_mins: Option<i32>,
) -> bool {
    exists|errors: validator::ValidationErrors|
        #![trigger validation::complaints(errors)]
        are_of_fields(validation::complaints(errors), title, estimated_mins) && call_ensures(
            validation::errors_text,
            (&errors,),
            words,
        )
}

proof fn lemma_text_is_of_these_fields_only(
    words: String,
    title: Option<String>,
    estimated_mins: Option<i32>,
)
    requires
        handlers::is_text_of_complaints(
            words,
            crate::repository::optional_view(title),
            estimated_mins,
        ),
    ensures
        is_of_these_fields_only(words, title, estimated_mins),
{
    let errors = handlers::lemma_text_of_complaints(
        words,
        crate::repository::optional_view(title),
        estimated_mins,
    );
    lemma_complaints_by_field(title, estimated_mins);
    assert(are_of_fields(validation::complaints(errors), title, estimated_mins));
}

/// The reply to a body that does not do: its status and code, and a text that
/// tells of each field that does not, and of nothing else.
pub open spec fn tells_of_fields(
    reply: ErrorReply,
    title: Option<String>,
    estimated_mins: Option<i32>,
) -> bool {
    &&& reply.status == 422
    &&& reply.body.code@ == "VALIDATION_ERROR"@
    &&& is_of_these_fields_only(reply.body.error, title, estimated_mins)
    &&& (title matches Some(title) && !(1 <= title@.len() <= 500)) ==> text::contains_text(
        reply.body.error@,
        "title: Validation error: length ["@,
    )
    &&& (estimated_mins matches Some(n) && n < 0) ==> text::contains_text(
        reply.body.error@,
        "estimated_mins: Validation error: range ["@,
    )
}

/// A creation or an update goes on to the service if and only if there is a caller
/// and its fields do; else it is refused, for want of a caller first.
pub proof fn law_bodies_go_on_where_they_do(
    request: RequestHeaders,
    user: Result<Uuid, ErrorReply>,
    creation: CreateTaskRequest,
    created: Result<CreateTask, ErrorReply>,
    id: Uuid,
    update: UpdateTaskRequest,
    updated: Result<CheckTask, ErrorReply>,
)
    requires
        call_ensures(handlers::extract_user_id, (&request,), user),
        call_ensures(handlers::create_task, (&request, creation), created),
        call_ensures(handlers::update_task, (&request, id, update), updated),
    ensures
        match user {
            Err(refusal) => {
                &&& created matches Err(reply) && same_refusal(reply, refusal)
                &&& updated matches Err(reply) && same_refusal(reply, refusal)
            },
            Ok(_) => {
                &&& created is Ok <==> fields_do(
                    Some(creation.title),
                    Some(creation.estimated_mins),
                )
                &&& created matches Err(reply) ==> tells_of_fields(
                    reply,
                    Some(creation.title),
                    Some(creation.estimated_mins),
                )
                &&& updated is Ok <==> fields_do(update.title, update.estimated_mins)
                &&& updated matches Err(reply) ==> tells_of_fields(
                    reply,
                    update.title,
                    update.estimated_mins,
                )
            },
        },
{
    lemma_how_complaints_begin();
    if user is Ok && created is Err {
        lemma_text_is_of_these_fields_only(
            created->Err_0.body.error,
            Some(creation.title),
            Some(creation.estimated_mins),
        );
    }
    if user is Ok && updated is Err {
        lemma_text_is_of_these_fields_only(
            updated->Err_0.body.error,
            update.title,
            update.estimated_mins,
        );
    }
}

proof fn lemma_how_complaints_begin()
    ensures
        validation::complaint_text("title"@, "length"@) == "title: Validation error: length ["@,
        validation::complaint_text("estimated_mins"@, "range"@)
            == "estimated_mins: Validation error: range ["@,
{
    reveal_strlit("title");
    reveal_strlit("length");
    reveal_strlit("estimated_mins");
    reveal_strlit("range");
    reveal_strlit(": Validation error: ");
    reveal_strlit(" [");
    reveal_strlit("title: Validation error: length [");
    reveal_strlit("estimated_mins: Validation error: range [");
    assert(validation::complaint_text("title"@, "length"@)
        =~= "title: Validation error: length ["@);
    assert(validation::complaint_text("estimated_mins"@, "range"@)
        =~= "estimated_mins: Validation error: range ["@);
}

/// A parent that is present in a body is set, `null` to none.
pub proof fn law_present_parent_is_set(present: Option<Uuid>, parent_id: Option<Option<Uuid>>)
    requires
        call_ensures(handlers::deserialize_optional_parent, (present,), parent_id),
    ensures
        parent_id is Some,
        parent_id->0 == present,
{
}

/// The reply to complaints in words says these words.
pub proof fn law_complaints_in_words_are_handed_on(words: String, reply: ErrorReply)
    requires
        call_ensures(handlers::validation_reply, (words,), reply),
    ensures
        reply.status == 422,
        reply.body.error@ == words@,
        reply.body.code@ == "VALIDATION_ERROR"@,
{
}

// Replies.

/// An error is answered by its status and code, and in its own words.
pub proof fn law_errors_by_status_and_code(e: DomainError, words: String, reply: ErrorReply)
    requires
        call_ensures(DomainError::to_string, (&e,), words),
        call_ensures(DomainError::into_response, (e,), reply),
    ensures
        reply.body.error@ == words@,
        reply.status == match e {
            DomainError::NotFound(_) => 404u16,
            DomainError::Forbidden(_) => 403u16,
            DomainError::Validation(_) => 422u16,
            DomainError::SelfReference => 422u16,
            DomainError::CircularReference => 422u16,
            DomainError::InvalidStatus(_) => 400u16,
            DomainError::Database(_) => 500u16,
            DomainError::Messaging(_) => 500u16,
        },
        reply.body.code@ == match e {
            DomainError::NotFound(_) => "NOT_FOUND"@,
            DomainError::Forbidden(_) => "FORBIDDEN"@,
            DomainError::Validation(_) => "VALIDATION_ERROR"@,
            DomainError::SelfReference => "SELF_REFERENCE"@,
            DomainError::CircularReference => "CIRCULAR_REF"@,
            DomainError::InvalidStatus(_) => "INVALID_STATUS"@,
            DomainError::Database(_) => "DB_ERROR"@,
            DomainError::Messaging(_) => "MESSAGING_ERROR"@,
        },
{
}

/// What an operation gave is answered as it is: a new task by 201, a task, a list
/// with its length and a tree by 200, a deletion by 204.
pub proof fn law_results_are_answered(
    task: Task,
    created: Result<Reply<TaskResponse>, ErrorReply>,
    found: Result<Reply<TaskResponse>, ErrorReply>,
    tasks: Vec<Task>,
    listed: Result<Reply<TaskListResponse>, ErrorReply>,
    tree: TaskTree,
    shown: Result<Reply<TaskTreeResponse>, ErrorReply>,
    deleted: Result<Reply<()>, ErrorReply>,
)
    requires
        call_ensures(handlers::create_task_reply, (Ok(task),), created),
        call_ensures(handlers::task_reply, (Ok(task),), found),
        call_ensures(handlers::list_tasks_reply, (Ok(tasks),), listed),
        call_ensures(handlers::get_task_tree_reply, (Ok(tree),), shown),
        call_ensures(handlers::delete_task_reply, (Ok(()),), deleted),
    ensures
        created matches Ok(reply) && reply.status == 201 && reply.body.task == task,
        found matches Ok(reply) && reply.status == 200 && reply.body.task == task,
        listed matches Ok(reply) && reply.status == 200 && reply.body.tasks == tasks
            && reply.body.total == tasks@.len(),
        shown matches Ok(reply) && reply.status == 200 && reply.body.tree == tree,
        deleted matches Ok(reply) && reply.status == 204,
{
}

/// An error of any operation is answered as that error.
pub proof fn law_errors_are_answered(
    e: DomainError,
    refusal: ErrorReply,
    created: Result<Reply<TaskResponse>, ErrorReply>,
    found: Result<Reply<TaskResponse>, ErrorReply>,
    listed: Result<Reply<TaskListResponse>, ErrorReply>,
    shown: Result<Reply<TaskTreeResponse>, ErrorReply>,
    deleted: Result<Reply<()>, ErrorReply>,
)
    requires
        call_ensures(DomainError::into_response, (e,), refusal),
        call_ensures(handlers::create_task_reply, (Err(e),), created),
        call_ensures(handlers::task_reply, (Err(e),), found),
        call_ensures(handlers::list_tasks_reply, (Err(e),), listed),
        call_ensures(handlers::get_task_tree_reply, (Err(e),), shown),
        call_ensures(handlers::delete_task_reply, (Err(e),), deleted),
    ensures
        created matches Err(reply) && same_refusal(reply, refusal),
        found matches Err(reply) && same_refusal(reply, refusal),
        listed matches Err(reply) && same_refusal(reply, refusal),
        shown matches Err(reply) && same_refusal(reply, refusal),
        deleted matches Err(reply) && same_refusal(reply, refusal),
{
}

/// The service says that it is well, and its name.
pub proof fn law_service_is_healthy(reply: Reply<JsonObject>)
    requires
        call_ensures(handlers::health, (), reply),
    ensures
        reply.status == 200,
        json::json_fields(reply.body) == Map::<Seq<char>, JsonModel>::empty().insert(
            "status"@,
            JsonModel::Text("ok"@),
        ).insert("service"@, JsonModel::Text("task-service"@)),
{
}

// Messages.

/// News are published under the subject of what happened, with the identifiers,
/// and the changes, that they tell of.
pub proof fn law_news_are_published(event: TaskEvent, message: Message)
    requires
        call_ensures(nats::publish_event, (event,), message),
    ensures
        match event {
            TaskEvent::Created(e) => {
                &&& message.subject@ == "task.created"@
                &&& json::json_fields(message.payload) == Map::<Seq<char>, JsonModel>::empty().insert(
                    "task_id"@,
                    JsonModel::Text(identifier::uuid_text(e.task_id.bits)),
                ).insert("user_id"@, JsonModel::Text(identifier::uuid_text(e.user_id.bits)))
            },
            TaskEvent::Updated(e) => {
                &&& message.subject@ == "task.updated"@
                &&& json::json_fields(message.payload) == Map::<Seq<char>, JsonModel>::empty().insert(
                    "task_id"@,
                    JsonModel::Text(identifier::uuid_text(e.task_id.bits)),
                ).insert("changes"@, JsonModel::Object(json::json_fields(e.changes)))
            },
            TaskEvent::Deleted(e) => {
                &&& message.subject@ == "task.deleted"@
                &&& json::json_fields(message.payload) == Map::<Seq<char>, JsonModel>::empty().insert(
                    "task_id"@,
                    JsonModel::Text(identifier::uuid_text(e.task_id.bits)),
                )
            },
        },
{
}

/// A message is sent under its subject with its payload as JSON text; what the
/// bus reports is the error, and dropping a message is none.
pub proof fn law_messages_are_sent(
    publisher: NatsEventPublisher,
    noop: NoopEventPublisher,
    subject: &str,
    payload: JsonObject,
    outgoing: Result<Outgoing, DomainError>,
    sent: Result<(), String>,
    published: Result<(), DomainError>,
    dropped: Result<(), DomainError>,
)
    requires
        call_ensures(NatsEventPublisher::publish_raw, (&publisher, subject, payload), outgoing),
        call_ensures(NatsEventPublisher::publish_raw_reply, (&publisher, sent), published),
        call_ensures(NoopEventPublisher::publish_raw, (&noop, subject, payload), dropped),
    ensures
        outgoing matches Ok(message) && message.subject@ == subject@ && message.payload@
            == json::json_text(json::json_fields(payload)),
        match sent {
            Ok(_) => published == Ok::<(), DomainError>(()),
            Err(words) => published == Err::<(), DomainError>(DomainError::Messaging(words)),
        },
        dropped == Ok::<(), DomainError>(()),
{
}

/// A subscription hands on every event that can be read, as it is, and waits for
/// the next message after everything else, until it is refused or closed.
pub proof fn law_subscription_goes_on<E>(seen: Incoming<E>, next: NextMove<E>)
    requires
        call_ensures(NatsSubscriber::next_move::<E>, (seen,), next),
    ensures
        seen matches Incoming::Readable(event) ==> next == NextMove::Handle(event),
        next is Stop <==> seen is NotSubscribed || seen is Closed,
        next is Receive <==> seen is Subscribed || seen is Unreadable || seen is Handled,
{
}

/// The subjects that the service listens to.
pub proof fn law_subjects_listened_to()
    ensures
        nats::USER_DELETED@ == "user.deleted"@,
        nats::TIMER_STOPPED@ == "timer.stopped"@,
{
}

// Settings.

/// A text setting is what the environment gives, or the default.
pub open spec fn is_set(value: String, given: Option<String>, default: Seq<char>) -> bool {
    &&& given matches Some(text) ==> value@ == text@
    &&& given is None ==> value@ == default
}

/// Each setting is what the environment gives for it, or its own default; only
/// the database URL has none, and is what is missing where there are no settings.
pub proof fn law_settings_are_given_or_default(
    env: EnvSettings,
    settings: Result<AppConfig, config::ConfigError>,
    host: String,
    pool_size: u32,
    nats_url: String,
    otlp: String,
    log_level: String,
    service_name: String,
)
    requires
        call_ensures(AppConfig::from_env, (env,), settings),
        call_ensures(config::default_host, (), host),
        call_ensures(config::default_pool_size, (), pool_size),
        call_ensures(config::default_nats_url, (), nats_url),
        call_ensures(config::default_otlp, (), otlp),
        call_ensures(config::default_log_level, (), log_level),
        call_ensures(config::default_service_name, (), service_name),
    ensures
        host@ == "0.0.0.0:8080"@,
        pool_size == 10,
        nats_url@ == "nats://localhost:4222"@,
        otlp@ == "http://localhost:4317"@,
        log_level@ == "info"@,
        service_name@ == "task-service"@,
        settings is Ok <==> env.database_url is Some,
        settings matches Ok(given) ==> {
            &&& given.database_url@ == env.database_url->0@
            &&& is_set(given.host, env.host, host@)
            &&& env.database_pool_size matches Some(n) ==> given.database_pool_size == n
            &&& env.database_pool_size is None ==> given.database_pool_size == pool_size
            &&& is_set(given.nats_url, env.nats_url, nats_url@)
            &&& is_set(given.otlp_endpoint, env.otlp_endpoint, otlp@)
            &&& is_set(given.log_level, env.log_level, log_level@)
            &&& is_set(given.service_name, env.service_name, service_name@)
        },
{
}

} // verus!
