//! Requests and replies of the HTTP interface.
//!
//! For each route there is a function that turns a request into the first state
//! of an operation, or into the reply that refuses it, and a `.._reply` that
//! turns the operation's result into a reply.

use vstd::prelude::*;

use crate::domain;
use crate::domain::{DomainError, ErrorView, Task, TaskStatus};
use crate::headers;
use crate::headers::RequestHeaders;
use crate::identifier;
use crate::identifier::Uuid;
use crate::json;
use crate::json::{JsonField, JsonModel, JsonObject};
use crate::repository;
use crate::service;
use crate::service::{
    CheckDeletion, CheckTask, CreateTask, CreateTaskInput, OwnershipCheck, RootLookup, TaskListing,
    TaskService, UpdateTaskInput,
};
use crate::text;
use crate::tree::TaskTree;
use crate::validation;
use crate::validation::Complaint;

verus! {

// Requests.

/// The body of a request for a new task.
#[derive(Debug)]
pub struct CreateTaskRequest {
    /// Short task title (required, max 500 chars)
    pub title: String,
    /// Optional detailed description
    pub description: String,
    /// Optional parent task UUID
    pub parent_id: Option<Uuid>,
    /// Estimated time in minutes, not below zero
    pub estimated_mins: i32,
}

/// The body of a request to change a task.
#[derive(Debug)]
pub struct UpdateTaskRequest {
    /// New title
    pub title: Option<String>,
    /// New description
    pub description: Option<String>,
    /// New status
    pub status: Option<TaskStatus>,
    /// New estimated minutes
    pub estimated_mins: Option<i32>,
    /// Set or clear parent (pass `null` to unset)
    pub parent_id: Option<Option<Uuid>>,
}

/// The query of a request for a list of tasks.
#[derive(Debug, Clone, Copy)]
pub struct ListTasksQuery {
    /// Filter by parent task id (omit for root-level tasks)
    pub parent_id: Option<Uuid>,
}

/// A `parent_id` that is present in a body: `null` unsets the parent.  (One
/// that is absent is `None` and leaves the parent alone.)
pub fn deserialize_optional_parent(present: Option<Uuid>) -> (parent_id: Option<Option<Uuid>>)
    ensures
        parent_id == Some(present),
{
    Some(present)
}

// Replies.

/// One task.
#[derive(Debug)]
pub struct TaskResponse {
    pub task: Task,
}

/// Several tasks, and how many.
#[derive(Debug)]
pub struct TaskListResponse {
    pub tasks: Vec<Task>,
    pub total: usize,
}

/// A task with its subtasks.
#[derive(Debug)]
pub struct TaskTreeResponse {
    pub tree: TaskTree,
}

/// What went wrong, in words and as a code.
#[derive(Debug)]
pub struct ErrorResponse {
    pub error: String,
    pub code: String,
}

/// A reply that grants a request.
#[derive(Debug)]
pub struct Reply<T> {
    pub status: u16,
    pub body: T,
}

/// A reply that refuses a request.
#[derive(Debug)]
pub struct ErrorReply {
    pub status: u16,
    pub body: ErrorResponse,
}

impl ErrorReply {
    fn new(status: u16, error: &str, code: &str) -> (reply: ErrorReply)
        ensures
            reply.says(status, error@, code@),
    {
        ErrorReply {
            status,
            body: ErrorResponse { error: error.to_owned(), code: code.to_owned() },
        }
    }

    /// What a reply says, in full.
    pub open spec fn says(&self, status: u16, error: Seq<char>, code: Seq<char>) -> bool {
        self.status == status && self.body.error@ == error && self.body.code@ == code
    }

    /// A reply that refuses a request because of an error of the service.
    pub open spec fn refuses(&self, e: ErrorView) -> bool {
        self.says(error_status(e), domain::error_text(e), error_code(e))
    }

    /// A reply that refuses a request whose fields break a rule: it tells of
    /// each that does, and of nothing else.
    pub open spec fn refuses_fields(
        &self,
        title: Option<Seq<char>>,
        estimated_mins: Option<i32>,
    ) -> bool {
        &&& self.status == 422
        &&& self.body.code@ == "VALIDATION_ERROR"@
        &&& is_text_of_complaints(self.body.error, title, estimated_mins)
        &&& title is Some && !title_fits(title->0) ==> text::contains_text(
            self.body.error@,
            validation::complaint_text("title"@, "length"@),
        )
        &&& estimated_mins is Some && estimated_mins->0 < 0 ==> text::contains_text(
            self.body.error@,
            validation::complaint_text("estimated_mins"@, "range"@),
        )
    }
}

/// The HTTP status of an error.
pub open spec fn error_status(e: ErrorView) -> u16 {
    match e {
        ErrorView::NotFound(_) => 404,
        ErrorView::Forbidden(_) => 403,
        ErrorView::Validation(_) => 422,
        ErrorView::SelfReference => 422,
        ErrorView::CircularReference => 422,
        ErrorView::InvalidStatus(_) => 400,
        ErrorView::Database(_) => 500,
        ErrorView::Messaging(_) => 500,
    }
}

/// The code of an error.
pub open spec fn error_code(e: ErrorView) -> Seq<char> {
    match e {
        ErrorView::NotFound(_) => "NOT_FOUND"@,
        ErrorView::Forbidden(_) => "FORBIDDEN"@,
        ErrorView::Validation(_) => "VALIDATION_ERROR"@,
        ErrorView::SelfReference => "SELF_REFERENCE"@,
        ErrorView::CircularReference => "CIRCULAR_REF"@,
        ErrorView::InvalidStatus(_) => "INVALID_STATUS"@,
        ErrorView::Database(_) => "DB_ERROR"@,
        ErrorView::Messaging(_) => "MESSAGING_ERROR"@,
    }
}

impl DomainError {
    /// The reply to a request that an error ends.
    pub fn into_response(self) -> (reply: ErrorReply)
        ensures
            reply.refuses(self@),
    {
        let error = self.to_string();
        let (status, code): (u16, &str) = match self {
            DomainError::NotFound(_) => (404, "NOT_FOUND"),
            DomainError::Forbidden(_) => (403, "FORBIDDEN"),
            DomainError::Validation(_) => (422, "VALIDATION_ERROR"),
            DomainError::SelfReference => (422, "SELF_REFERENCE"),
            DomainError::CircularReference => (422, "CIRCULAR_REF"),
            DomainError::InvalidStatus(_) => (400, "INVALID_STATUS"),
            DomainError::Database(_) => (500, "DB_ERROR"),
            DomainError::Messaging(_) => (500, "MESSAGING_ERROR"),
        };
        ErrorReply { status, body: ErrorResponse { error, code: code.to_owned() } }
    }
}

// Who is asking.

/// Who sends a request, as the gateway tells in `X-User-Id`.
pub enum Caller {
    /// The header is missing, or is no plain text.
    Missing,
    /// The header is there, but holds no identifier.
    Malformed,
    /// The user.
    Known(Uuid),
}

/// Who sends a request with these headers.
pub open spec fn caller_of(request: RequestHeaders) -> Caller {
    let values = headers::first_values(request);
    if !values.contains_key("x-user-id"@) || !headers::is_visible(values["x-user-id"@]) {
        Caller::Missing
    } else {
        match identifier::uuid_number(headers::ascii_text(values["x-user-id"@])) {
            None => Caller::Malformed,
            Some(n) => Caller::Known(Uuid { bits: n as u128 }),
        }
    }
}

/// The user of a request, or the reply to a request without one.
pub open spec fn identified(caller: Caller, outcome: Result<Uuid, ErrorReply>) -> bool {
    match caller {
        Caller::Known(user_id) => outcome == Ok::<Uuid, ErrorReply>(user_id),
        Caller::Missing => outcome is Err && outcome->Err_0.says(
            401,
            "missing X-User-Id header"@,
            "UNAUTHORIZED"@,
        ),
        Caller::Malformed => outcome is Err && outcome->Err_0.says(
            400,
            "invalid X-User-Id format"@,
            "BAD_REQUEST"@,
        ),
    }
}

proof fn lemma_header_name()
    ensures
        headers::is_plain_name("X-User-Id"@),
        identifier::ascii_lowered("X-User-Id"@) == "x-user-id"@,
{
    reveal_strlit("X-User-Id");
    reveal_strlit("x-user-id");
    assert(identifier::ascii_lowered("X-User-Id"@) =~= "x-user-id"@);
}

/// The user of a request.  The gateway has verified who they are.
pub fn extract_user_id(request: &RequestHeaders) -> (user_id: Result<Uuid, ErrorReply>)
    ensures
        identified(caller_of(*request), user_id),
{
    proof {
        lemma_header_name();
    }
    let header: Option<&str> = match headers::get(request, "X-User-Id") {
        Some(value) => headers::to_str(value),
        None => None,
    };
    match header {
        None => Err(ErrorReply::new(401, "missing X-User-Id header", "UNAUTHORIZED")),
        Some(header) => match Uuid::parse_str(header) {
            Some(user_id) => Ok(user_id),
            None => Err(ErrorReply::new(400, "invalid X-User-Id format", "BAD_REQUEST")),
        },
    }
}

/// A request is of the user whose identifier, as identifiers are written, is in
/// its `X-User-Id`.
pub proof fn law_written_user_is_the_caller(request: RequestHeaders, user_id: Uuid)
    requires
        headers::first_values(request).contains_key("x-user-id"@),
        headers::ascii_text(headers::first_values(request)["x-user-id"@])
            == identifier::uuid_text(user_id.bits),
    ensures
        caller_of(request) == Caller::Known(user_id),
{
    let bytes = headers::first_values(request)["x-user-id"@];
    let written = headers::ascii_text(bytes);
    identifier::law_written_identifier_is_read_back(user_id);
    identifier::lemma_uuid_text_chars(user_id.bits);
    assert forall|i: int| 0 <= i < bytes.len() implies 32 <= #[trigger] bytes[i] < 127 || bytes[i]
        == 9 by {
        assert(written[i] == bytes[i] as char);
        assert(identifier::is_identifier_char(written[i]));
    }
}

/// The identifier that the gateway gave a request, for the log; a hyphen where
/// it gave none that can be read.
pub fn request_id(request: &RequestHeaders) -> (id: String)
    ensures
        id@ == ({
            let values = headers::first_values(*request);
            if values.contains_key("x-request-id"@) && headers::is_visible(
                values["x-request-id"@],
            ) {
                headers::ascii_text(values["x-request-id"@])
            } else {
                "-"@
            }
        }),
{
    proof {
        reveal_strlit("x-request-id");
        assert(identifier::ascii_lowered("x-request-id"@) =~= "x-request-id"@);
    }
    let header: Option<&str> = match headers::get(request, "x-request-id") {
        Some(value) => headers::to_str(value),
        None => None,
    };
    match header {
        Some(id) => id.to_owned(),
        None => "-".to_owned(),
    }
}

// What a body must keep to.

/// A title has at least one and at most 500 characters.
pub open spec fn title_fits(title: Seq<char>) -> bool {
    1 <= title.len() <= 500
}

/// The complaint about a title that does not fit.
pub open spec fn title_complaint(title: Seq<char>) -> Complaint {
    Complaint {
        code: "length"@,
        message: None,
        params: validation::no_params().insert("min"@, JsonModel::Number(1)).insert(
            "max"@,
            JsonModel::Number(500),
        ).insert("value"@, JsonModel::Text(title)),
    }
}

/// The complaint about an estimate below zero.
pub open spec fn estimate_complaint(estimated_mins: i32) -> Complaint {
    Complaint {
        code: "range"@,
        message: None,
        params: validation::no_params().insert("min"@, JsonModel::Number(0)).insert(
            "value"@,
            JsonModel::Number(estimated_mins as int),
        ),
    }
}

/// The complaints about a title and an estimate, where there are any of these.
pub open spec fn field_complaints(
    title: Option<Seq<char>>,
    estimated_mins: Option<i32>,
) -> Map<Seq<char>, Seq<Complaint>> {
    let first = if title is Some && !title_fits(title->0) {
        validation::no_complaints().insert("title"@, seq![title_complaint(title->0)])
    } else {
        validation::no_complaints()
    };
    if estimated_mins is Some && estimated_mins->0 < 0 {
        first.insert("estimated_mins"@, seq![estimate_complaint(estimated_mins->0)])
    } else {
        first
    }
}

/// A text that the complaints about a title and an estimate can be shown as: of
/// these complaints, all of them and no others.
pub closed spec fn is_text_of_complaints(
    words: String,
    title: Option<Seq<char>>,
    estimated_mins: Option<i32>,
) -> bool {
    exists|errors: validator::ValidationErrors|
        #![trigger validation::complaints(errors)]
        validation::complaints(errors) == field_complaints(title, estimated_mins) && call_ensures(
            validation::errors_text,
            (&errors,),
            words,
        )
}

/// What such a text is of.
pub(crate) proof fn lemma_text_of_complaints(
    words: String,
    title: Option<Seq<char>>,
    estimated_mins: Option<i32>,
) -> (errors: validator::ValidationErrors)
    requires
        is_text_of_complaints(words, title, estimated_mins),
    ensures
        validation::complaints(errors) == field_complaints(title, estimated_mins),
        call_ensures(validation::errors_text, (&errors,), words),
{
    choose|errors: validator::ValidationErrors|
        #![trigger validation::complaints(errors)]
        validation::complaints(errors) == field_complaints(title, estimated_mins) && call_ensures(
            validation::errors_text,
            (&errors,),
            words,
        )
}

/// What comes of checking fields: nothing, or all the complaints.
pub open spec fn fields_checked(
    title: Option<Seq<char>>,
    estimated_mins: Option<i32>,
    outcome: Result<(), validator::ValidationErrors>,
) -> bool {
    match outcome {
        Ok(_) => (title is Some ==> title_fits(title->0)) && (estimated_mins is Some
            ==> estimated_mins->0 >= 0),
        Err(errors) => {
            &&& (title is Some && !title_fits(title->0)) || (estimated_mins is Some
                && estimated_mins->0 < 0)
            &&& validation::complaints(errors) == field_complaints(title, estimated_mins)
        },
    }
}

/// Checks a title and an estimate, where there are any.
fn check_fields(title: Option<&String>, estimated_mins: Option<i32>) -> (outcome: Result<
    (),
    validator::ValidationErrors,
>)
    ensures
        fields_checked(
            (match title {
                Some(t) => Some(t@),
                None => None,
            }),
            estimated_mins,
            outcome,
        ),
{
    proof {
        reveal_strlit("title");
        reveal_strlit("estimated_mins");
        assert("title"@.len() != "estimated_mins"@.len());
    }
    let mut errors = validation::no_errors();
    if let Some(title) = title {
        if !validation::validate_length(title.as_str(), Some(1), Some(500), None) {
            let mut error = validation::new_error("length");
            validation::add_param(&mut error, "min", JsonField::Number(1));
            validation::add_param(&mut error, "max", JsonField::Number(500));
            validation::add_param(&mut error, "value", JsonField::Text(title.clone()));
            validation::add_error(&mut errors, "title", error);
            assert(validation::complaints(errors).contains_key("title"@));
        }
    }
    if let Some(estimated_mins) = estimated_mins {
        if !validation::validate_range(estimated_mins, Some(0), None, None, None) {
            let mut error = validation::new_error("range");
            validation::add_param(&mut error, "min", JsonField::Number(0));
            validation::add_param(&mut error, "value", JsonField::Number(estimated_mins as i64));
            validation::add_error(&mut errors, "estimated_mins", error);
            assert(validation::complaints(errors).contains_key("estimated_mins"@));
        }
    }
    if validation::is_empty(&errors) {
        Ok(())
    } else {
        Err(errors)
    }
}

impl CreateTaskRequest {
    /// A request that keeps to the rules.
    pub open spec fn is_valid(&self) -> bool {
        title_fits(self.title@) && self.estimated_mins >= 0
    }

    /// Checks the fields of a request.
    pub fn validate(&self) -> (outcome: Result<(), validator::ValidationErrors>)
        ensures
            outcome is Ok <==> self.is_valid(),
            fields_checked(Some(self.title@), Some(self.estimated_mins), outcome),
    {
        check_fields(Some(&self.title), Some(self.estimated_mins))
    }
}

impl UpdateTaskRequest {
    /// A request that keeps to the rules, as far as it names fields.
    pub open spec fn is_valid(&self) -> bool {
        &&& self.title is Some ==> title_fits(self.title->0@)
        &&& self.estimated_mins is Some ==> self.estimated_mins->0 >= 0
    }

    /// Checks the fields of a request.
    pub fn validate(&self) -> (outcome: Result<(), validator::ValidationErrors>)
        ensures
            outcome is Ok <==> self.is_valid(),
            fields_checked(
                repository::optional_view(self.title),
                self.estimated_mins,
                outcome,
            ),
    {
        check_fields(self.title.as_ref(), self.estimated_mins)
    }
}

/// The reply to a request whose fields break a rule.
pub fn validation_reply(error: String) -> (reply: ErrorReply)
    ensures
        reply.says(422, error@, "VALIDATION_ERROR"@),
        reply.body.error == error,
{
    ErrorReply {
        status: 422,
        body: ErrorResponse { error, code: "VALIDATION_ERROR".to_owned() },
    }
}

/// A text that tells of the complaints tells of each field that breaks a rule.
proof fn lemma_fields_are_told_of(
    words: Seq<char>,
    title: Option<Seq<char>>,
    estimated_mins: Option<i32>,
)
    requires
        validation::tells_of(words, field_complaints(title, estimated_mins)),
    ensures
        title is Some && !title_fits(title->0) ==> text::contains_text(
            words,
            validation::complaint_text("title"@, "length"@),
        ),
        estimated_mins is Some && estimated_mins->0 < 0 ==> text::contains_text(
            words,
            validation::complaint_text("estimated_mins"@, "range"@),
        ),
{
    let told = field_complaints(title, estimated_mins);
    reveal_strlit("title");
    reveal_strlit("estimated_mins");
    assert("title"@.len() != "estimated_mins"@.len());
    assert(title is Some && !title_fits(title->0) ==> told.contains_key("title"@));
    assert(estimated_mins is Some && estimated_mins->0 < 0 ==> told.contains_key(
        "estimated_mins"@,
    ));
}

// Routes.

/// What the service is asked to create.
pub open spec fn create_input(user_id: Uuid, body: CreateTaskRequest) -> CreateTaskInput {
    CreateTaskInput {
        user_id,
        parent_id: body.parent_id,
        title: body.title,
        description: body.description,
        estimated_mins: body.estimated_mins,
    }
}

/// What the service is asked to change.
pub open spec fn update_input(body: UpdateTaskRequest) -> UpdateTaskInput {
    UpdateTaskInput {
        title: body.title,
        description: body.description,
        status: body.status,
        estimated_mins: body.estimated_mins,
        parent_id: body.parent_id,
    }
}

/// Create a new task: refused without a known user, or where the body breaks a
/// rule; else on to the service.
pub fn create_task(request: &RequestHeaders, body: CreateTaskRequest) -> (step: Result<
    CreateTask,
    ErrorReply,
>)
    ensures
        match caller_of(*request) {
            Caller::Known(user_id) => if body.is_valid() {
                step is Ok && service::create_begins(create_input(user_id, body), step->Ok_0)
            } else {
                step is Err && step->Err_0.refuses_fields(
                    Some(body.title@),
                    Some(body.estimated_mins),
                )
            },
            caller => step is Err && identified(caller, Err(step->Err_0)),
        },
{
    let user_id = match extract_user_id(request) {
        Ok(user_id) => user_id,
        Err(reply) => return Err(reply),
    };
    if let Err(errors) = body.validate() {
        let error = validation::errors_text(&errors);
        proof {
            lemma_fields_are_told_of(error@, Some(body.title@), Some(body.estimated_mins));
        }
        return Err(validation_reply(error));
    }
    let input = CreateTaskInput {
        user_id,
        parent_id: body.parent_id,
        title: body.title,
        description: body.description,
        estimated_mins: body.estimated_mins,
    };
    Ok(TaskService::create_task(input))
}

/// The task that was created, or why there is none.
pub fn create_task_reply(result: Result<Task, DomainError>) -> (reply: Result<
    Reply<TaskResponse>,
    ErrorReply,
>)
    ensures
        match result {
            Ok(task) => reply == Ok::<Reply<TaskResponse>, ErrorReply>(
                Reply { status: 201, body: TaskResponse { task } },
            ),
            Err(e) => reply is Err && reply->Err_0.refuses(e@),
        },
{
    match result {
        Ok(task) => Ok(Reply { status: 201, body: TaskResponse { task } }),
        Err(e) => Err(e.into_response()),
    }
}

/// List tasks (root or by parent_id).
pub fn list_tasks(request: &RequestHeaders, query: ListTasksQuery) -> (step: Result<
    TaskListing,
    ErrorReply,
>)
    ensures
        match caller_of(*request) {
            Caller::Known(user_id) => step == Ok::<TaskListing, ErrorReply>(
                TaskListing { user_id, parent_id: query.parent_id },
            ),
            caller => step is Err && identified(caller, Err(step->Err_0)),
        },
{
    match extract_user_id(request) {
        Ok(user_id) => Ok(TaskService::list_tasks(user_id, query.parent_id)),
        Err(reply) => Err(reply),
    }
}

/// The tasks that were found and their number, or why there are none.
pub fn list_tasks_reply(result: Result<Vec<Task>, DomainError>) -> (reply: Result<
    Reply<TaskListResponse>,
    ErrorReply,
>)
    ensures
        match result {
            Ok(tasks) => reply is Ok && reply->Ok_0.status == 200 && reply->Ok_0.body.tasks == tasks
                && reply->Ok_0.body.total == tasks@.len(),
            Err(e) => reply is Err && reply->Err_0.refuses(e@),
        },
{
    match result {
        Ok(tasks) => {
            let total = tasks.len();
            Ok(Reply { status: 200, body: TaskListResponse { tasks, total } })
        },
        Err(e) => Err(e.into_response()),
    }
}

/// Get full task subtree.
pub fn get_task_tree(request: &RequestHeaders, id: Uuid) -> (step: Result<RootLookup, ErrorReply>)
    ensures
        match caller_of(*request) {
            Caller::Known(user_id) => step == Ok::<RootLookup, ErrorReply>(
                RootLookup { task_id: id, user_id },
            ),
            caller => step is Err && identified(caller, Err(step->Err_0)),
        },
{
    match extract_user_id(request) {
        Ok(user_id) => Ok(TaskService::get_task_tree(id, user_id)),
        Err(reply) => Err(reply),
    }
}

/// The subtree that was found, or why there is none.
pub fn get_task_tree_reply(result: Result<TaskTree, DomainError>) -> (reply: Result<
    Reply<TaskTreeResponse>,
    ErrorReply,
>)
    ensures
        match result {
            Ok(tree) => reply == Ok::<Reply<TaskTreeResponse>, ErrorReply>(
                Reply { status: 200, body: TaskTreeResponse { tree } },
            ),
            Err(e) => reply is Err && reply->Err_0.refuses(e@),
        },
{
    match result {
        Ok(tree) => Ok(Reply { status: 200, body: TaskTreeResponse { tree } }),
        Err(e) => Err(e.into_response()),
    }
}

/// Get a single task.
pub fn get_task(request: &RequestHeaders, id: Uuid) -> (step: Result<OwnershipCheck, ErrorReply>)
    ensures
        match caller_of(*request) {
            Caller::Known(user_id) => step == Ok::<OwnershipCheck, ErrorReply>(
                OwnershipCheck { task_id: id, user_id },
            ),
            caller => step is Err && identified(caller, Err(step->Err_0)),
        },
{
    match extract_user_id(request) {
        Ok(user_id) => Ok(TaskService::get_task(id, user_id)),
        Err(reply) => Err(reply),
    }
}

/// The task that was found or changed, or why there is none.
pub fn task_reply(result: Result<Task, DomainError>) -> (reply: Result<
    Reply<TaskResponse>,
    ErrorReply,
>)
    ensures
        match result {
            Ok(task) => reply == Ok::<Reply<TaskResponse>, ErrorReply>(
                Reply { status: 200, body: TaskResponse { task } },
            ),
            Err(e) => reply is Err && reply->Err_0.refuses(e@),
        },
{
    match result {
        Ok(task) => Ok(Reply { status: 200, body: TaskResponse { task } }),
        Err(e) => Err(e.into_response()),
    }
}

/// Partially update a task: refused without a known user, or where the body
/// breaks a rule; else on to the service.
pub fn update_task(request: &RequestHeaders, id: Uuid, body: UpdateTaskRequest) -> (step: Result<
    CheckTask,
    ErrorReply,
>)
    ensures
        match caller_of(*request) {
            Caller::Known(user_id) => if body.is_valid() {
                step == Ok::<CheckTask, ErrorReply>(
                    CheckTask {
                        task_id: id,
                        user_id,
                        patch: service::patch_of(update_input(body)),
                    },
                )
            } else {
                step is Err && step->Err_0.refuses_fields(
                    repository::optional_view(body.title),
                    body.estimated_mins,
                )
            },
            caller => step is Err && identified(caller, Err(step->Err_0)),
        },
{
    let user_id = match extract_user_id(request) {
        Ok(user_id) => user_id,
        Err(reply) => return Err(reply),
    };
    if let Err(errors) = body.validate() {
        let error = validation::errors_text(&errors);
        proof {
            lemma_fields_are_told_of(
                error@,
                repository::optional_view(body.title),
                body.estimated_mins,
            );
        }
        return Err(validation_reply(error));
    }
    let input = UpdateTaskInput {
        title: body.title,
        description: body.description,
        status: body.status,
        estimated_mins: body.estimated_mins,
        parent_id: body.parent_id,
    };
    Ok(TaskService::update_task(id, user_id, input))
}

/// Soft-delete a task.
pub fn delete_task(request: &RequestHeaders, id: Uuid) -> (step: Result<CheckDeletion, ErrorReply>)
    ensures
        match caller_of(*request) {
            Caller::Known(user_id) => step == Ok::<CheckDeletion, ErrorReply>(
                CheckDeletion { task_id: id, user_id },
            ),
            caller => step is Err && identified(caller, Err(step->Err_0)),
        },
{
    match extract_user_id(request) {
        Ok(user_id) => Ok(TaskService::delete_task(id, user_id)),
        Err(reply) => Err(reply),
    }
}

/// That the task is gone, or why it is not.
pub fn delete_task_reply(result: Result<(), DomainError>) -> (reply: Result<Reply<()>, ErrorReply>)
    ensures
        match result {
            Ok(_) => reply == Ok::<Reply<()>, ErrorReply>(Reply { status: 204, body: () }),
            Err(e) => reply is Err && reply->Err_0.refuses(e@),
        },
{
    match result {
        Ok(_) => Ok(Reply { status: 204, body: () }),
        Err(e) => Err(e.into_response()),
    }
}

/// Health check.
pub fn health() -> (reply: Reply<JsonObject>)
    ensures
        reply.status == 200,
        json::json_fields(reply.body) == json::no_fields().insert(
            "status"@,
            JsonModel::Text("ok"@),
        ).insert("service"@, JsonModel::Text("task-service"@)),
{
    let mut body = json::empty_object();
    json::set_field(&mut body, "status", JsonField::Text("ok".to_owned()));
    json::set_field(&mut body, "service", JsonField::Text("task-service".to_owned()));
    Reply { status: 200, body }
}

} // verus!
