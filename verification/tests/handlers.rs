use axum::http::{HeaderMap, HeaderValue};

use task_service::domain::{DomainError, Task, TaskStatus, Timestamp};
use task_service::handlers::{
    create_task, create_task_reply, delete_task, delete_task_reply, deserialize_optional_parent,
    extract_user_id, get_task, get_task_tree, get_task_tree_reply, health, list_tasks,
    list_tasks_reply, request_id, task_reply, update_task, validation_reply, CreateTaskRequest,
    ListTasksQuery, UpdateTaskRequest,
};
use task_service::identifier::Uuid;
use task_service::service::CreateTask;
use task_service::tree::TaskTree;

const USER: Uuid = Uuid { bits: 0x67e55044_10b1_426f_9247_bb680e5fe0c8 };
const TASK: Uuid = Uuid { bits: 5 };

fn headers(value: &str) -> HeaderMap {
    let mut map = HeaderMap::new();
    map.insert("x-user-id", HeaderValue::from_str(value).unwrap());
    map
}

fn known() -> HeaderMap {
    headers("67e55044-10b1-426f-9247-bb680e5fe0c8")
}

fn body(title: &str, estimated_mins: i32) -> CreateTaskRequest {
    CreateTaskRequest {
        title: title.to_string(),
        description: "d".to_string(),
        parent_id: None,
        estimated_mins,
    }
}

fn patch() -> UpdateTaskRequest {
    UpdateTaskRequest {
        title: None,
        description: None,
        status: None,
        estimated_mins: None,
        parent_id: None,
    }
}

fn some_task() -> Task {
    Task {
        id: TASK,
        user_id: USER,
        parent_id: None,
        title: "t".to_string(),
        description: "d".to_string(),
        status: TaskStatus::Todo,
        estimated_mins: 0,
        spent_mins: 0,
        is_deleted: false,
        created_at: Timestamp { micros: 0 },
        updated_at: Timestamp { micros: 0 },
    }
}

#[test]
fn the_user_is_read_in_every_written_form() {
    for form in [
        "67e55044-10b1-426f-9247-bb680e5fe0c8",
        "67E55044-10B1-426F-9247-BB680E5FE0C8",
        "67e5504410b1426f9247bb680e5fe0c8",
        "{67e55044-10b1-426f-9247-bb680e5fe0c8}",
        "urn:uuid:67e55044-10b1-426f-9247-bb680e5fe0c8",
        "URN:UUID:67e55044-10b1-426f-9247-bb680e5fe0c8",
    ] {
        assert_eq!(extract_user_id(&headers(form)).unwrap(), USER);
    }
}

#[test]
fn the_name_of_the_header_has_no_case() {
    let mut map = HeaderMap::new();
    map.insert("X-USER-ID", HeaderValue::from_static("67e5504410b1426f9247bb680e5fe0c8"));
    assert_eq!(extract_user_id(&map).unwrap(), USER);
}

#[test]
fn the_first_of_several_values_counts() {
    let mut map = known();
    map.append("x-user-id", HeaderValue::from_static("nonsense"));
    assert_eq!(extract_user_id(&map).unwrap(), USER);
}

#[test]
fn a_request_without_a_user_is_unauthorized() {
    let mut unreadable = HeaderMap::new();
    unreadable.insert("x-user-id", HeaderValue::from_bytes(&[0xff, 0xfe]).unwrap());
    for map in [HeaderMap::new(), unreadable] {
        let reply = extract_user_id(&map).unwrap_err();
        assert_eq!(reply.status, 401);
        assert_eq!(reply.body.error, "missing X-User-Id header");
        assert_eq!(reply.body.code, "UNAUTHORIZED");
    }
}

#[test]
fn a_user_that_cannot_be_read_is_a_bad_request() {
    for form in [
        "",
        "67e55044-10b1-426f-9247-bb680e5fe0c",
        "67e55044-10b1-426f-9247_bb680e5fe0c8",
        "67e55044-10b1-426f-9247-bb680e5fe0cg",
        "{67e55044-10b1-426f-9247-bb680e5fe0c8)",
        "urn:guid:67e55044-10b1-426f-9247-bb680e5fe0c8",
        " 67e55044-10b1-426f-9247-bb680e5fe0c8",
    ] {
        let reply = extract_user_id(&headers(form)).unwrap_err();
        assert_eq!(reply.status, 400);
        assert_eq!(reply.body.error, "invalid X-User-Id format");
        assert_eq!(reply.body.code, "BAD_REQUEST");
    }
}

#[test]
fn every_route_wants_a_user() {
    let nobody = HeaderMap::new();
    assert_eq!(create_task(&nobody, body("", -1)).unwrap_err().status, 401);
    assert_eq!(list_tasks(&nobody, ListTasksQuery { parent_id: None }).unwrap_err().status, 401);
    assert_eq!(get_task(&nobody, TASK).unwrap_err().status, 401);
    assert_eq!(get_task_tree(&nobody, TASK).unwrap_err().status, 401);
    assert_eq!(update_task(&nobody, TASK, patch()).unwrap_err().status, 401);
    assert_eq!(delete_task(&nobody, TASK).unwrap_err().status, 401);
}

#[test]
fn a_valid_body_goes_on_to_the_service() {
    match create_task(&known(), body(" t ", 0)).unwrap() {
        CreateTask::Insert(state) => {
            assert_eq!(state.row.user_id, USER);
            assert_eq!(state.row.title, "t");
            assert_eq!(state.row.description, "d");
        }
        other => panic!("{:?}", other),
    }
    let child = CreateTaskRequest { parent_id: Some(TASK), ..body("t", 1) };
    match create_task(&known(), child).unwrap() {
        CreateTask::FindParent(state) => assert_eq!(state.find_by_id(), TASK),
        other => panic!("{:?}", other),
    }
}

#[test]
fn fields_that_break_a_rule_are_unprocessable() {
    for (title, estimate) in [("", 0), ("t", -1), ("", -1)] {
        let reply = create_task(&known(), body(title, estimate)).unwrap_err();
        assert_eq!(reply.status, 422);
        assert_eq!(reply.body.code, "VALIDATION_ERROR");
    }
    let long = "\u{e4}".repeat(501);
    let reply = create_task(&known(), body(&long, 0)).unwrap_err();
    assert_eq!(reply.status, 422);
    assert!(reply.body.error.starts_with("title: Validation error: length ["));
    assert!(create_task(&known(), body(&"\u{e4}".repeat(500), 0)).is_ok());
    let reply = create_task(&known(), body("t", -1)).unwrap_err();
    assert!(reply.body.error.starts_with("estimated_mins: Validation error: range ["));
}

#[test]
fn a_refusal_tells_of_every_field() {
    let error = create_task(&known(), body("", -1)).unwrap_err().body.error;
    assert!(error.contains("title: Validation error: length ["));
    assert!(error.contains("estimated_mins: Validation error: range ["));
    let bad = UpdateTaskRequest { estimated_mins: Some(-1), ..patch() };
    let error = update_task(&known(), TASK, bad).unwrap_err().body.error;
    assert!(error.contains("estimated_mins: Validation error: range ["));
    assert!(!error.contains("title"));
}

#[test]
fn a_blank_title_passes_the_check_and_is_refused_by_the_service() {
    match create_task(&known(), body("   ", 0)).unwrap() {
        CreateTask::Done(Err(DomainError::Validation(why))) => {
            assert_eq!(why, "title must not be empty");
        }
        other => panic!("{:?}", other),
    }
}

#[test]
fn complaints_name_the_field_the_rule_and_the_value() {
    let errors = body("", -3).validate().unwrap_err();
    let fields = errors.field_errors();
    assert_eq!(fields.len(), 2);
    let title = &fields["title"][0];
    assert_eq!(title.code, "length");
    assert_eq!(title.params.len(), 3);
    assert_eq!(title.params["min"].as_u64(), Some(1));
    assert_eq!(title.params["max"].as_u64(), Some(500));
    assert_eq!(title.params["value"].as_str(), Some(""));
    let estimate = &fields["estimated_mins"][0];
    assert_eq!(estimate.code, "range");
    assert_eq!(estimate.params.len(), 2);
    assert_eq!(estimate.params["min"].as_i64(), Some(0));
    assert_eq!(estimate.params["value"].as_i64(), Some(-3));
    assert!(body("t", 0).validate().is_ok());
}

#[test]
fn an_update_is_checked_where_it_names_fields() {
    assert!(patch().validate().is_ok());
    let state = update_task(
        &known(),
        TASK,
        UpdateTaskRequest {
            title: Some("x".to_string()),
            estimated_mins: Some(0),
            parent_id: Some(None),
            ..patch()
        },
    )
    .unwrap();
    assert_eq!(state.task_id, TASK);
    assert_eq!(state.user_id, USER);
    assert_eq!(state.patch.title, Some("x".to_string()));
    assert_eq!(state.patch.parent_id, Some(None));
    for bad in [
        UpdateTaskRequest { title: Some("".to_string()), ..patch() },
        UpdateTaskRequest { title: Some("a".repeat(501)), ..patch() },
        UpdateTaskRequest { estimated_mins: Some(-1), ..patch() },
    ] {
        let reply = update_task(&known(), TASK, bad).unwrap_err();
        assert_eq!(reply.status, 422);
        assert_eq!(reply.body.code, "VALIDATION_ERROR");
    }
}

#[test]
fn a_present_null_unsets_the_parent() {
    assert_eq!(deserialize_optional_parent(None), Some(None));
    assert_eq!(deserialize_optional_parent(Some(TASK)), Some(Some(TASK)));
}

#[test]
fn reads_and_deletions_carry_user_and_task() {
    let state = get_task(&known(), TASK).unwrap();
    assert_eq!((state.task_id, state.user_id), (TASK, USER));
    let state = get_task_tree(&known(), TASK).unwrap();
    assert_eq!((state.task_id, state.user_id), (TASK, USER));
    let state = delete_task(&known(), TASK).unwrap();
    assert_eq!((state.task_id, state.user_id), (TASK, USER));
    let state = list_tasks(&known(), ListTasksQuery { parent_id: Some(TASK) }).unwrap();
    assert_eq!((state.user_id, state.parent_id), (USER, Some(TASK)));
}

#[test]
fn granted_requests_have_their_status() {
    let created = create_task_reply(Ok(some_task())).unwrap();
    assert_eq!(created.status, 201);
    assert_eq!(created.body.task.id, TASK);
    let found = task_reply(Ok(some_task())).unwrap();
    assert_eq!(found.status, 200);
    assert_eq!(found.body.task.title, "t");
    let listed = list_tasks_reply(Ok(vec![some_task(), some_task()])).unwrap();
    assert_eq!(listed.status, 200);
    assert_eq!(listed.body.total, 2);
    assert_eq!(listed.body.tasks.len(), 2);
    let tree = TaskTree { task: some_task(), children: vec![] };
    let shown = get_task_tree_reply(Ok(tree)).unwrap();
    assert_eq!(shown.status, 200);
    assert_eq!(shown.body.tree.task.id, TASK);
    assert_eq!(delete_task_reply(Ok(())).unwrap().status, 204);
}

#[test]
fn errors_have_their_status_and_code() {
    let cases: Vec<(DomainError, u16, &str)> = vec![
        (DomainError::NotFound(TASK), 404, "NOT_FOUND"),
        (DomainError::Forbidden(TASK), 403, "FORBIDDEN"),
        (DomainError::Validation("v".to_string()), 422, "VALIDATION_ERROR"),
        (DomainError::SelfReference, 422, "SELF_REFERENCE"),
        (DomainError::CircularReference, 422, "CIRCULAR_REF"),
        (DomainError::InvalidStatus("s".to_string()), 400, "INVALID_STATUS"),
        (DomainError::Database("d".to_string()), 500, "DB_ERROR"),
        (DomainError::Messaging("m".to_string()), 500, "MESSAGING_ERROR"),
    ];
    for (error, status, code) in cases {
        let words = error.to_string();
        let reply = error.into_response();
        assert_eq!(reply.status, status);
        assert_eq!(reply.body.code, code);
        assert_eq!(reply.body.error, words);
    }
    assert_eq!(create_task_reply(Err(DomainError::NotFound(TASK))).unwrap_err().status, 404);
    assert_eq!(task_reply(Err(DomainError::Forbidden(TASK))).unwrap_err().status, 403);
    assert_eq!(list_tasks_reply(Err(DomainError::SelfReference)).unwrap_err().status, 422);
    assert_eq!(get_task_tree_reply(Err(DomainError::NotFound(TASK))).unwrap_err().status, 404);
    assert_eq!(delete_task_reply(Err(DomainError::NotFound(TASK))).unwrap_err().status, 404);
}

#[test]
fn a_complaint_in_words_is_a_validation_error() {
    let reply = validation_reply("words".to_string());
    assert_eq!(reply.status, 422);
    assert_eq!(reply.body.error, "words");
    assert_eq!(reply.body.code, "VALIDATION_ERROR");
}

#[test]
fn the_service_is_healthy() {
    let reply = health();
    assert_eq!(reply.status, 200);
    let body = reply.body;
    assert_eq!(body.len(), 2);
    assert_eq!(body.get("status").unwrap().as_str(), Some("ok"));
    assert_eq!(body.get("service").unwrap().as_str(), Some("task-service"));
}

#[test]
fn a_request_without_an_identifier_is_logged_with_a_hyphen() {
    assert_eq!(request_id(&HeaderMap::new()), "-");
    let mut map = HeaderMap::new();
    map.insert("x-request-id", HeaderValue::from_static("abc 1"));
    assert_eq!(request_id(&map), "abc 1");
    map.insert("x-request-id", HeaderValue::from_bytes(&[0xe4]).unwrap());
    assert_eq!(request_id(&map), "-");
}
