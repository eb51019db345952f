use task_service::domain::{DomainError, Task, TaskStatus, Timestamp};
use task_service::identifier::Uuid;
use task_service::repository::{Bind, PgTaskRepository, TaskCreateRow, TaskPatchRow, TaskRow};

const ID: Uuid = Uuid { bits: 1 };
const USER: Uuid = Uuid { bits: 2 };
const PARENT: Uuid = Uuid { bits: 3 };

fn row(id: u128, status: &str) -> TaskRow {
    TaskRow {
        id: Uuid { bits: id },
        user_id: USER,
        parent_id: Some(PARENT),
        title: "title".to_string(),
        description: "text".to_string(),
        status: status.to_string(),
        estimated_mins: 5,
        spent_mins: 7,
        is_deleted: false,
        created_at: Timestamp { micros: 11 },
        updated_at: Timestamp { micros: 13 },
    }
}

fn binds(query: &[Bind]) -> String {
    format!("{:?}", query)
}

#[test]
fn insertion_binds_every_column() {
    let query = PgTaskRepository::create(&TaskCreateRow {
        id: ID,
        user_id: USER,
        parent_id: None,
        title: "t".to_string(),
        description: "d".to_string(),
        status: TaskStatus::InProgress,
        estimated_mins: 4,
    });
    assert!(query.sql.starts_with("INSERT INTO tasks (id, user_id, parent_id, title"));
    assert!(query.sql.ends_with("RETURNING *"));
    assert_eq!(
        binds(&query.binds),
        "[Id(Uuid { bits: 1 }), Id(Uuid { bits: 2 }), OptionalId(None), Text(\"t\"), Text(\"d\"), \
         Text(\"in_progress\"), Number(4)]"
    );
}

#[test]
fn search_leaves_deleted_tasks_out() {
    let query = PgTaskRepository::find_by_id(ID);
    assert_eq!(query.sql, "SELECT * FROM tasks WHERE id = $1 AND is_deleted = FALSE");
    assert_eq!(binds(&query.binds), "[Id(Uuid { bits: 1 })]");
}

#[test]
fn listing_depends_on_the_parent() {
    let below = PgTaskRepository::find_by_user_and_parent(USER, Some(PARENT));
    assert!(below.sql.contains("parent_id = $2"));
    assert_eq!(binds(&below.binds), "[Id(Uuid { bits: 2 }), Id(Uuid { bits: 3 })]");
    let roots = PgTaskRepository::find_by_user_and_parent(USER, None);
    assert!(roots.sql.contains("parent_id IS NULL"));
    assert_eq!(binds(&roots.binds), "[Id(Uuid { bits: 2 })]");
    assert!(below.sql.ends_with("ORDER BY created_at ASC"));
    assert!(roots.sql.ends_with("ORDER BY created_at ASC"));
}

#[test]
fn an_empty_list_is_not_asked_for() {
    assert!(PgTaskRepository::find_by_ids(&vec![]).is_none());
    let query = PgTaskRepository::find_by_ids(&vec![ID, PARENT]).unwrap();
    assert_eq!(query.sql, "SELECT * FROM tasks WHERE id = ANY($1) AND is_deleted = FALSE");
    assert_eq!(binds(&query.binds), "[Ids([Uuid { bits: 1 }, Uuid { bits: 3 }])]");
}

#[test]
fn subtree_walk_follows_live_tasks() {
    let query = PgTaskRepository::find_subtree_ids(ID);
    assert!(query.sql.starts_with("WITH RECURSIVE subtree AS"));
    assert_eq!(query.sql.matches("is_deleted = FALSE").count(), 2);
    assert_eq!(binds(&query.binds), "[Id(Uuid { bits: 1 })]");
    assert_eq!(
        PgTaskRepository::find_subtree_ids_reply(vec![Some(ID), None, Some(PARENT), None]),
        vec![ID, PARENT]
    );
}

#[test]
fn update_binds_a_flag_for_the_parent() {
    let untouched = TaskPatchRow {
        title: None,
        description: None,
        status: None,
        estimated_mins: None,
        parent_id: None,
    };
    assert_eq!(
        binds(&PgTaskRepository::update(ID, &untouched).binds),
        "[Id(Uuid { bits: 1 }), OptionalText(None), OptionalText(None), OptionalText(None), \
         OptionalNumber(None), Flag(false), OptionalId(None)]"
    );
    let unset = TaskPatchRow { parent_id: Some(None), ..untouched };
    assert_eq!(
        binds(&PgTaskRepository::update(ID, &unset).binds),
        "[Id(Uuid { bits: 1 }), OptionalText(None), OptionalText(None), OptionalText(None), \
         OptionalNumber(None), Flag(true), OptionalId(None)]"
    );
    let all = TaskPatchRow {
        title: Some("t".to_string()),
        description: Some("d".to_string()),
        status: Some(TaskStatus::Done),
        estimated_mins: Some(9),
        parent_id: Some(Some(PARENT)),
    };
    assert_eq!(
        binds(&PgTaskRepository::update(ID, &all).binds),
        "[Id(Uuid { bits: 1 }), OptionalText(Some(\"t\")), OptionalText(Some(\"d\")), \
         OptionalText(Some(\"done\")), OptionalNumber(Some(9)), Flag(true), \
         OptionalId(Some(Uuid { bits: 3 }))]"
    );
}

#[test]
fn marks_and_minutes_bind_their_target() {
    assert_eq!(
        PgTaskRepository::soft_delete(ID).sql,
        "UPDATE tasks SET is_deleted = TRUE WHERE id = $1 AND is_deleted = FALSE"
    );
    assert_eq!(
        PgTaskRepository::soft_delete_by_user(USER).sql,
        "UPDATE tasks SET is_deleted = TRUE WHERE user_id = $1 AND is_deleted = FALSE"
    );
    let add = PgTaskRepository::add_spent_mins(ID, 5);
    assert_eq!(
        add.sql,
        "UPDATE tasks SET spent_mins = spent_mins + $2 WHERE id = $1 AND is_deleted = FALSE"
    );
    assert_eq!(binds(&add.binds), "[Id(Uuid { bits: 1 }), Number(5)]");
}

#[test]
fn a_row_becomes_a_task() {
    let task = Task::try_from(row(1, "cancelled")).unwrap();
    assert_eq!(task.id, ID);
    assert_eq!(task.user_id, USER);
    assert_eq!(task.parent_id, Some(PARENT));
    assert_eq!(task.title, "title");
    assert_eq!(task.description, "text");
    assert_eq!(task.status, TaskStatus::Cancelled);
    assert_eq!(task.estimated_mins, 5);
    assert_eq!(task.spent_mins, 7);
    assert!(!task.is_deleted);
    assert_eq!(task.created_at, Timestamp { micros: 11 });
    assert_eq!(task.updated_at, Timestamp { micros: 13 });
    assert_eq!(PgTaskRepository::create_reply(row(4, "todo")).unwrap().id, Uuid { bits: 4 });
}

#[test]
fn a_row_with_another_status_is_refused() {
    assert!(matches!(
        Task::try_from(row(1, "paused")),
        Err(DomainError::InvalidStatus(s)) if s == "paused"
    ));
    assert!(matches!(
        PgTaskRepository::find_by_id_reply(Some(row(1, "paused"))),
        Err(DomainError::InvalidStatus(_))
    ));
}

#[test]
fn the_first_unreadable_row_decides() {
    let tasks = PgTaskRepository::rows_reply(vec![row(1, "todo"), row(2, "done")]).unwrap();
    assert_eq!(tasks.len(), 2);
    assert_eq!(tasks[1].status, TaskStatus::Done);
    assert!(PgTaskRepository::rows_reply(vec![]).unwrap().is_empty());
    match PgTaskRepository::rows_reply(vec![row(1, "todo"), row(2, "x"), row(3, "y")]) {
        Err(DomainError::InvalidStatus(s)) => assert_eq!(s, "x"),
        other => panic!("{:?}", other),
    }
}

#[test]
fn nothing_found_or_touched_is_not_found() {
    assert!(PgTaskRepository::find_by_id_reply(None).unwrap().is_none());
    assert_eq!(
        PgTaskRepository::find_by_id_reply(Some(row(1, "todo"))).unwrap().unwrap().id,
        ID
    );
    assert!(matches!(
        PgTaskRepository::update_reply(ID, None),
        Err(DomainError::NotFound(id)) if id == ID
    ));
    assert_eq!(PgTaskRepository::update_reply(ID, Some(row(1, "todo"))).unwrap().id, ID);
    assert!(matches!(
        PgTaskRepository::soft_delete_reply(ID, 0),
        Err(DomainError::NotFound(id)) if id == ID
    ));
    assert!(PgTaskRepository::soft_delete_reply(ID, 1).is_ok());
}
