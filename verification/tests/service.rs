use std::collections::BTreeMap;

use task_service::domain::{
    DomainError, Task, TaskStatus, TimerStoppedEvent, Timestamp, UserDeletedEvent,
};
use task_service::identifier::Uuid;
use task_service::infrastructure::nats::Message;
use task_service::repository::{PgTaskRepository, TaskCreateRow, TaskPatchRow};
use task_service::service::{
    changes, CreateTask, CreateTaskInput, DeleteTask, GetTaskTree, TaskService, TimerBooking,
    UpdateTask, UpdateTaskInput,
};
use task_service::tree::TaskTree;

const ALICE: Uuid = Uuid { bits: 0xa };
const BOB: Uuid = Uuid { bits: 0xb };
const NOBODY: Uuid = Uuid { bits: 0xdead };

/// A tasks table in memory, and a bus that can be out of order.
struct World {
    tasks: BTreeMap<u128, Task>,
    sent: Vec<Message>,
    bus_is_down: bool,
    clock: i64,
}

impl World {
    fn new() -> World {
        World { tasks: BTreeMap::new(), sent: Vec::new(), bus_is_down: false, clock: 0 }
    }

    fn find(&self, id: Uuid) -> Result<Option<Task>, DomainError> {
        Ok(self.tasks.get(&id.bits).filter(|t| !t.is_deleted).cloned())
    }

    fn insert(&mut self, row: &TaskCreateRow) -> Result<Task, DomainError> {
        self.clock += 1;
        let now = Timestamp { micros: self.clock };
        let task = Task {
            id: row.id,
            user_id: row.user_id,
            parent_id: row.parent_id,
            title: row.title.clone(),
            description: row.description.clone(),
            status: row.status,
            estimated_mins: row.estimated_mins,
            spent_mins: 0,
            is_deleted: false,
            created_at: now,
            updated_at: now,
        };
        self.tasks.insert(row.id.bits, task.clone());
        Ok(task)
    }

    fn subtree(&self, root: Uuid) -> Vec<Uuid> {
        let mut ids: Vec<Uuid> = Vec::new();
        if let Ok(Some(task)) = self.find(root) {
            ids.push(task.id);
        }
        let mut next = 0;
        while next < ids.len() {
            for task in self.tasks.values() {
                if !task.is_deleted && task.parent_id == Some(ids[next]) {
                    ids.push(task.id);
                }
            }
            next += 1;
        }
        ids
    }

    fn patch(&mut self, id: Uuid, patch: &TaskPatchRow) -> Result<Task, DomainError> {
        let task = match self.tasks.get_mut(&id.bits) {
            Some(task) if !task.is_deleted => task,
            _ => return Err(DomainError::NotFound(id)),
        };
        if let Some(title) = &patch.title {
            task.title = title.clone();
        }
        if let Some(description) = &patch.description {
            task.description = description.clone();
        }
        if let Some(status) = patch.status {
            task.status = status;
        }
        if let Some(mins) = patch.estimated_mins {
            task.estimated_mins = mins;
        }
        if let Some(parent) = patch.parent_id {
            task.parent_id = parent;
        }
        Ok(task.clone())
    }

    fn send(&mut self, message: Message) -> Result<(), DomainError> {
        if self.bus_is_down {
            return Err(DomainError::Messaging("down".to_string()));
        }
        self.sent.push(message);
        Ok(())
    }

    fn create(&mut self, input: CreateTaskInput) -> Result<Task, DomainError> {
        let mut step = TaskService::create_task(input);
        loop {
            step = match step {
                CreateTask::FindParent(state) => {
                    let reply = self.find(state.find_by_id());
                    state.resume(reply)
                }
                CreateTask::Insert(state) => {
                    let reply = self.insert(state.create());
                    state.resume(reply)
                }
                CreateTask::Publish(news) => {
                    let (message, rest) = news.publish();
                    let reply = self.send(message);
                    CreateTask::Done(rest.resume(reply))
                }
                CreateTask::Done(result) => return result,
            }
        }
    }

    fn get(&self, id: Uuid, user: Uuid) -> Result<Task, DomainError> {
        let state = TaskService::get_task(id, user);
        let reply = self.find(state.find_by_id());
        state.resume(reply)
    }

    fn list(&self, user: Uuid, parent: Option<Uuid>) -> Result<Vec<Task>, DomainError> {
        let state = TaskService::list_tasks(user, parent);
        let (user_id, parent_id) = state.find_by_user_and_parent();
        let mut tasks: Vec<Task> = self
            .tasks
            .values()
            .filter(|t| !t.is_deleted && t.user_id == user_id && t.parent_id == parent_id)
            .cloned()
            .collect();
        tasks.sort_by_key(|t| t.created_at.micros);
        state.resume(Ok(tasks))
    }

    /// Ends with the number of tasks that the deletion reached.
    fn user_is_deleted(&mut self, user_id: Uuid) -> Result<u64, DomainError> {
        let state = TaskService::handle_user_deleted(UserDeletedEvent { user_id });
        let gone = state.soft_delete_by_user();
        let mut count = 0;
        for task in self.tasks.values_mut() {
            if !task.is_deleted && task.user_id == gone {
                task.is_deleted = true;
                count += 1;
            }
        }
        let reply = PgTaskRepository::soft_delete_by_user_reply(count);
        state.resume(reply)?;
        Ok(count)
    }

    fn timer_stops(&mut self, task_id: Uuid, duration_seconds: i64) -> Result<(), DomainError> {
        let event = TimerStoppedEvent { timer_id: NOBODY, task_id, duration_seconds };
        match TaskService::handle_timer_stopped(event) {
            TimerBooking::Add(state) => {
                let (id, minutes) = state.add_spent_mins();
                let mut count = 0;
                if let Some(task) = self.tasks.get_mut(&id.bits).filter(|t| !t.is_deleted) {
                    task.spent_mins += minutes;
                    count += 1;
                }
                state.resume(PgTaskRepository::add_spent_mins_reply(count))
            }
            TimerBooking::Done(result) => result,
        }
    }

    fn tree(&self, id: Uuid, user: Uuid) -> Result<TaskTree, DomainError> {
        let state = TaskService::get_task_tree(id, user);
        let reply = self.find(state.find_by_id());
        let mut step = state.resume(reply);
        loop {
            step = match step {
                GetTaskTree::FindSubtree(state) => {
                    let reply = Ok(self.subtree(state.find_subtree_ids()));
                    state.resume(reply)
                }
                GetTaskTree::Fetch(state) => {
                    let reply = Ok(state
                        .find_by_ids()
                        .iter()
                        .filter_map(|id| self.find(*id).unwrap())
                        .collect());
                    state.resume(reply)
                }
                GetTaskTree::Done(result) => return result,
            }
        }
    }

    fn update(
        &mut self,
        id: Uuid,
        user: Uuid,
        input: UpdateTaskInput,
    ) -> Result<Task, DomainError> {
        let state = TaskService::update_task(id, user, input);
        let reply = self.find(state.find_by_id());
        let mut step = state.resume(reply);
        loop {
            step = match step {
                UpdateTask::FindParent(state) => {
                    let reply = self.find(state.find_by_id());
                    state.resume(reply)
                }
                UpdateTask::FindSubtree(state) => {
                    let reply = Ok(self.subtree(state.find_subtree_ids()));
                    state.resume(reply)
                }
                UpdateTask::Write(state) => {
                    let (id, patch) = state.update();
                    let reply = self.patch(id, patch);
                    state.resume(reply)
                }
                UpdateTask::Publish(news) => {
                    let (message, rest) = news.publish();
                    let reply = self.send(message);
                    UpdateTask::Done(rest.resume(reply))
                }
                UpdateTask::Done(result) => return result,
            }
        }
    }

    fn delete(&mut self, id: Uuid, user: Uuid) -> Result<(), DomainError> {
        let state = TaskService::delete_task(id, user);
        let reply = self.find(state.find_by_id());
        let mut step = state.resume(reply);
        loop {
            step = match step {
                DeleteTask::Write(state) => {
                    let id = state.soft_delete();
                    self.tasks.get_mut(&id.bits).unwrap().is_deleted = true;
                    state.resume(Ok(()))
                }
                DeleteTask::Publish(news) => {
                    let (message, rest) = news.publish();
                    let reply = self.send(message);
                    DeleteTask::Done(rest.resume(reply))
                }
                DeleteTask::Done(result) => return result,
            }
        }
    }

    fn add(&mut self, user: Uuid, title: &str, parent: Option<Uuid>) -> Uuid {
        self.create(input(user, title, parent)).unwrap().id
    }
}

fn input(user_id: Uuid, title: &str, parent_id: Option<Uuid>) -> CreateTaskInput {
    CreateTaskInput {
        user_id,
        parent_id,
        title: title.to_string(),
        description: " about it\n".to_string(),
        estimated_mins: 30,
    }
}

fn no_change() -> UpdateTaskInput {
    UpdateTaskInput {
        title: None,
        description: None,
        status: None,
        estimated_mins: None,
        parent_id: None,
    }
}

fn move_to(parent: Option<Uuid>) -> UpdateTaskInput {
    UpdateTaskInput { parent_id: Some(parent), ..no_change() }
}

fn text(message: &Message, field: &str) -> String {
    message.payload.get(field).unwrap().as_str().unwrap().to_string()
}

#[test]
fn a_created_task_is_read_back_trimmed_and_to_do() {
    let mut world = World::new();
    let id = world.add(ALICE, " \u{3000}\tBuy milk\u{a0} ", None);
    let task = world.get(id, ALICE).unwrap();
    assert_eq!(task.title, "Buy milk");
    assert_eq!(task.description, "about it");
    assert_eq!(task.status, TaskStatus::Todo);
    assert_eq!(task.estimated_mins, 30);
    assert_eq!(task.user_id, ALICE);
    assert_eq!(task.parent_id, None);
}

#[test]
fn white_space_inside_a_title_stays() {
    let mut world = World::new();
    let id = world.add(ALICE, "\n a  b \t", None);
    assert_eq!(world.get(id, ALICE).unwrap().title, "a  b");
}

#[test]
fn identifiers_are_random_and_of_version_four() {
    let mut world = World::new();
    let one = world.add(ALICE, "one", None);
    let two = world.add(ALICE, "two", None);
    assert_ne!(one, two);
    for id in [one, two] {
        assert_eq!((id.bits >> 76) & 0xf, 4);
        assert_eq!((id.bits >> 62) & 0x3, 2);
    }
}

#[test]
fn a_blank_title_is_refused() {
    let mut world = World::new();
    for title in ["", "   ", "\t\u{2003}\n"] {
        match world.create(input(ALICE, title, None)) {
            Err(DomainError::Validation(why)) => assert_eq!(why, "title must not be empty"),
            other => panic!("{:?}", other),
        }
    }
    assert!(world.tasks.is_empty());
    assert!(world.sent.is_empty());
}

#[test]
fn titles_are_measured_in_characters_once_trimmed() {
    let mut world = World::new();
    let longest = "\u{fc}".repeat(500);
    let id = world.add(ALICE, &format!("  {}  ", longest), None);
    assert_eq!(world.get(id, ALICE).unwrap().title, longest);
    match world.create(input(ALICE, &"a".repeat(501), None)) {
        Err(DomainError::Validation(why)) => assert_eq!(why, "title exceeds 500 characters"),
        other => panic!("{:?}", other),
    }
}

#[test]
fn an_estimate_below_zero_becomes_zero() {
    let mut world = World::new();
    let task = world
        .create(CreateTaskInput { estimated_mins: -5, ..input(ALICE, "t", None) })
        .unwrap();
    assert_eq!(task.estimated_mins, 0);
}

#[test]
fn a_parent_has_to_be_there_and_ones_own() {
    let mut world = World::new();
    assert!(matches!(
        world.create(input(ALICE, "child", Some(NOBODY))),
        Err(DomainError::NotFound(id)) if id == NOBODY
    ));
    let of_bob = world.add(BOB, "bob's", None);
    assert!(matches!(
        world.create(input(ALICE, "child", Some(of_bob))),
        Err(DomainError::Forbidden(id)) if id == of_bob
    ));
    let own = world.add(ALICE, "own", None);
    let child = world.create(input(ALICE, "child", Some(own))).unwrap();
    assert_eq!(child.parent_id, Some(own));
    assert_eq!(world.tasks.len(), 3);
}

#[test]
fn only_the_owner_reads_changes_and_deletes() {
    let mut world = World::new();
    let id = world.add(ALICE, "mine", None);
    assert!(matches!(world.get(id, BOB), Err(DomainError::Forbidden(x)) if x == id));
    assert!(matches!(world.tree(id, BOB), Err(DomainError::Forbidden(x)) if x == id));
    assert!(matches!(
        world.update(id, BOB, UpdateTaskInput { title: Some("his".to_string()), ..no_change() }),
        Err(DomainError::Forbidden(x)) if x == id
    ));
    assert!(matches!(world.delete(id, BOB), Err(DomainError::Forbidden(x)) if x == id));
    assert_eq!(world.get(id, ALICE).unwrap().title, "mine");
    assert!(matches!(world.get(NOBODY, ALICE), Err(DomainError::NotFound(x)) if x == NOBODY));
    assert_eq!(world.sent.len(), 1);
}

#[test]
fn an_update_changes_what_it_names() {
    let mut world = World::new();
    let id = world.add(ALICE, "old", None);
    let updated = world
        .update(
            id,
            ALICE,
            UpdateTaskInput {
                title: Some("new".to_string()),
                status: Some(TaskStatus::InProgress),
                ..no_change()
            },
        )
        .unwrap();
    assert_eq!(updated.title, "new");
    let read = world.get(id, ALICE).unwrap();
    assert_eq!(read.title, "new");
    assert_eq!(read.status, TaskStatus::InProgress);
    assert_eq!(read.description, "about it");
    assert_eq!(read.estimated_mins, 30);
}

#[test]
fn a_task_is_not_its_own_parent() {
    let mut world = World::new();
    let id = world.add(ALICE, "t", None);
    assert!(matches!(
        world.update(id, ALICE, move_to(Some(id))),
        Err(DomainError::SelfReference)
    ));
}

#[test]
fn a_task_does_not_move_below_itself() {
    let mut world = World::new();
    let top = world.add(ALICE, "top", None);
    let middle = world.add(ALICE, "middle", Some(top));
    let leaf = world.add(ALICE, "leaf", Some(middle));
    for below in [middle, leaf] {
        assert!(matches!(
            world.update(top, ALICE, move_to(Some(below))),
            Err(DomainError::CircularReference)
        ));
    }
    assert_eq!(world.get(top, ALICE).unwrap().parent_id, None);
    world.update(leaf, ALICE, move_to(Some(top))).unwrap();
    assert_eq!(world.get(leaf, ALICE).unwrap().parent_id, Some(top));
    world.update(leaf, ALICE, move_to(None)).unwrap();
    assert_eq!(world.get(leaf, ALICE).unwrap().parent_id, None);
    world.update(top, ALICE, move_to(Some(leaf))).unwrap();
}

#[test]
fn a_new_parent_has_to_be_there_and_ones_own() {
    let mut world = World::new();
    let id = world.add(ALICE, "t", None);
    let of_bob = world.add(BOB, "bob's", None);
    assert!(matches!(
        world.update(id, ALICE, move_to(Some(NOBODY))),
        Err(DomainError::NotFound(x)) if x == NOBODY
    ));
    assert!(matches!(
        world.update(id, ALICE, move_to(Some(of_bob))),
        Err(DomainError::Forbidden(x)) if x == of_bob
    ));
}

#[test]
fn a_deleted_task_is_gone_but_kept() {
    let mut world = World::new();
    let id = world.add(ALICE, "t", None);
    world.delete(id, ALICE).unwrap();
    assert!(matches!(world.get(id, ALICE), Err(DomainError::NotFound(x)) if x == id));
    assert!(matches!(
        world.update(id, ALICE, no_change()),
        Err(DomainError::NotFound(x)) if x == id
    ));
    assert!(matches!(world.delete(id, ALICE), Err(DomainError::NotFound(x)) if x == id));
    assert!(matches!(
        world.create(input(ALICE, "child", Some(id))),
        Err(DomainError::NotFound(x)) if x == id
    ));
    assert!(world.tasks[&id.bits].is_deleted);
    assert_eq!(world.tasks[&id.bits].title, "t");
}

#[test]
fn a_tree_shows_the_live_subtree() {
    let mut world = World::new();
    let top = world.add(ALICE, "top", None);
    let a = world.add(ALICE, "a", Some(top));
    let b = world.add(ALICE, "b", Some(top));
    let c = world.add(ALICE, "c", Some(a));
    let gone = world.add(ALICE, "gone", Some(a));
    world.add(ALICE, "elsewhere", None);
    world.delete(gone, ALICE).unwrap();
    let tree = world.tree(top, ALICE).unwrap();
    assert_eq!(tree.task.id, top);
    let mut below: Vec<Uuid> = tree.children.iter().map(|t| t.task.id).collect();
    below.sort_by_key(|id| id.bits);
    let mut expected = vec![a, b];
    expected.sort_by_key(|id| id.bits);
    assert_eq!(below, expected);
    let under_a = tree.children.iter().find(|t| t.task.id == a).unwrap();
    assert_eq!(under_a.children.len(), 1);
    assert_eq!(under_a.children[0].task.id, c);
    assert!(tree.children.iter().find(|t| t.task.id == b).unwrap().children.is_empty());
}

#[test]
fn a_list_is_asked_for_by_user_and_parent() {
    let state = TaskService::list_tasks(ALICE, Some(BOB));
    assert_eq!(state.find_by_user_and_parent(), (ALICE, Some(BOB)));
    assert!(state.resume(Ok(vec![])).unwrap().is_empty());
    assert!(matches!(
        TaskService::list_tasks(ALICE, None).resume(Err(DomainError::Database("x".to_string()))),
        Err(DomainError::Database(why)) if why == "x"
    ));
}

#[test]
fn changes_are_announced() {
    let mut world = World::new();
    let id = world.add(ALICE, "t", None);
    world
        .update(id, ALICE, UpdateTaskInput { estimated_mins: Some(-7), ..no_change() })
        .unwrap();
    world.delete(id, ALICE).unwrap();
    let subjects: Vec<&str> = world.sent.iter().map(|m| m.subject).collect();
    assert_eq!(subjects, vec!["task.created", "task.updated", "task.deleted"]);
    let written = format!("00000000-0000-0000-0000-{:012x}", ALICE.bits);
    assert_eq!(text(&world.sent[0], "user_id"), written);
    for message in &world.sent {
        assert_eq!(text(message, "task_id").len(), 36);
    }
    let changed = world.sent[1].payload.get("changes").unwrap().as_object().unwrap();
    assert_eq!(changed.len(), 4);
    assert!(changed.get("title").unwrap().is_null());
    assert!(changed.get("description").unwrap().is_null());
    assert!(changed.get("status").unwrap().is_null());
    assert_eq!(changed.get("estimated_mins").unwrap().as_i64(), Some(-7));
    assert_eq!(world.sent[2].payload.len(), 1);
}

#[test]
fn changes_show_status_and_texts() {
    let object = changes(&TaskPatchRow {
        title: Some("t".to_string()),
        description: Some("".to_string()),
        status: Some(TaskStatus::Cancelled),
        estimated_mins: Some(2147483647),
        parent_id: Some(None),
    });
    assert_eq!(object.get("title").unwrap().as_str(), Some("t"));
    assert_eq!(object.get("description").unwrap().as_str(), Some(""));
    assert_eq!(object.get("status").unwrap().as_str(), Some("cancelled"));
    assert_eq!(object.get("estimated_mins").unwrap().as_i64(), Some(2147483647));
    assert_eq!(object.len(), 4);
}

#[test]
fn a_silent_bus_changes_no_outcome() {
    let mut world = World::new();
    world.bus_is_down = true;
    let id = world.add(ALICE, "t", None);
    world.update(id, ALICE, move_to(None)).unwrap();
    world.delete(id, ALICE).unwrap();
    assert!(world.sent.is_empty());
    assert!(world.tasks[&id.bits].is_deleted);
}

#[test]
fn an_error_of_the_table_is_passed_on() {
    let broken = || DomainError::Database("broken".to_string());
    let state = TaskService::get_task(NOBODY, ALICE);
    assert!(matches!(state.resume(Err(broken())), Err(DomainError::Database(s)) if s == "broken"));
    match TaskService::create_task(input(ALICE, "t", None)) {
        CreateTask::Insert(state) => assert!(matches!(
            state.resume(Err(broken())),
            CreateTask::Done(Err(DomainError::Database(_)))
        )),
        _ => panic!("no insertion"),
    }
    assert!(matches!(
        TaskService::update_task(NOBODY, ALICE, no_change()).resume(Err(broken())),
        UpdateTask::Done(Err(DomainError::Database(_)))
    ));
    assert!(matches!(
        TaskService::delete_task(NOBODY, ALICE).resume(Err(broken())),
        DeleteTask::Done(Err(DomainError::Database(_)))
    ));
    assert!(matches!(
        TaskService::get_task_tree(NOBODY, ALICE).resume(Err(broken())),
        GetTaskTree::Done(Err(DomainError::Database(_)))
    ));
}

#[test]
fn a_deleted_user_takes_their_tasks_along() {
    let state = TaskService::handle_user_deleted(UserDeletedEvent { user_id: ALICE });
    assert_eq!(state.soft_delete_by_user(), ALICE);
    assert!(state.resume(Ok(0)).is_ok());
    let state = TaskService::handle_user_deleted(UserDeletedEvent { user_id: ALICE });
    assert!(matches!(
        state.resume(Err(DomainError::Database("x".to_string()))),
        Err(DomainError::Database(_))
    ));
}

fn minutes(seconds: i64) -> Option<i32> {
    let event = TimerStoppedEvent { timer_id: NOBODY, task_id: BOB, duration_seconds: seconds };
    match TaskService::handle_timer_stopped(event) {
        TimerBooking::Add(add) => {
            let (task_id, minutes) = add.add_spent_mins();
            assert_eq!(task_id, BOB);
            assert!(add.resume(Ok(())).is_ok());
            Some(minutes)
        }
        TimerBooking::Done(result) => {
            assert!(result.is_ok());
            None
        }
    }
}

#[test]
fn timers_book_whole_minutes() {
    assert_eq!(minutes(0), None);
    assert_eq!(minutes(59), None);
    assert_eq!(minutes(60), Some(1));
    assert_eq!(minutes(119), Some(1));
    assert_eq!(minutes(3600), Some(60));
    assert_eq!(minutes(-3600), None);
    assert_eq!(minutes(i64::MAX), None);
    assert_eq!(minutes(i64::MIN), None);
    assert_eq!(minutes(60 * 2147483647 + 59), Some(2147483647));
    assert_eq!(minutes(60 * 2147483647), Some(2147483647));
    assert_eq!(minutes(60 * 2147483648), None);
    assert_eq!(minutes(60 * 4294967297), None);
    assert_eq!(minutes(-60 * 2147483649), None);
}

#[test]
fn a_list_shows_own_tasks_oldest_first() {
    let mut world = World::new();
    let one = world.add(ALICE, "one", None);
    world.add(BOB, "bob's", None);
    let two = world.add(ALICE, "two", None);
    let below = world.add(ALICE, "below", Some(one));
    let ids = |tasks: Vec<Task>| tasks.iter().map(|t| t.id).collect::<Vec<Uuid>>();
    assert_eq!(ids(world.list(ALICE, None).unwrap()), vec![one, two]);
    assert_eq!(ids(world.list(ALICE, Some(one)).unwrap()), vec![below]);
    assert!(world.list(BOB, Some(one)).unwrap().is_empty());
    world.delete(two, ALICE).unwrap();
    assert_eq!(ids(world.list(ALICE, None).unwrap()), vec![one]);
}

#[test]
fn tasks_of_others_outlive_a_deleted_user() {
    let mut world = World::new();
    let gone = world.add(ALICE, "hers", None);
    let stays = world.add(BOB, "his", None);
    world.add(ALICE, "hers too", Some(gone));
    assert_eq!(world.user_is_deleted(ALICE).unwrap(), 2);
    assert!(matches!(world.get(gone, ALICE), Err(DomainError::NotFound(_))));
    assert_eq!(world.get(stays, BOB).unwrap().title, "his");
    assert_eq!(world.tasks.len(), 3);
    assert_eq!(world.user_is_deleted(ALICE).unwrap(), 0);
    assert_eq!(world.get(stays, BOB).unwrap().title, "his");
}

#[test]
fn booked_minutes_add_up() {
    let mut world = World::new();
    let id = world.add(ALICE, "t", None);
    world.timer_stops(id, 125).unwrap();
    world.timer_stops(id, 59).unwrap();
    world.timer_stops(id, 600).unwrap();
    let task = world.get(id, ALICE).unwrap();
    assert_eq!(task.spent_mins, 12);
    assert_eq!(task.estimated_mins, 30);
}

#[test]
fn minutes_for_a_task_that_is_gone_are_booked_nowhere() {
    let mut world = World::new();
    let id = world.add(ALICE, "t", None);
    world.delete(id, ALICE).unwrap();
    assert!(world.timer_stops(id, 120).is_ok());
    assert!(world.timer_stops(NOBODY, 120).is_ok());
    assert_eq!(world.tasks[&id.bits].spent_mins, 0);
    assert_eq!(world.tasks.len(), 1);
}

#[test]
fn parents_form_no_circle_after_any_move() {
    let mut world = World::new();
    let ids: Vec<Uuid> = (0..4).map(|i| world.add(ALICE, &format!("t{}", i), None)).collect();
    for (child, parent) in [(1, 0), (2, 1), (0, 2), (3, 2), (1, 3), (0, 3), (2, 0), (3, 1)] {
        let _ = world.update(ids[child], ALICE, move_to(Some(ids[parent])));
        for id in &ids {
            let mut above = world.tasks[&id.bits].parent_id;
            let mut steps = 0;
            while let Some(parent) = above {
                assert_ne!(parent, *id);
                above = world.tasks[&parent.bits].parent_id;
                steps += 1;
                assert!(steps <= ids.len());
            }
        }
    }
}

#[test]
fn a_tree_shows_each_task_once() {
    fn collect(tree: &TaskTree, ids: &mut Vec<u128>) {
        ids.push(tree.task.id.bits);
        for child in &tree.children {
            collect(child, ids);
        }
    }
    let mut world = World::new();
    let top = world.add(ALICE, "top", None);
    let a = world.add(ALICE, "a", Some(top));
    let b = world.add(ALICE, "b", Some(top));
    for parent in [a, a, b, b] {
        let child = world.add(ALICE, "child", Some(parent));
        world.add(ALICE, "grandchild", Some(child));
    }
    let mut shown: Vec<u128> = Vec::new();
    collect(&world.tree(top, ALICE).unwrap(), &mut shown);
    shown.sort();
    assert_eq!(shown, world.tasks.keys().copied().collect::<Vec<u128>>());
}

#[test]
fn a_task_that_goes_away_meanwhile_is_not_found() {
    let mut world = World::new();
    let id = world.add(ALICE, "t", None);
    let found = world.find(id);
    let state = match TaskService::update_task(id, ALICE, no_change()).resume(found) {
        UpdateTask::Write(state) => state,
        other => panic!("{:?}", other),
    };
    world.delete(id, ALICE).unwrap();
    let reply = world.patch(id, state.update().1);
    assert!(matches!(
        state.resume(reply),
        UpdateTask::Done(Err(DomainError::NotFound(x))) if x == id
    ));
    let found = Ok(Some(world.tasks[&id.bits].clone()));
    let state = match TaskService::delete_task(id, ALICE).resume(found) {
        DeleteTask::Write(state) => state,
        other => panic!("{:?}", other),
    };
    let reply = PgTaskRepository::soft_delete_reply(state.soft_delete(), 0);
    assert!(matches!(
        state.resume(reply),
        DeleteTask::Done(Err(DomainError::NotFound(x))) if x == id
    ));
}

#[test]
fn a_taken_identifier_is_an_error_of_the_table() {
    let state = match TaskService::create_task(input(ALICE, "t", None)) {
        CreateTask::Insert(state) => state,
        other => panic!("{:?}", other),
    };
    let reply = Err(DomainError::Database("duplicate key".to_string()));
    assert!(matches!(
        state.resume(reply),
        CreateTask::Done(Err(DomainError::Database(why))) if why == "duplicate key"
    ));
}
