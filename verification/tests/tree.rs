use task_service::domain::{Task, TaskStatus, Timestamp};
use task_service::identifier::Uuid;
use task_service::tree::{build_tree, TaskTree};

fn task(id: u128, parent: Option<u128>) -> Task {
    Task {
        id: Uuid { bits: id },
        user_id: Uuid { bits: 1000 },
        parent_id: parent.map(|bits| Uuid { bits }),
        title: format!("task {}", id),
        description: String::new(),
        status: TaskStatus::Todo,
        estimated_mins: 0,
        spent_mins: 0,
        is_deleted: false,
        created_at: Timestamp { micros: id as i64 },
        updated_at: Timestamp { micros: id as i64 },
    }
}

fn written(tree: &TaskTree) -> String {
    let mut text = tree.task.id.bits.to_string();
    if !tree.children.is_empty() {
        text.push('(');
        for (i, child) in tree.children.iter().enumerate() {
            if i > 0 {
                text.push(' ');
            }
            text.push_str(&written(child));
        }
        text.push(')');
    }
    text
}

#[test]
fn a_task_without_subtasks_is_a_leaf() {
    let tree = build_tree(task(1, None), &vec![task(1, None)]);
    assert_eq!(written(&tree), "1");
    assert_eq!(tree.task.title, "task 1");
}

#[test]
fn subtasks_are_nested_in_the_order_of_the_list() {
    let tasks = vec![
        task(5, Some(3)),
        task(3, Some(1)),
        task(1, None),
        task(2, Some(1)),
        task(4, Some(3)),
        task(6, Some(4)),
    ];
    assert_eq!(written(&build_tree(task(1, None), &tasks)), "1(3(5 4(6)) 2)");
}

#[test]
fn what_is_not_below_the_root_is_left_out() {
    let tasks = vec![task(2, Some(1)), task(7, None), task(8, Some(7)), task(1, Some(9))];
    assert_eq!(written(&build_tree(task(1, Some(9)), &tasks)), "1(2)");
}

#[test]
fn parents_in_a_circle_still_make_a_finite_tree() {
    let tasks = vec![task(1, Some(2)), task(2, Some(1))];
    assert_eq!(written(&build_tree(task(1, Some(2)), &tasks)), "1(2(1))");
}
