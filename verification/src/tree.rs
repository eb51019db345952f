//! Subtrees of tasks, put together in memory out of a flat list.

use vstd::prelude::*;

use crate::domain;
use crate::domain::{Task, TaskView};
use crate::identifier::Uuid;

verus! {

/// A task with its subtasks.
#[derive(Debug)]
pub struct TaskTree {
    pub task: Task,
    pub children: Vec<TaskTree>,
}

/// What a tree says.
pub struct TreeView {
    pub task: TaskView,
    pub children: Seq<TreeView>,
}

/// What a tree says, node by node.
pub open spec fn tree_view(tree: TaskTree) -> TreeView
    decreases tree,
{
    TreeView {
        task: tree.task@,
        children: Seq::new(
            tree.children@.len(),
            |i: int|
                if 0 <= i < tree.children@.len() {
                    tree_view(tree.children@[i])
                } else {
                    arbitrary()
                },
        ),
    }
}

/// The tasks of a list whose parent is `id`, in the order of the list.
pub open spec fn children_of(tasks: Seq<TaskView>, id: Uuid) -> Seq<TaskView> {
    tasks.filter(|t: TaskView| t.parent_id == Some(id))
}

/// The tasks of a list whose parent is not `id`, in the order of the list.
pub open spec fn others_than_children_of(tasks: Seq<TaskView>, id: Uuid) -> Seq<TaskView> {
    tasks.filter(|t: TaskView| t.parent_id != Some(id))
}

pub proof fn lemma_children_and_others(tasks: Seq<TaskView>, id: Uuid)
    ensures
        children_of(tasks, id).len() + others_than_children_of(tasks, id).len() == tasks.len(),
    decreases tasks.len(),
{
    reveal(Seq::filter);
    if tasks.len() > 0 {
        lemma_children_and_others(tasks.drop_last(), id);
    }
}

/// The tree that a list of tasks makes below `root`: its children are the
/// tasks that name it as their parent, each with its own tree below it.  Who
/// has been placed below one task is not placed again further down, so the
/// tree is finite even where parents run in a circle.
pub open spec fn tree_of(tasks: Seq<TaskView>, root: TaskView) -> TreeView
    decreases tasks.len(),
{
    proof {
        lemma_children_and_others(tasks, root.id);
    }
    TreeView {
        task: root,
        children: Seq::new(
            children_of(tasks, root.id).len(),
            |i: int|
                if 0 <= i < children_of(tasks, root.id).len() {
                    tree_of(
                        others_than_children_of(tasks, root.id),
                        children_of(tasks, root.id)[i],
                    )
                } else {
                    arbitrary()
                },
        ),
    }
}

/// What a list of borrowed tasks says.
pub open spec fn borrowed_views(tasks: Seq<&Task>) -> Seq<TaskView> {
    tasks.map_values(|t: &Task| t@)
}

/// The tree that `tasks` make below `root`.
fn grow(root: Task, tasks: &Vec<&Task>) -> (tree: TaskTree)
    ensures
        tree_view(tree) == tree_of(borrowed_views(tasks@), root@),
    decreases tasks.len(),
{
    let ghost all = borrowed_views(tasks@);
    let id = root.id;
    let mut below: Vec<&Task> = Vec::new();
    let mut rest: Vec<&Task> = Vec::new();
    let mut i: usize = 0;
    proof {
        reveal(Seq::filter);
        assert(all.take(0) =~= Seq::empty());
        assert(borrowed_views(below@) =~= children_of(all.take(0), id));
        assert(borrowed_views(rest@) =~= others_than_children_of(all.take(0), id));
    }
    while i < tasks.len()
        invariant
            i <= tasks.len(),
            all == borrowed_views(tasks@),
            borrowed_views(below@) == children_of(all.take(i as int), id),
            borrowed_views(rest@) == others_than_children_of(all.take(i as int), id),
        decreases tasks.len() - i,
    {
        let task: &Task = tasks[i];
        proof {
            assert(all.take(i + 1) =~= all.take(i as int).push(all[i as int]));
            all.take(i as int).lemma_filter_push(
                all[i as int],
                |t: TaskView| t.parent_id == Some(id),
            );
            all.take(i as int).lemma_filter_push(
                all[i as int],
                |t: TaskView| t.parent_id != Some(id),
            );
            assert(borrowed_views(below@.push(task)) =~= borrowed_views(below@).push(task@));
            assert(borrowed_views(rest@.push(task)) =~= borrowed_views(rest@).push(task@));
        }
        let is_child = match task.parent_id {
            Some(parent) => parent == id,
            None => false,
        };
        if is_child {
            below.push(task);
        } else {
            rest.push(task);
        }
        i = i + 1;
    }
    proof {
        assert(all.take(all.len() as int) =~= all);
        lemma_children_and_others(all, id);
    }
    let mut children: Vec<TaskTree> = Vec::new();
    let mut k: usize = 0;
    while k < below.len()
        invariant
            k <= below.len(),
            k == children.len(),
            below.len() + rest.len() == tasks.len(),
            forall|j: int|
                0 <= j < k ==> tree_view(#[trigger] children[j]) == tree_of(
                    borrowed_views(rest@),
                    below[j]@,
                ),
        decreases below.len() - k,
    {
        let child = grow(below[k].clone(), &rest);
        children.push(child);
        k = k + 1;
    }
    let tree = TaskTree { task: root, children };
    assert(tree_view(tree).children =~= tree_of(all, root@).children);
    tree
}

/// The tree that `tasks` make below `root`.
pub fn build_tree(root: Task, tasks: &Vec<Task>) -> (tree: TaskTree)
    ensures
        tree_view(tree) == tree_of(domain::task_views(tasks@), root@),
{
    let mut borrowed: Vec<&Task> = Vec::new();
    let mut i: usize = 0;
    while i < tasks.len()
        invariant
            i == borrowed.len(),
            i <= tasks.len(),
            forall|j: int| 0 <= j < i ==> *(#[trigger] borrowed[j]) == tasks[j],
        decreases tasks.len() - i,
    {
        borrowed.push(&tasks[i]);
        i = i + 1;
    }
    assert(borrowed_views(borrowed@) =~= domain::task_views(tasks@));
    grow(root, &borrowed)
}

} // verus!
