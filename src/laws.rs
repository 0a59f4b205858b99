use vstd::prelude::*;
use crate::render::{listing, no_tasks_line};
use crate::todo::{fresh_todo, with_status, Status, TodoModel};

verus! {

/// A new task is not started and keeps its description, whatever the
/// description holds, the empty one included.
pub proof fn lemma_new_task_not_started(description: Seq<char>)
    ensures
        fresh_todo(description).status == Status::NotStarted,
        fresh_todo(description).description == description,
{
}

/// Setting a task's status twice to the same value is the same as setting it
/// once: marking completed, or in progress, is idempotent.
pub proof fn lemma_mark_idempotent(t: TodoModel, status: Status)
    ensures
        with_status(with_status(t, status), status) == with_status(t, status),
        with_status(t, status).status == status,
        with_status(t, status).description == t.description,
{
}

/// After completing the task at a valid position `i`, that task reads as
/// completed with its description kept, the length is the same, and every
/// other task is as it was.
pub proof fn lemma_complete_changes_one(l: Seq<TodoModel>, i: int)
    requires
        0 <= i < l.len(),
    ensures
        ({
            let after = l.update(i, with_status(l[i], Status::Completed));
            &&& after.len() == l.len()
            &&& after[i].status == Status::Completed
            &&& after[i].description == l[i].description
            &&& forall|j: int| 0 <= j < l.len() && j != i ==> after[j] == l[j]
        }),
{
}

/// Removing the task at a valid position `i` shortens the list by one, keeps
/// the tasks before `i` in place, and moves each task after `i` down by one.
pub proof fn lemma_remove_shifts(l: Seq<TodoModel>, i: int)
    requires
        0 <= i < l.len(),
    ensures
        ({
            let after = l.remove(i);
            &&& after.len() == l.len() - 1
            &&& forall|j: int| 0 <= j < i ==> after[j] == l[j]
            &&& forall|j: int| i < j < l.len() ==> after[j - 1] == l[j]
        }),
{
}

/// The listing of no tasks is exactly the no-tasks line; no listing is empty.
pub proof fn lemma_listing_of_empty(l: Seq<TodoModel>)
    ensures
        listing(Seq::<TodoModel>::empty()) == seq![no_tasks_line()],
        listing(l).len() >= 1,
        l.len() > 0 ==> listing(l).len() == l.len(),
{
}

} // verus!
